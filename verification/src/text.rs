//! Character-level helpers that the rest of the crate builds on.
//!
//! Strings are specified through their view, `Seq<char>`. Executable code
//! that has to look inside a string first turns it into a `Vec<char>` with
//! [`chars_of`] and then works by index.

use vstd::prelude::*;

verus! {

/// The characters of `s`, in order.
pub fn chars_of(s: &str) -> (chars: Vec<char>)
    ensures
        chars@ == s@,
{
    let mut chars: Vec<char> = Vec::new();
    for c in it: s.chars()
        invariant
            it.seq() == s@,
            chars@ == it.seq().take(it.index() as int),
    {
        chars.push(c);
    }
    chars
}

/// Whether `text` begins with `prefix`.
pub fn starts_with(text: &[char], prefix: &[char]) -> (found: bool)
    ensures
        found == prefix@.is_prefix_of(text@),
{
    if prefix.len() > text.len() {
        return false;
    }
    let mut i: usize = 0;
    while i < prefix.len()
        invariant
            i <= prefix.len() <= text.len(),
            forall|j: int| 0 <= j < i ==> prefix@[j] == text@[j],
        decreases prefix.len() - i,
    {
        if prefix[i] != text[i] {
            assert(text@.subrange(0, prefix@.len() as int)[i as int] == text@[i as int]);
            return false;
        }
        i += 1;
    }
    true
}

/// A token is flag-like when its first character is `-`.
pub open spec fn is_flag_like(token: Seq<char>) -> bool {
    token.len() > 0 && token[0] == '-'
}

/// Whether `token` begins with `-`.
pub fn starts_with_dash(token: &[char]) -> (flag: bool)
    ensures
        flag == is_flag_like(token@),
{
    token.len() > 0 && token[0] == '-'
}

/// Whether the three characters `://` stand in `token` from index `i` on.
pub open spec fn scheme_separator_at(token: Seq<char>, i: int) -> bool {
    &&& 0 <= i
    &&& i + 3 <= token.len()
    &&& token[i] == ':'
    &&& token[i + 1] == '/'
    &&& token[i + 2] == '/'
}

/// Whether `://` occurs anywhere in `token`.
pub open spec fn has_scheme_separator(token: Seq<char>) -> bool {
    exists|i: int| scheme_separator_at(token, i)
}

/// Searches `token` for `://`.
pub fn contains_scheme_separator(token: &[char]) -> (found: bool)
    ensures
        found == has_scheme_separator(token@),
{
    if token.len() < 3 {
        return false;
    }
    let last: usize = token.len() - 3;
    let mut i: usize = 0;
    while i <= last
        invariant
            last + 3 == token.len(),
            i <= last + 1,
            forall|j: int| 0 <= j < i ==> !scheme_separator_at(token@, j),
        decreases last + 1 - i,
    {
        if token[i] == ':' && token[i + 1] == '/' && token[i + 2] == '/' {
            assert(scheme_separator_at(token@, i as int));
            return true;
        }
        i += 1;
    }
    false
}

/// The lowercase form of `s`, as `str::to_lowercase` of the standard library
/// computes it from the characters of a string.
pub uninterp spec fn lowercase(s: Seq<char>) -> Seq<char>;

/// `str::to_lowercase` returns the lowercase equivalent of the string slice as
/// a new `String`; the result depends on the characters of `s` alone.
pub assume_specification[ str::to_lowercase ](s: &str) -> (lowered: String)
    ensures
        lowered@ == lowercase(s@),
;

/// Whether `c` is whitespace to the standard library: the Unicode property
/// `White_Space`, as `char::is_whitespace` reports it.
pub uninterp spec fn is_whitespace(c: char) -> bool;

/// `char::is_whitespace` tells whether the character has the `White_Space`
/// property.
pub assume_specification[ char::is_whitespace ](c: char) -> (space: bool)
    ensures
        space == is_whitespace(c),
;

/// A string is in lowercase when lowercasing leaves it as it is.
pub open spec fn is_lowercase(s: Seq<char>) -> bool {
    lowercase(s) == s
}

/// How many whitespace characters stand at the front of `s`.
pub open spec fn leading_whitespace(s: Seq<char>) -> nat
    decreases s.len(),
{
    if s.len() > 0 && is_whitespace(s[0]) {
        1 + leading_whitespace(s.drop_first())
    } else {
        0
    }
}

/// `s` without its leading whitespace.
pub open spec fn trim_start(s: Seq<char>) -> Seq<char> {
    s.skip(leading_whitespace(s) as int)
}

/// A run of `n` whitespace characters followed by another character, or by
/// the end of `s`, is the leading whitespace of `s`.
pub proof fn lemma_leading_whitespace_is(s: Seq<char>, n: nat)
    requires
        n <= s.len(),
        forall|i: int| 0 <= i < n ==> is_whitespace(#[trigger] s[i]),
        n < s.len() ==> !is_whitespace(s[n as int]),
    ensures
        leading_whitespace(s) == n,
    decreases n,
{
    if n > 0 {
        let rest = s.drop_first();
        assert forall|i: int| 0 <= i < n - 1 implies is_whitespace(#[trigger] rest[i]) by {
            assert(rest[i] == s[i + 1]);
        }
        lemma_leading_whitespace_is(rest, (n - 1) as nat);
    }
}

/// The index of the first character of `text` that is not whitespace, or the
/// length of `text` when there is none.
pub fn skip_whitespace(text: &[char]) -> (start: usize)
    ensures
        start == leading_whitespace(text@),
        start <= text.len(),
{
    let mut i: usize = 0;
    while i < text.len() && text[i].is_whitespace()
        invariant
            i <= text.len(),
            forall|j: int| 0 <= j < i ==> is_whitespace(#[trigger] text@[j]),
        decreases text.len() - i,
    {
        i += 1;
    }
    proof {
        lemma_leading_whitespace_is(text@, i as nat);
    }
    i
}

/// The character that stands for the digit `d`.
pub open spec fn digit(d: nat) -> char
    recommends
        d < 10,
{
    if d == 0 {
        '0'
    } else if d == 1 {
        '1'
    } else if d == 2 {
        '2'
    } else if d == 3 {
        '3'
    } else if d == 4 {
        '4'
    } else if d == 5 {
        '5'
    } else if d == 6 {
        '6'
    } else if d == 7 {
        '7'
    } else if d == 8 {
        '8'
    } else {
        '9'
    }
}

/// `n` written in base ten, without sign, padding or leading zeros.
pub open spec fn decimal(n: nat) -> Seq<char>
    decreases n,
{
    if n < 10 {
        seq![digit(n)]
    } else {
        decimal(n / 10).push(digit(n % 10))
    }
}

fn digit_str(d: u32) -> (s: &'static str)
    requires
        d < 10,
    ensures
        s@ == seq![digit(d as nat)],
{
    proof {
        reveal_strlit("0");
        reveal_strlit("1");
        reveal_strlit("2");
        reveal_strlit("3");
        reveal_strlit("4");
        reveal_strlit("5");
        reveal_strlit("6");
        reveal_strlit("7");
        reveal_strlit("8");
        reveal_strlit("9");
    }
    let s: &'static str = if d == 0 {
        "0"
    } else if d == 1 {
        "1"
    } else if d == 2 {
        "2"
    } else if d == 3 {
        "3"
    } else if d == 4 {
        "4"
    } else if d == 5 {
        "5"
    } else if d == 6 {
        "6"
    } else if d == 7 {
        "7"
    } else if d == 8 {
        "8"
    } else {
        "9"
    };
    assert(s@ =~= seq![digit(d as nat)]);
    s
}

/// Writes `n` in base ten.
pub fn decimal_string(n: u32) -> (s: String)
    ensures
        s@ == decimal(n as nat),
    decreases n,
{
    if n < 10 {
        digit_str(n).to_owned()
    } else {
        let mut s: String = decimal_string(n / 10);
        s.append(digit_str(n % 10));
        s
    }
}

} // verus!
