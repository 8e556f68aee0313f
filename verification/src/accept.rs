//! Detection of an `Accept` header among the arguments.
//!
//! The header can be given in two ways, and both count: as a token of its
//! own that begins with `accept:`, and as the token after `-H`, where
//! whitespace may stand before the header's name. Case is ignored: a token is
//! put in lowercase before it is looked at.

use crate::text::{chars_of, lowercase, skip_whitespace, starts_with, trim_start};
use vstd::prelude::*;
use vstd::slice::slice_subrange;

verus! {

/// Whether a header in lowercase is an `Accept` header.
pub open spec fn names_accept(header: Seq<char>) -> bool {
    "accept:"@.is_prefix_of(header)
}

/// Whether a token is an `Accept` header by itself.
pub open spec fn is_accept_token(token: Seq<char>) -> bool {
    names_accept(lowercase(token))
}

/// Whether a token is an `Accept` header as the value of `-H`.
pub open spec fn is_accept_value(token: Seq<char>) -> bool {
    names_accept(trim_start(lowercase(token)))
}

/// Whether `args[i]` signals an `Accept` header, by itself or as the value of
/// a `-H` before it.
pub open spec fn signals_accept_at(args: Seq<Seq<char>>, i: int) -> bool {
    &&& 0 <= i < args.len()
    &&& {
        ||| is_accept_token(args[i])
        ||| (i > 0 && args[i - 1] == "-H"@ && is_accept_value(args[i]))
    }
}

/// Whether any of `args` signals an `Accept` header.
pub open spec fn signals_accept(args: Seq<Seq<char>>) -> bool {
    exists|i: int| signals_accept_at(args, i)
}

/// Looks at one token, given in lowercase: is it an `Accept` header, where
/// `after_header_flag` says whether the token before it is `-H`?
pub fn lowered_token_signals_accept(lowered: &str, after_header_flag: bool) -> (signals: bool)
    ensures
        signals == (names_accept(lowered@) || (after_header_flag && names_accept(
            trim_start(lowered@),
        ))),
{
    let name = chars_of("accept:");
    let chars = chars_of(lowered);
    if starts_with(chars.as_slice(), name.as_slice()) {
        return true;
    }
    if !after_header_flag {
        return false;
    }
    let start = skip_whitespace(chars.as_slice());
    starts_with(slice_subrange(chars.as_slice(), start, chars.len()), name.as_slice())
}

/// Whether the command line already names an `Accept` header.
pub fn has_accept_header(args: &[String]) -> (found: bool)
    ensures
        found == signals_accept(args.deep_view()),
{
    let ghost tokens = args.deep_view();
    let header_flag: String = "-H".to_owned();
    let mut i: usize = 0;
    while i < args.len()
        invariant
            i <= args.len(),
            tokens == args.deep_view(),
            header_flag@ == "-H"@,
            forall|j: int| 0 <= j < i ==> !signals_accept_at(tokens, j),
        decreases args.len() - i,
    {
        let after_header_flag = i > 0 && args[i - 1] == header_flag;
        let lowered = args[i].as_str().to_lowercase();
        if lowered_token_signals_accept(lowered.as_str(), after_header_flag) {
            assert(signals_accept_at(tokens, i as int));
            return true;
        }
        assert(!signals_accept_at(tokens, i as int));
        i += 1;
    }
    false
}

} // verus!
