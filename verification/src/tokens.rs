//! Argument lists as sequences of tokens: searching for a token and taking
//! every occurrence of a token out.

use vstd::prelude::*;

verus! {

/// The test for tokens other than `token`, as a function value.
pub open spec fn is_not(token: Seq<char>) -> spec_fn(Seq<char>) -> bool {
    |other: Seq<char>| other != token
}

/// `args` without any occurrence of `token`; what stays keeps its order.
pub open spec fn without(args: Seq<Seq<char>>, token: Seq<char>) -> Seq<Seq<char>> {
    args.filter(is_not(token))
}

/// Nothing is left of a token that was taken out.
pub proof fn lemma_without_leaves_none(args: Seq<Seq<char>>, token: Seq<char>)
    ensures
        !without(args, token).contains(token),
{
    let kept = without(args, token);
    if kept.contains(token) {
        let i = choose|i: int| 0 <= i < kept.len() && kept[i] == token;
        args.lemma_filter_pred(is_not(token), i);
    }
}

/// Every token other than the one taken out is still there.
pub proof fn lemma_without_keeps_others(args: Seq<Seq<char>>, token: Seq<char>, other: Seq<char>)
    requires
        other != token,
    ensures
        without(args, token).contains(other) <==> args.contains(other),
{
    if args.contains(other) {
        let i = choose|i: int| 0 <= i < args.len() && args[i] == other;
        args.lemma_filter_contains(is_not(token), i);
    }
    if without(args, token).contains(other) {
        args.lemma_filter_contains_rev(is_not(token), other);
    }
}

/// Taking out a token that does not occur changes nothing.
pub proof fn lemma_without_absent(args: Seq<Seq<char>>, token: Seq<char>)
    requires
        !args.contains(token),
    ensures
        without(args, token) == args,
    decreases args.len(),
{
    reveal(Seq::filter);
    if args.len() > 0 {
        let front = args.drop_last();
        assert(args.last() == args[args.len() - 1]);
        assert forall|i: int| 0 <= i < front.len() implies front[i] != token by {
            assert(front[i] == args[i]);
        }
        lemma_without_absent(front, token);
        assert(front.push(args.last()) == args);
    }
}

/// Whether `token` is one of `args`.
pub fn contains_token(args: &[String], token: &str) -> (found: bool)
    ensures
        found == args.deep_view().contains(token@),
{
    let wanted: String = token.to_owned();
    let mut i: usize = 0;
    while i < args.len()
        invariant
            i <= args.len(),
            wanted@ == token@,
            forall|j: int| 0 <= j < i ==> args.deep_view()[j] != token@,
        decreases args.len() - i,
    {
        if args[i] == wanted {
            assert(args.deep_view()[i as int] == token@);
            return true;
        }
        i += 1;
    }
    false
}

/// Copies `args` without the occurrences of `token`.
pub fn without_token(args: &[String], token: &str) -> (kept: Vec<String>)
    ensures
        kept.deep_view() == without(args.deep_view(), token@),
{
    let ghost all = args.deep_view();
    let wanted: String = token.to_owned();
    let mut kept: Vec<String> = Vec::new();
    proof {
        reveal(Seq::filter);
        assert(kept.deep_view() =~= without(all.take(0), token@));
    }
    let mut i: usize = 0;
    while i < args.len()
        invariant
            i <= args.len(),
            all == args.deep_view(),
            wanted@ == token@,
            kept.deep_view() == without(all.take(i as int), token@),
        decreases args.len() - i,
    {
        let ghost before = kept.deep_view();
        proof {
            all.take(i as int).lemma_filter_push(all[i as int], is_not(token@));
            assert(all.take(i as int).push(all[i as int]) == all.take(i + 1));
        }
        if args[i] != wanted {
            kept.push(args[i].clone());
            assert(kept.deep_view() =~= before.push(all[i as int]));
        }
        i += 1;
    }
    assert(all.take(i as int) == all);
    kept
}

/// Appends copies of `more` to `list`.
pub fn append_tokens(list: &mut Vec<String>, more: &[String])
    ensures
        final(list).deep_view() == old(list).deep_view() + more.deep_view(),
{
    let ghost start = list.deep_view();
    let mut i: usize = 0;
    assert(list.deep_view() =~= start + more.deep_view().take(0));
    while i < more.len()
        invariant
            i <= more.len(),
            list.deep_view() == start + more.deep_view().take(i as int),
        decreases more.len() - i,
    {
        let ghost before = list.deep_view();
        list.push(more[i].clone());
        assert(list.deep_view() =~= before.push(more.deep_view()[i as int]));
        assert(more.deep_view().take(i + 1) =~= more.deep_view().take(i as int).push(
            more.deep_view()[i as int],
        ));
        i += 1;
    }
    assert(more.deep_view().take(i as int) == more.deep_view());
}

} // verus!
