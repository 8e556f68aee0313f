//! Hostnames of the URLs on a command line.
//!
//! A token is taken for a URL when it does not begin with `-` and holds
//! `://`. Such a token is handed to the `url` crate; where that finds a host,
//! the host in lowercase is a hostname of the command line. Tokens that do not
//! parse are passed over in silence. The hostnames keep the order of their
//! tokens, and a host that is named twice is listed twice.

use crate::text::{
    chars_of, contains_scheme_separator, has_scheme_separator, is_flag_like, lowercase,
    starts_with_dash,
};
use vstd::prelude::*;

verus! {

/// The host of `token` read as an absolute URL, as `Url::parse` and
/// `Url::host_str` of the `url` crate give it: `None` where the token is
/// not a URL or the URL has no host.
pub uninterp spec fn url_host(token: Seq<char>) -> Option<Seq<char>>;

/// Parses `token` with `url::Url::parse` and reads the host with
/// `Url::host_str`, which yields the host as it stands in the URL's
/// serialization. Both are functions of the token alone; a token that does
/// not parse has no host.
#[verifier::external_body]
fn parse_url_host(token: &str) -> (host: Option<String>)
    ensures
        url_host(token@) == match host {
            Some(name) => Some(name@),
            None => None,
        },
{
    match url::Url::parse(token) {
        Ok(url) => url.host_str().map(str::to_owned),
        Err(_) => None,
    }
}

/// Whether a token is handed to the URL parser at all.
pub open spec fn is_url_candidate(token: Seq<char>) -> bool {
    !is_flag_like(token) && has_scheme_separator(token)
}

/// The hostname that a single token contributes, if any.
pub open spec fn token_hostname(token: Seq<char>) -> Option<Seq<char>> {
    if is_url_candidate(token) {
        match url_host(token) {
            Some(host) => Some(lowercase(host)),
            None => None,
        }
    } else {
        None
    }
}

/// [`token_hostname`] as a function value.
pub open spec fn hostname_fn() -> spec_fn(Seq<char>) -> Option<Seq<char>> {
    |token: Seq<char>| token_hostname(token)
}

/// The hostnames of a command line: what each token contributes, in the
/// order of the tokens.
pub open spec fn hostnames_of(args: Seq<Seq<char>>) -> Seq<Seq<char>> {
    args.filter_map(hostname_fn())
}

/// Whether `token` is handed to the URL parser: it does not begin with `-`
/// and holds `://`.
pub fn looks_like_url(token: &str) -> (candidate: bool)
    ensures
        candidate == is_url_candidate(token@),
{
    let chars = chars_of(token);
    !starts_with_dash(chars.as_slice()) && contains_scheme_separator(chars.as_slice())
}

/// The hostname that `token` contributes, if any.
pub fn hostname_of_token(token: &str) -> (hostname: Option<String>)
    ensures
        token_hostname(token@) == match hostname {
            Some(name) => Some(name@),
            None => None,
        },
{
    if !looks_like_url(token) {
        return None;
    }
    match parse_url_host(token) {
        Some(host) => Some(host.as_str().to_lowercase()),
        None => None,
    }
}

/// The hostnames of the URLs among `args`, in lowercase and in the order of
/// the arguments.
pub fn extract_hostnames(args: &[String]) -> (hostnames: Vec<String>)
    ensures
        hostnames.deep_view() == hostnames_of(args.deep_view()),
{
    let ghost tokens = args.deep_view();
    let mut hostnames: Vec<String> = Vec::new();
    assert(hostnames.deep_view() =~= tokens.take(0).filter_map(hostname_fn()));
    let mut i: usize = 0;
    while i < args.len()
        invariant
            i <= args.len(),
            tokens == args.deep_view(),
            hostnames.deep_view() == tokens.take(i as int).filter_map(hostname_fn()),
        decreases args.len() - i,
    {
        let ghost before = hostnames.deep_view();
        proof {
            tokens.lemma_filter_map_take_succ(hostname_fn(), i as int);
        }
        match hostname_of_token(args[i].as_str()) {
            Some(name) => {
                let ghost host = name@;
                hostnames.push(name);
                assert(hostnames.deep_view() =~= before + seq![host]);
            },
            None => {},
        }
        i += 1;
    }
    assert(tokens.take(i as int) == tokens);
    hostnames
}

/// Flag-like tokens are passed over: a token that begins with `-`
/// contributes no hostname, whatever else it holds.
pub proof fn lemma_flag_like_token_has_no_hostname(token: Seq<char>)
    requires
        is_flag_like(token),
    ensures
        token_hostname(token) is None,
{
}

/// The test for tokens that do not begin with `-`, as a function value.
pub open spec fn not_flag_like_fn() -> spec_fn(Seq<char>) -> bool {
    |token: Seq<char>| !is_flag_like(token)
}

/// The hostnames of a command line are those of its tokens that are not
/// flag-like: flag-like tokens can be taken out without changing them, even
/// where such a token holds `://`.
pub proof fn lemma_flag_like_tokens_are_ignored(args: Seq<Seq<char>>)
    ensures
        hostnames_of(args) == hostnames_of(args.filter(not_flag_like_fn())),
    decreases args.len(),
{
    reveal(Seq::filter);
    if args.len() > 0 {
        let front = args.drop_last();
        let token = args.last();
        lemma_flag_like_tokens_are_ignored(front);
        if !is_flag_like(token) {
            let kept = front.filter(not_flag_like_fn());
            assert(kept.push(token).drop_last() == kept);
        }
    }
}

} // verus!
