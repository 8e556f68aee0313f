//! The rewrite of a command line.
//!
//! What is injected stands in front of the given arguments, in a fixed
//! order: the options of the first host that has any, the `Authorization`
//! header of the first host that has an auth key, the default `Accept` header
//! unless the command line names one, and the tracing headers where `--trace`
//! was given. The given arguments follow in their own order, without
//! `--trace`. Nothing here can fail: where the configuration has nothing for a
//! concern, nothing is injected for it.

use crate::accept::{has_accept_header, signals_accept};
use crate::config::{Config, ConfigView};
use crate::hostname::{extract_hostnames, hostnames_of};
use crate::resolve::{find_for_hostname, resolve_auth, resolve_auth_secret, resolve_first};
use crate::tokens::{append_tokens, contains_token, without, without_token};
use crate::trace::{trace_headers, TraceStamp, TraceStampView};
use vstd::prelude::*;

verus! {

/// The flag that asks for the tracing headers.
pub open spec fn trace_flag() -> Seq<char> {
    "--trace"@
}

/// The options of the first hostname that has any.
pub open spec fn host_option_args(config: ConfigView, hostnames: Seq<Seq<char>>) -> Seq<Seq<char>> {
    match resolve_first(hostnames, config.opts.hosts) {
        Some(options) => options,
        None => Seq::empty(),
    }
}

/// The `Authorization` header with the secret of the first hostname that has
/// an auth key.
pub open spec fn auth_args(config: ConfigView, hostnames: Seq<Seq<char>>) -> Seq<Seq<char>> {
    match resolve_auth_secret(hostnames, config.auth.hosts, config.auth.keys) {
        Some(secret) => seq!["-H"@, "Authorization: "@ + secret],
        None => Seq::empty(),
    }
}

/// The default `Accept` header, unless one is present already.
pub open spec fn accept_args(config: ConfigView, accept_present: bool) -> Seq<Seq<char>> {
    if accept_present {
        Seq::empty()
    } else {
        seq!["-H"@, "Accept: "@ + config.opts.default_accept]
    }
}

/// The tracing headers, where tracing is asked for.
pub open spec fn trace_args(trace: Option<TraceStampView>) -> Seq<Seq<char>> {
    match trace {
        Some(stamp) => trace_headers(stamp),
        None => Seq::empty(),
    }
}

/// Everything that is injected, in its order: host options, authorization,
/// `Accept`, tracing.
pub open spec fn extra_args(
    config: ConfigView,
    hostnames: Seq<Seq<char>>,
    accept_present: bool,
    trace: Option<TraceStampView>,
) -> Seq<Seq<char>> {
    host_option_args(config, hostnames) + auth_args(config, hostnames) + accept_args(
        config,
        accept_present,
    ) + trace_args(trace)
}

/// The stamp that a command line is traced with: `stamp` where `--trace` is
/// among the arguments, and none otherwise.
pub open spec fn trace_of(args: Seq<Seq<char>>, stamp: TraceStampView) -> Option<TraceStampView> {
    if args.contains(trace_flag()) {
        Some(stamp)
    } else {
        None
    }
}

/// What is injected in front of the command line `args`.
pub open spec fn injected(config: ConfigView, args: Seq<Seq<char>>, stamp: TraceStampView) -> Seq<
    Seq<char>,
> {
    extra_args(config, hostnames_of(args), signals_accept(args), trace_of(args, stamp))
}

/// What is kept of the command line `args`: all of it but `--trace`.
pub open spec fn forwarded(args: Seq<Seq<char>>) -> Seq<Seq<char>> {
    without(args, trace_flag())
}

/// The final argument list for the command line `args`.
pub open spec fn rewritten(config: ConfigView, args: Seq<Seq<char>>, stamp: TraceStampView) -> Seq<
    Seq<char>,
> {
    injected(config, args, stamp) + forwarded(args)
}

/// A command line after the rewrite, in its two parts.
pub struct Rewritten {
    /// What was injected.
    pub extra: Vec<String>,
    /// What was kept of the given arguments.
    pub forwarded: Vec<String>,
}

impl Rewritten {
    /// The final argument list: what was injected, then what was kept.
    pub open spec fn final_args(&self) -> Seq<Seq<char>> {
        self.extra.deep_view() + self.forwarded.deep_view()
    }

    /// The final argument list.
    pub fn into_args(self) -> (args: Vec<String>)
        ensures
            args.deep_view() == self.final_args(),
    {
        let mut args = self.extra;
        append_tokens(&mut args, self.forwarded.as_slice());
        args
    }
}

/// The view of an optional stamp.
pub open spec fn stamp_view(trace: Option<&TraceStamp>) -> Option<TraceStampView> {
    match trace {
        Some(stamp) => Some(stamp@),
        None => None,
    }
}

/// Builds what is injected for the given hostnames, where `accept_present`
/// says whether the command line names an `Accept` header and `trace` holds
/// the stamp of a traced request.
pub fn build_extra_args(
    config: &Config,
    hostnames: &[String],
    accept_present: bool,
    trace: Option<&TraceStamp>,
) -> (extra: Vec<String>)
    ensures
        extra.deep_view() == extra_args(
            config@,
            hostnames.deep_view(),
            accept_present,
            stamp_view(trace),
        ),
{
    let ghost names = hostnames.deep_view();
    let mut extra: Vec<String> = Vec::new();
    assert(extra.deep_view() =~= Seq::<Seq<char>>::empty());

    let hosts = config.opts.hosts();
    proof {
        crate::resolve::lemma_resolve_first_map_values(
            names,
            hosts@,
            |value: Vec<String>| value.deep_view(),
        );
    }
    match find_for_hostname(hostnames, hosts) {
        Some(options) => {
            append_tokens(&mut extra, options.as_slice());
        },
        None => {},
    }
    assert(extra.deep_view() =~= host_option_args(config@, names));

    match resolve_auth(hostnames, config.auth.hosts(), config.auth.keys()) {
        Some(secret) => {
            let ghost before = extra.deep_view();
            let mut header: String = "Authorization: ".to_owned();
            header.append(secret.as_str());
            extra.push("-H".to_owned());
            extra.push(header);
            assert(extra.deep_view() =~= before + auth_args(config@, names));
        },
        None => {},
    }
    assert(extra.deep_view() =~= host_option_args(config@, names) + auth_args(config@, names));

    if !accept_present {
        let ghost before = extra.deep_view();
        let mut header: String = "Accept: ".to_owned();
        header.append(config.opts.default_accept().as_str());
        extra.push("-H".to_owned());
        extra.push(header);
        assert(extra.deep_view() =~= before + accept_args(config@, accept_present));
    }
    assert(extra.deep_view() =~= host_option_args(config@, names) + auth_args(config@, names)
        + accept_args(config@, accept_present));

    match trace {
        Some(stamp) => {
            stamp.push_headers(&mut extra);
        },
        None => {},
    }
    extra
}

fn rewrite_traced(config: &Config, args: &[String], trace: Option<&TraceStamp>) -> (out: Rewritten)
    ensures
        out.extra.deep_view() == extra_args(
            config@,
            hostnames_of(args.deep_view()),
            signals_accept(args.deep_view()),
            stamp_view(trace),
        ),
        out.forwarded.deep_view() == forwarded(args.deep_view()),
{
    let hostnames = extract_hostnames(args);
    let accept_present = has_accept_header(args);
    let extra = build_extra_args(config, hostnames.as_slice(), accept_present, trace);
    let forwarded = without_token(args, "--trace");
    Rewritten { extra, forwarded }
}

/// Rewrites the command line `args` under `config`. The stamp is used where
/// `--trace` is among the arguments, and only there.
pub fn rewrite(config: &Config, args: &[String], stamp: &TraceStamp) -> (out: Rewritten)
    ensures
        out.extra.deep_view() == injected(config@, args.deep_view(), stamp@),
        out.forwarded.deep_view() == forwarded(args.deep_view()),
        out.final_args() == rewritten(config@, args.deep_view(), stamp@),
{
    if contains_token(args, "--trace") {
        rewrite_traced(config, args, Some(stamp))
    } else {
        rewrite_traced(config, args, None)
    }
}

/// Rewrites the command line `args` under `config`, and stamps a traced
/// request with the account and the local time of this process. The account
/// and the clock are read where `--trace` is among the arguments, and only
/// there; without `--trace` the result is that of [`rewrite`] with any stamp.
///
/// # Panics
///
/// Where `--trace` is given and the system clock stands before 1970, as
/// [`TraceStamp::now`] does.
pub fn rewrite_now(config: &Config, args: &[String]) -> (out: Rewritten)
    ensures
        out.forwarded.deep_view() == forwarded(args.deep_view()),
        args.deep_view().contains(trace_flag()) ==> exists|stamp: TraceStampView|
            stamp.is_time_of_day() && out.extra.deep_view() == #[trigger] injected(
                config@,
                args.deep_view(),
                stamp,
            ),
        !args.deep_view().contains(trace_flag()) ==> forall|stamp: TraceStampView|
            out.extra.deep_view() == #[trigger] injected(config@, args.deep_view(), stamp),
{
    if contains_token(args, "--trace") {
        let stamp = TraceStamp::now();
        let out = rewrite_traced(config, args, Some(&stamp));
        assert(out.extra.deep_view() == injected(config@, args.deep_view(), stamp@));
        out
    } else {
        rewrite_traced(config, args, None)
    }
}

/// A command line that names an `Accept` header gets no second one from the
/// configuration: no `Accept` header is injected, and what is injected is
/// the same whatever the default `Accept` value is.
pub proof fn lemma_accept_is_not_repeated(
    config: ConfigView,
    other: ConfigView,
    args: Seq<Seq<char>>,
    stamp: TraceStampView,
)
    requires
        signals_accept(args),
        other.opts.hosts == config.opts.hosts,
        other.auth == config.auth,
    ensures
        accept_args(config, signals_accept(args)) == Seq::<Seq<char>>::empty(),
        injected(config, args, stamp) == host_option_args(config, hostnames_of(args)) + auth_args(
            config,
            hostnames_of(args),
        ) + trace_args(trace_of(args, stamp)),
        injected(other, args, stamp) == injected(config, args, stamp),
        rewritten(other, args, stamp) == rewritten(config, args, stamp),
{
}

/// A command line that names no `Accept` header gets the default one, as the
/// pair `-H`, `Accept: ` and the default value, after the host options and
/// the `Authorization` header and before the tracing headers.
pub proof fn lemma_accept_default_is_injected(
    config: ConfigView,
    args: Seq<Seq<char>>,
    stamp: TraceStampView,
)
    requires
        !signals_accept(args),
    ensures
        injected(config, args, stamp) == host_option_args(config, hostnames_of(args)) + auth_args(
            config,
            hostnames_of(args),
        ) + seq!["-H"@, "Accept: "@ + config.opts.default_accept] + trace_args(
            trace_of(args, stamp),
        ),
{
}

/// `--trace` is expanded: none of its occurrences is kept among the given
/// arguments, every other argument is kept, and what is injected ends with
/// exactly two header pairs, `X-Trace-Verbose` first and `X-Correlation-ID`
/// second.
pub proof fn lemma_trace_is_expanded(
    config: ConfigView,
    args: Seq<Seq<char>>,
    stamp: TraceStampView,
)
    requires
        args.contains(trace_flag()),
    ensures
        !forwarded(args).contains(trace_flag()),
        forall|other: Seq<char>|
            other != trace_flag() ==> (#[trigger] forwarded(args).contains(other)
                <==> args.contains(other)),
        injected(config, args, stamp) == extra_args(
            config,
            hostnames_of(args),
            signals_accept(args),
            None,
        ) + trace_headers(stamp),
        trace_headers(stamp).len() == 4,
        trace_headers(stamp)[0] == "-H"@,
        trace_headers(stamp)[1] == "X-Trace-Verbose: true"@,
        trace_headers(stamp)[2] == "-H"@,
        trace_headers(stamp)[3] == "X-Correlation-ID: "@ + crate::trace::correlation_id(stamp),
{
    crate::tokens::lemma_without_leaves_none(args, trace_flag());
    assert forall|other: Seq<char>| other != trace_flag() implies (#[trigger] forwarded(
        args,
    ).contains(other) <==> args.contains(other)) by {
        crate::tokens::lemma_without_keeps_others(args, trace_flag(), other);
    }
    assert(extra_args(config, hostnames_of(args), signals_accept(args), None) + trace_headers(
        stamp,
    ) =~= injected(config, args, stamp));
}

/// Without `--trace` the given arguments are kept as they are, no
/// tracing header is injected, and the stamp plays no part.
pub proof fn lemma_untraced_is_kept(
    config: ConfigView,
    args: Seq<Seq<char>>,
    stamp: TraceStampView,
    other: TraceStampView,
)
    requires
        !args.contains(trace_flag()),
    ensures
        forwarded(args) == args,
        trace_args(trace_of(args, stamp)) == Seq::<Seq<char>>::empty(),
        rewritten(config, args, stamp) == rewritten(config, args, other),
{
    crate::tokens::lemma_without_absent(args, trace_flag());
}

} // verus!
