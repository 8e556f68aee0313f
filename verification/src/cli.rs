//! The program's own flags.
//!
//! `--help` and `-h` ask for the usage text and for nothing else.
//! `--ccurlverbose` asks for diagnostics; it is taken out of the arguments
//! before anything else looks at them, so it never reaches `curl` and has no
//! part in the rewrite.

use crate::tokens::{contains_token, without, without_token};
use vstd::prelude::*;

verus! {

/// What a command line asks of the program.
pub enum Invocation {
    /// Print the usage text and stop.
    Help,
    /// Rewrite `args` and run `curl` with the result.
    Run {
        /// Whether diagnostics are wanted.
        verbose: bool,
        /// The arguments without `--ccurlverbose`.
        args: Vec<String>,
    },
}

/// Whether the command line asks for the usage text.
pub open spec fn wants_help(args: Seq<Seq<char>>) -> bool {
    args.contains("--help"@) || args.contains("-h"@)
}

/// Whether the command line asks for diagnostics.
pub open spec fn wants_diagnostics(args: Seq<Seq<char>>) -> bool {
    args.contains("--ccurlverbose"@)
}

/// Reads the program's own flags off the command line.
pub fn parse_invocation(args: &[String]) -> (invocation: Invocation)
    ensures
        match invocation {
            Invocation::Help => wants_help(args.deep_view()),
            Invocation::Run { verbose, args: rest } => {
                &&& !wants_help(args.deep_view())
                &&& verbose == wants_diagnostics(args.deep_view())
                &&& rest.deep_view() == without(args.deep_view(), "--ccurlverbose"@)
            },
        },
{
    if contains_token(args, "--help") || contains_token(args, "-h") {
        Invocation::Help
    } else {
        let verbose = contains_token(args, "--ccurlverbose");
        let rest = without_token(args, "--ccurlverbose");
        Invocation::Run { verbose, args: rest }
    }
}

} // verus!
