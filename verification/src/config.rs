//! Search configuration and the search front door.
//!
//! [`Config::new`] turns a full argument list plus the environment-derived
//! default flags into a [`Config`], rejecting malformed input.
//! [`run_search`] performs the configured search on already-read document
//! text and returns the output lines: either the matching lines themselves
//! or their count in decimal.  Reading the file, the environment and the
//! command line, and printing, are the callers' business.

use vstd::prelude::*;

use crate::chars::str_eq;
use crate::digits::dec_digits;
use crate::search::count;
use crate::search::matching_lines;
use crate::search::matching_lines_ci;
use crate::search::search;
use crate::search::search_case_insensitive;
use vstd::string::StringExecFns;

verus! {

/// One search request: what to look for, where, and how.
pub struct Config {
    /// The query string.
    pub query: String,
    /// The path of the document to search, kept for the caller's use.
    pub file_path: String,
    /// Compare query and lines after ASCII-lower-casing both.
    pub ignore_case: bool,
    /// The caller wants chatty output.
    pub verbose: bool,
    /// Print only the number of matching lines.
    pub count: bool,
}

/// The argument selects case-insensitive matching.
pub open spec fn is_ignore_case_flag(s: Seq<char>) -> bool {
    s == "-i"@ || s == "--ignore-case"@
}

/// The argument selects verbose output.
pub open spec fn is_verbose_flag(s: Seq<char>) -> bool {
    s == "-v"@ || s == "--verbose"@
}

/// The argument selects count-only output.
pub open spec fn is_count_flag(s: Seq<char>) -> bool {
    s == "-c"@ || s == "--count"@
}

/// The argument is one of the recognized option flags.
pub open spec fn is_known_flag(s: Seq<char>) -> bool {
    is_ignore_case_flag(s) || is_verbose_flag(s) || is_count_flag(s)
}

impl Config {
    /// Builds a configuration from the full argument list (program name
    /// first, then options, then the query, then the file path) and the
    /// three flag defaults drawn from the environment.  Fewer than three
    /// arguments, or an unrecognized option, are rejected.
    pub fn new(args: Vec<String>, ignore_case: bool, verbose: bool, count: bool) -> (r: Result<
        Config,
        &'static str,
    >)
        ensures
            args@.len() < 3 ==> (r matches Err(e) && e@ == "not enough arguments provided"@),
            args@.len() >= 3 && (exists|i: int|
                1 <= i < args@.len() - 2 && !is_known_flag(#[trigger] args@[i]@)) ==> (r matches Err(
                e,
            ) && e@ == "unrecognized argument"@),
            args@.len() >= 3 && (forall|i: int|
                1 <= i < args@.len() - 2 ==> is_known_flag(#[trigger] args@[i]@)) ==> (r matches Ok(
                cfg,
            ) && {
                &&& cfg.query@ == args@[args@.len() - 2]@
                &&& cfg.file_path@ == args@[args@.len() - 1]@
                &&& cfg.ignore_case == (ignore_case || exists|i: int|
                    1 <= i < args@.len() - 2 && is_ignore_case_flag(#[trigger] args@[i]@))
                &&& cfg.verbose == (verbose || exists|i: int|
                    1 <= i < args@.len() - 2 && is_verbose_flag(#[trigger] args@[i]@))
                &&& cfg.count == (count || exists|i: int|
                    1 <= i < args@.len() - 2 && is_count_flag(#[trigger] args@[i]@))
            }),
    {
        let len = args.len();
        if len < 3 {
            return Err("not enough arguments provided");
        }
        let mut ic = ignore_case;
        let mut vb = verbose;
        let mut ct = count;
        let mut i: usize = 1;
        while i < len - 2
            invariant
                3 <= len == args@.len(),
                1 <= i <= len - 2,
                forall|k: int| 1 <= k < i ==> is_known_flag(#[trigger] args@[k]@),
                ic == (ignore_case || exists|k: int|
                    1 <= k < i && is_ignore_case_flag(#[trigger] args@[k]@)),
                vb == (verbose || exists|k: int|
                    1 <= k < i && is_verbose_flag(#[trigger] args@[k]@)),
                ct == (count || exists|k: int|
                    1 <= k < i && is_count_flag(#[trigger] args@[k]@)),
            decreases len - 2 - i,
        {
            proof {
                reveal_strlit("-i");
                reveal_strlit("--ignore-case");
                reveal_strlit("-v");
                reveal_strlit("--verbose");
                reveal_strlit("-c");
                reveal_strlit("--count");
                assert("-i"@.len() == 2 && "-v"@.len() == 2 && "-c"@.len() == 2);
                assert("--ignore-case"@.len() == 13 && "--verbose"@.len() == 9 && "--count"@.len()
                    == 7);
                assert("-i"@[1] == 'i' && "-v"@[1] == 'v' && "-c"@[1] == 'c');
            }
            let a: &str = args[i].as_str();
            if str_eq(a, "-i") || str_eq(a, "--ignore-case") {
                ic = true;
            } else if str_eq(a, "-v") || str_eq(a, "--verbose") {
                vb = true;
            } else if str_eq(a, "-c") || str_eq(a, "--count") {
                ct = true;
            } else {
                assert(!is_known_flag(args@[i as int]@));
                return Err("unrecognized argument");
            }
            i = i + 1;
        }
        let query = args[len - 2].clone();
        let file_path = args[len - 1].clone();
        Ok(Config { query, file_path, ignore_case: ic, verbose: vb, count: ct })
    }
}

/// The matching lines of `contents` under the configured case policy.
pub open spec fn spec_results(cfg: Config, contents: Seq<char>) -> Seq<Seq<char>> {
    if cfg.ignore_case {
        matching_lines_ci(cfg.query@, contents)
    } else {
        matching_lines(cfg.query@, contents)
    }
}

/// Runs the configured search over already-read document text.  The result
/// is what the caller should print, one string per line: the matching lines
/// in document order, or, with `count` set, a single decimal count.
pub fn run_search(config: &Config, contents: &str) -> (out: Vec<String>)
    ensures
        config.count ==> out@.len() == 1 && out@[0]@ == dec_digits(
            spec_results(*config, contents@).len() as nat,
        ),
        !config.count ==> out.deep_view() == spec_results(*config, contents@),
{
    let results = if config.ignore_case {
        search_case_insensitive(config.query.as_str(), contents)
    } else {
        search(config.query.as_str(), contents)
    };
    proof {
        assert(results.deep_view() == spec_results(*config, contents@));
        assert(results@.len() == results.deep_view().len());
    }
    if config.count {
        let mut out: Vec<String> = Vec::new();
        out.push(count(&results));
        out
    } else {
        let mut out: Vec<String> = Vec::new();
        let mut i: usize = 0;
        while i < results.len()
            invariant
                i <= results@.len(),
                out@.len() == i,
                forall|k: int| 0 <= k < i ==> out@[k]@ == #[trigger] results@[k]@,
            decreases results@.len() - i,
        {
            let piece: &str = results[i];
            let owned = String::from_str(piece);
            out.push(owned);
            i = i + 1;
        }
        proof {
            assert forall|k: int| 0 <= k < results@.len() implies out.deep_view()[k]
                == results.deep_view()[k] by {
                assert(out@[k]@ == results@[k]@);
            }
            assert(out.deep_view() =~~= results.deep_view());
        }
        out
    }
}

} // verus!
