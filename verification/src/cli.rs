//! The command-line programs: the log filter of the server program and
//! the messages of the maintenance program.

use vstd::prelude::*;
use crate::text::join2;

verus! {

/// The log filter for level `l`: the level applies to each of the
/// application's crates.
pub open spec fn log_filter_for(l: Seq<char>) -> Seq<char> {
    "evento="@ + l + ",pikav_client="@ + l + ",starter_app="@ + l + ",starter_api="@ + l
        + ",timada_starter_feed="@ + l
}

/// The log filter of the server program, for the level given with `--log`
/// or else `error`.
pub fn log_filter(level: Option<String>) -> (res: String)
    ensures
        res@ == log_filter_for(match level {
            Some(l) => l@,
            None => "error"@,
        }),
{
    let l = match level {
        Some(l) => l,
        None => "error".to_owned(),
    };
    let s1 = join2("evento=", l.as_str());
    let s2 = s1.concat(",pikav_client=").concat(l.as_str());
    let s3 = s2.concat(",starter_app=").concat(l.as_str());
    let s4 = s3.concat(",starter_api=").concat(l.as_str());
    let s5 = s4.concat(",timada_starter_feed=").concat(l.as_str());
    s5
}

/// What the maintenance program prints for a subcommand: `migrate` and
/// `reset` each announce their work; there is nothing for other names.
pub fn maintenance_message(subcommand: &str) -> (res: Option<&'static str>)
    ensures
        subcommand@ == "migrate"@ ==> (res matches Some(m) && m@ == "Migration database...."@),
        subcommand@ == "reset"@ ==> (res matches Some(m) && m@ == "Reset database..."@),
        subcommand@ != "migrate"@ && subcommand@ != "reset"@ ==> res is None,
{
    proof {
        reveal_strlit("migrate");
        reveal_strlit("reset");
        assert("migrate"@.len() != "reset"@.len());
    }
    if crate::text::str_eq(subcommand, "migrate") {
        Some("Migration database....")
    } else if crate::text::str_eq(subcommand, "reset") {
        Some("Reset database...")
    } else {
        None
    }
}

} // verus!
