//! What the command line asks for: a magnet link, or a list of results
//! shown as a table or as plain lines.
use vstd::prelude::*;
use crate::search::SearchError;
use crate::text::{trim, trimmed, unsigned_value};
use crate::trusted::{parse_u32, parse_usize};

verus! {

/// What a run of the command line does.
pub enum CliPlan {
    /// Print the magnet link of the first torrent found for this name.
    Magnet(String),
    /// Search, and print at most `number` results of page `page` (the first
    /// where none is given), as plain lines where `ugly`, else as a table.
    Search { query: String, page: Option<u32>, number: usize, ugly: bool },
}

/// The number a command-line value gives, once trimmed, where it fits `max`.
pub open spec fn option_number(v: Seq<char>, max: nat) -> Option<nat> {
    match unsigned_value(trimmed(v)) {
        Some(n) => if n <= max { Some(n) } else { None },
        None => None,
    }
}

/// A value is given and is not a number up to `max`.
pub open spec fn unreadable(v: Option<&str>, max: nat) -> bool {
    match v {
        Some(t) => option_number(t@, max) is None,
        None => false,
    }
}

/// The plan for a run with the given search term, `--page` and `--number`
/// values, `-u` and `-m` flags, and whether standard output is a terminal.
/// The page is read first, then the number (ten where none is given); a
/// value that is not a number fails the run with `ParseError`. Output is
/// plain where `-u` is given or standard output is not a terminal.
pub fn plan(
    search: &str,
    page: Option<&str>,
    number: Option<&str>,
    ugly_flag: bool,
    stdout_is_tty: bool,
    magnet: bool,
) -> (r: Result<CliPlan, SearchError>)
    ensures
        unreadable(page, u32::MAX as nat) ==> r is Err && r->Err_0 is ParseError,
        unreadable(number, usize::MAX as nat) ==> r is Err && r->Err_0 is ParseError,
        r matches Ok(CliPlan::Magnet(name)) ==> magnet && name@ == search@,
        r matches Ok(CliPlan::Search { query, page: pg, number: num, ugly }) ==> {
            &&& !magnet
            &&& query@ == search@
            &&& (page matches Some(p) ==> pg matches Some(x) && option_number(p@, u32::MAX as nat) == Some(x as nat))
            &&& (page is None ==> pg is None)
            &&& (number matches Some(n) ==> option_number(n@, usize::MAX as nat) == Some(num as nat))
            &&& (number is None ==> num == 10)
            &&& ugly == (!stdout_is_tty || ugly_flag)
        },
        r is Err ==> unreadable(page, u32::MAX as nat) || unreadable(number, usize::MAX as nat),
{
    let mut pg: Option<u32> = None;
    if let Some(p) = page {
        match parse_u32(trim(p).as_str()) {
            Ok(v) => { pg = Some(v); },
            Err(e) => { return Err(SearchError::ParseError(e)); },
        }
    }
    let ugly = !stdout_is_tty || ugly_flag;
    let mut num: usize = 10;
    if let Some(n) = number {
        match parse_usize(trim(n).as_str()) {
            Ok(v) => { num = v; },
            Err(e) => { return Err(SearchError::ParseError(e)); },
        }
    }
    if magnet {
        Ok(CliPlan::Magnet(search.to_owned()))
    } else {
        Ok(CliPlan::Search { query: search.to_owned(), page: pg, number: num, ugly })
    }
}

} // verus!
