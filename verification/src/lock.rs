//! The single-instance lock: the lock file holds the process id of the
//! instance that runs.
use vstd::prelude::*;
use crate::text::{decimal, decimal_string, join2, parse_u32, parse_u32_spec, trim, trimmed};

verus! {

/// The name of the lock file in the runtime directory.
pub const LOCK_FILE_NAME: &'static str = "voclip.pid";

/// The process id that a lock file's content names, if it names one: the
/// content without surrounding whitespace, read as a decimal `u32`.
pub fn parse_pid(content: &str) -> (res: Option<u32>)
    ensures
        res == parse_u32_spec(trimmed(content@)),
{
    parse_u32(trim(content))
}

/// The `/proc` entry of a process, which exists while the process runs.
pub fn proc_path(pid: u32) -> (res: String)
    ensures
        res@ == "/proc/"@ + decimal(pid as nat),
{
    let digits = decimal_string(pid as u64);
    join2("/proc/", digits.as_str())
}

} // verus!
