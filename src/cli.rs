//! The settings that the command line gives, and the rules that turn flags into them.
use vstd::prelude::*;
use crate::logging::Level;

verus! {

/// How to switch into the target user.
#[derive(Clone, Copy, Debug, PartialEq, Eq, Structural)]
pub enum Method {
    Sudo,
    Machinectl,
    MachinectlBare,
}

/// Parsed settings.
pub struct Args {
    pub user: String,
    pub command: Vec<String>,
    pub log_level: Level,
    pub method: Option<Method>,
    pub old_xhost: bool,
}

/// The log level that `count` verbosity flags ask for.
pub open spec fn verbosity_level(count: nat) -> Level {
    if count == 0 {
        Level::Warn
    } else if count == 1 {
        Level::Info
    } else if count == 2 {
        Level::Debug
    } else {
        Level::Trace
    }
}

/// Maps the number of `-v` flags to a log level: none shows warnings, each flag one level
/// more, up to trace.
pub fn level_from_verbosity(count: u8) -> (r: Level)
    ensures
        r == verbosity_level(count as nat),
{
    if count == 0 {
        Level::Warn
    } else if count == 1 {
        Level::Info
    } else if count == 2 {
        Level::Debug
    } else {
        Level::Trace
    }
}

/// More verbosity flags never show fewer records, and three or more show all of them.
pub proof fn lemma_verbosity_monotonic(a: nat, b: nat)
    requires
        a <= b,
    ensures
        verbosity_level(a).rank() <= verbosity_level(b).rank(),
        b >= 3 ==> verbosity_level(b) == Level::Trace,
        verbosity_level(a).rank() == if a < 3 { a + 2 } else { 5 },
{
}

/// The method that the flags choose. At most one is given on a valid command line; were
/// several given, `machinectl` wins over `machinectl-bare`, which wins over `sudo`.
pub fn method_from_flags(machinectl: bool, machinectl_bare: bool, sudo: bool) -> (r: Option<
    Method,
>)
    ensures
        r == if machinectl {
            Some(Method::Machinectl)
        } else if machinectl_bare {
            Some(Method::MachinectlBare)
        } else if sudo {
            Some(Method::Sudo)
        } else {
            None
        },
{
    if machinectl {
        Some(Method::Machinectl)
    } else if machinectl_bare {
        Some(Method::MachinectlBare)
    } else if sudo {
        Some(Method::Sudo)
    } else {
        None
    }
}

} // verus!
