//! Decisions taken once, before the first report: which monitor the command
//! line asks for, and whether the compositor knows it.

use vstd::prelude::*;
use crate::model::{Monitor, MonitorView, monitor_views};
use crate::printer::is_wildcard;
use crate::report::string_views;
use crate::resolve::{find_monitor, monitor_position};

verus! {

/// Whether the command line asks for the usage text: anything but exactly
/// one argument after the program name, or `-h` or `--help` as that argument.
pub open spec fn wants_usage(args: Seq<Seq<char>>) -> bool {
    args.len() != 2 || args[1] == "-h"@ || args[1] == "--help"@
}

/// Whether `target` can be reported on: it is the wildcard, or a monitor of
/// the snapshot carries that name.
pub open spec fn target_accepted(target: Seq<char>, ms: Seq<MonitorView>) -> bool {
    is_wildcard(target) || monitor_position(ms, target) is Some
}

/// The line shown for a target that no monitor carries.
pub open spec fn unknown_monitor_text(target: Seq<char>) -> Seq<char> {
    "Unable to find monitor "@ + target
}

/// The target named on the command line, or `None` where the usage text is
/// to be shown instead. `args` starts with the program name.
pub fn requested_monitor(args: &Vec<String>) -> (target: Option<String>)
    ensures
        match target {
            Some(t) => !wants_usage(string_views(args@)) && t@ == args@[1]@,
            None => wants_usage(string_views(args@)),
        },
{
    if args.len() != 2 {
        return None;
    }
    let short = String::from_str("-h");
    let long = String::from_str("--help");
    if args[1] == short || args[1] == long {
        None
    } else {
        Some(args[1].clone())
    }
}

/// Checks a target against the live monitors. A name that is neither the
/// wildcard nor carried by a monitor is rejected.
pub fn accepts_target(target: &String, monitors: &Vec<Monitor>) -> (accepted: bool)
    ensures
        accepted == target_accepted(target@, monitor_views(monitors@)),
{
    let wildcard = String::from_str("_");
    if *target == wildcard {
        true
    } else {
        find_monitor(monitors, target).is_some()
    }
}

/// The line shown when `target` was rejected.
pub fn unknown_monitor_message(target: &str) -> (text: String)
    ensures
        text@ == unknown_monitor_text(target@),
{
    let mut text = String::from_str("Unable to find monitor ");
    text.append(target);
    text
}

} // verus!
