//! The watch loop's decisions: which file-system notifications lead to a
//! processing pass, which are only logged, and which are ignored. The
//! loop around these decisions — subscribing to notifications, queueing
//! them in arrival order, and running one pass at a time — is the
//! embedding's; everything it decides with is here.

use vstd::prelude::*;

use crate::text::str_eq;
use crate::utils::ext_of;

verus! {

/// The kind of one file-system notification, as the loop sees it.
#[derive(Debug, Clone, Copy, PartialEq, Eq, Structural)]
pub enum WatchEventKind {
    Create,
    Modify,
    Remove,
    Other,
}

/// What the loop does with one notification.
#[derive(Debug, Clone, Copy, PartialEq, Eq, Structural)]
pub enum WatchAction {
    /// Run one single-file processing pass over the path.
    ProcessFile,
    /// Note the removal; nothing is processed.
    LogRemoval,
    /// Nothing to do.
    Ignore,
}

/// Whether a path is eligible for watching: a regular file whose
/// extension is `log`, `txt`, or `secure`.
pub open spec fn watch_eligible(path: Seq<char>, is_file: bool) -> bool {
    is_file && match ext_of(path) {
        Some(e) => e == "log"@ || e == "txt"@ || e == "secure"@,
        None => false,
    }
}

/// Whether the watch loop processes a path.
pub fn should_process(path: &str, is_file: bool) -> (r: bool)
    ensures
        r == watch_eligible(path@, is_file),
{
    if !is_file {
        return false;
    }
    match crate::utils::extension_of(path) {
        Some(e) => str_eq(e.as_str(), "log") || str_eq(e.as_str(), "txt") || str_eq(
            e.as_str(),
            "secure",
        ),
        None => false,
    }
}

/// The step function of the watch loop's state machine: create and
/// modify notifications for eligible paths start a processing pass,
/// removals are logged, everything else is ignored.
pub fn watch_decision(kind: WatchEventKind, path: &str, is_file: bool) -> (r: WatchAction)
    ensures
        r == WatchAction::ProcessFile <==> ((kind == WatchEventKind::Create || kind
            == WatchEventKind::Modify) && watch_eligible(path@, is_file)),
        r == WatchAction::LogRemoval <==> kind == WatchEventKind::Remove,
{
    match kind {
        WatchEventKind::Create | WatchEventKind::Modify => {
            if should_process(path, is_file) {
                WatchAction::ProcessFile
            } else {
                WatchAction::Ignore
            }
        }
        WatchEventKind::Remove => WatchAction::LogRemoval,
        WatchEventKind::Other => WatchAction::Ignore,
    }
}

} // verus!
