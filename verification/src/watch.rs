//! Classification of filesystem events into the two semantic signals the
//! engine acts on: "the tracked file was saved" and "a new backup snapshot
//! appeared." The watch subscription itself is the surrounding program's
//! business; this module only decides what a drained event means.

use vstd::prelude::*;

use crate::strutil::ends_with;
use crate::strutil::str_ends_with;
use crate::strutil::str_eq;

verus! {

/// What one drained filesystem event means for the engine.
#[derive(Clone, Copy, Debug, PartialEq, Eq, Structural)]
pub enum WatchClass {
    /// The event's path is the tracked file: a direct save.
    Save,
    /// A file was created inside a backup folder: a new snapshot.
    NewBackup,
    /// The event is of no interest.
    Ignore,
}

/// A classified event; a new-backup signal carries the backup folder.
pub enum WatchSignal {
    Save,
    NewBackup { folder: String },
    Ignore,
}

/// The view of an optional path string.
pub open spec fn opt_str_view(o: Option<&str>) -> Option<Seq<char>> {
    match o {
        None => None,
        Some(s) => Some(s@),
    }
}

/// How one event is classified: an event with no parent directory is
/// dropped; an event on the tracked full path is a save; a create event
/// whose parent directory name ends with the backup-folder suffix is a new
/// backup; anything else is ignored.
pub open spec fn classify_spec(
    is_create: bool,
    path: Seq<char>,
    parent: Option<Seq<char>>,
    tracked_path: Seq<char>,
) -> WatchClass {
    match parent {
        None => WatchClass::Ignore,
        Some(par) => if path == tracked_path {
            WatchClass::Save
        } else if is_create && ends_with(par, "-backups"@) {
            WatchClass::NewBackup
        } else {
            WatchClass::Ignore
        },
    }
}

/// Classify one drained filesystem event against the currently tracked
/// full path.
pub fn classify_event(
    is_create: bool,
    path: &str,
    parent: Option<&str>,
    tracked_full_path: &String,
) -> (r: WatchSignal)
    ensures
        (match r {
            WatchSignal::Save => classify_spec(
                is_create,
                path@,
                opt_str_view(parent),
                tracked_full_path@,
            ) == WatchClass::Save,
            WatchSignal::NewBackup { folder } => {
                &&& classify_spec(is_create, path@, opt_str_view(parent), tracked_full_path@)
                    == WatchClass::NewBackup
                &&& parent matches Some(p) && folder@ == p@
            },
            WatchSignal::Ignore => classify_spec(
                is_create,
                path@,
                opt_str_view(parent),
                tracked_full_path@,
            ) == WatchClass::Ignore,
        }),
{
    let par = match parent {
        None => {
            return WatchSignal::Ignore;
        },
        Some(p) => p,
    };
    if str_eq(path, tracked_full_path.as_str()) {
        WatchSignal::Save
    } else if is_create && str_ends_with(par, "-backups") {
        WatchSignal::NewBackup { folder: par.to_owned() }
    } else {
        WatchSignal::Ignore
    }
}

} // verus!
