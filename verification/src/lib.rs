//! Activity detection and heartbeat recording engine for a KiCad time tracker.
//!
//! The library decides, from window-title polling and filesystem-watch
//! signals, when a "user is active on this file" heartbeat should be sent to
//! an external sink, and for which file. Window titles are parsed into a
//! (project, editor) identity, resolved to a concrete path through a
//! pre-built file index, and passed through a debounce policy; a backup
//! archive differ detects edits that the focus poll alone would miss.

use vstd::prelude::*;

pub mod backup;
pub mod engine;
pub mod index;
pub mod strutil;
pub mod title;
pub mod watch;

verus! {

/// Command-line options the surrounding program hands to the engine.
pub struct Args {
    pub disable_gtm_recording: bool,
}

} // verus!
