//! The activity engine: per-tick classification of the focus poll, the
//! debounce policy deciding when a heartbeat is recorded, and the state
//! stamping that follows a sink invocation. The engine owns all mutable
//! activity state; time is handed in by the caller as milliseconds.

use vstd::prelude::*;

use crate::index::FileIndex;
use crate::index::lookup_seq;
use crate::title::filename_for;
use crate::title::filename_spec;
use crate::title::find_sep;
use crate::title::find_sep_pos;
use crate::title::parse;
use crate::title::parse_spec;

verus! {

/// Heartbeats are never recorded less than this many milliseconds apart.
pub const RECORD_FLOOR_MS: u64 = 1000;

/// After this many milliseconds a heartbeat is due even for an unchanged,
/// unsaved file.
pub const RECORD_INTERVAL_MS: u64 = 120000;

/// The engine's whole mutable state: the file currently tracked and when a
/// heartbeat was last recorded.
pub struct ActivityState {
    pub current_filename: String,
    pub current_full_path: String,
    pub last_recorded_time_ms: u64,
    pub last_recorded_wallclock_ms: Option<u64>,
    pub last_recorded_sink_path: String,
}

/// A request to invoke the external sink once, for this resolved path.
pub struct HeartbeatRequest {
    pub full_path: String,
}

/// What became of one sink invocation.
#[derive(Clone, Copy, Debug, PartialEq, Eq, Structural)]
pub enum SinkOutcome {
    /// The sink ran and exited cleanly.
    Completed,
    /// The sink ran and exited with a failure status; still an attempt.
    FailedExit,
    /// The sink executable does not exist; fatal for recording.
    NotFound,
    /// Recording is disabled; the attempt is still rate-limited.
    Disabled,
}

/// The engine's fatal error.
#[derive(Clone, Copy, Debug, PartialEq, Eq, Structural)]
pub enum EngineError {
    /// The sink executable could not be found at all.
    SinkMissing,
}

/// How one poll tick is classified.
#[derive(Clone, Copy, Debug, PartialEq, Eq, Structural)]
pub enum TickClass {
    /// Poll failed or the title is not in the expected shape.
    NoSignal,
    /// A placeholder title or an unrecognized editor label.
    PlaceholderOrForeign,
    /// An identity was parsed but the index knows no such file.
    UnresolvedFile,
    /// The candidate filename resolved to a full path.
    Resolved,
}

/// The debounce policy: under the one-second floor nothing is recorded;
/// past it, a heartbeat is due for an explicit save, after the two-minute
/// interval, or when the candidate differs from the tracked filename.
pub open spec fn debounce_allows(
    st: ActivityState,
    candidate: Seq<char>,
    is_explicit_save: bool,
    now_ms: u64,
) -> bool {
    &&& now_ms - st.last_recorded_time_ms >= RECORD_FLOOR_MS
    &&& (is_explicit_save || now_ms - st.last_recorded_time_ms > RECORD_INTERVAL_MS || candidate
        != st.current_filename@)
}

/// What `decide` does: a request comes back exactly when the debounce
/// allows recording and the candidate resolves; only then do the tracked
/// filename and path change, and nothing else ever does.
pub open spec fn decide_post(
    pre: ActivityState,
    post: ActivityState,
    idx: Seq<(Seq<char>, Seq<char>)>,
    candidate: Seq<char>,
    is_explicit_save: bool,
    now_ms: u64,
    r: Option<HeartbeatRequest>,
) -> bool {
    &&& (r is Some <==> debounce_allows(pre, candidate, is_explicit_save, now_ms) && lookup_seq(
        idx,
        candidate,
    ) is Some)
    &&& (match r {
        Some(req) => {
            &&& lookup_seq(idx, candidate) == Some(req.full_path@)
            &&& post.current_filename@ == candidate
            &&& post.current_full_path@ == req.full_path@
            &&& post.last_recorded_time_ms == pre.last_recorded_time_ms
            &&& post.last_recorded_wallclock_ms == pre.last_recorded_wallclock_ms
            &&& post.last_recorded_sink_path@ == pre.last_recorded_sink_path@
        },
        None => post == pre,
    })
}

/// The candidate filename a title stands for, if any.
pub open spec fn candidate_spec(title: Seq<char>) -> Option<Seq<char>> {
    match parse_spec(title) {
        None => None,
        Some(pk) => filename_spec(pk.0, pk.1),
    }
}

/// How one poll tick is classified, re-derived from the tick's inputs.
pub open spec fn classify_spec(
    title: Option<Seq<char>>,
    idx: Seq<(Seq<char>, Seq<char>)>,
) -> TickClass {
    match title {
        None => TickClass::NoSignal,
        Some(t) => if find_sep(t) is None {
            TickClass::NoSignal
        } else {
            match candidate_spec(t) {
                None => TickClass::PlaceholderOrForeign,
                Some(f) => if lookup_seq(idx, f) is Some {
                    TickClass::Resolved
                } else {
                    TickClass::UnresolvedFile
                },
            }
        },
    }
}

impl ActivityState {
    /// The engine's state at start: nothing tracked, nothing recorded.
    pub fn new() -> (r: ActivityState)
        ensures
            r.current_filename@ == Seq::<char>::empty(),
            r.current_full_path@ == Seq::<char>::empty(),
            r.last_recorded_time_ms == 0,
            r.last_recorded_wallclock_ms is None,
            r.last_recorded_sink_path@ == Seq::<char>::empty(),
    {
        ActivityState {
            current_filename: String::new(),
            current_full_path: String::new(),
            last_recorded_time_ms: 0,
            last_recorded_wallclock_ms: None,
            last_recorded_sink_path: String::new(),
        }
    }

    /// Whether the debounce policy lets this candidate record now.
    pub fn should_record(
        &self,
        candidate: &String,
        is_explicit_save: bool,
        now_ms: u64,
    ) -> (r: bool)
        requires
            self.last_recorded_time_ms <= now_ms,
        ensures
            r == debounce_allows(*self, candidate@, is_explicit_save, now_ms),
    {
        let elapsed = now_ms - self.last_recorded_time_ms;
        if elapsed < RECORD_FLOOR_MS {
            return false;
        }
        is_explicit_save || elapsed > RECORD_INTERVAL_MS || !(*candidate
            == self.current_filename)
    }

    /// Apply the debounce policy to one candidate and, when it records,
    /// resolve the candidate and retarget the engine onto it. The caller
    /// invokes the sink for the returned request and reports back through
    /// `apply_sink_outcome`.
    pub fn decide(
        &mut self,
        index: &FileIndex,
        candidate: &String,
        is_explicit_save: bool,
        now_ms: u64,
    ) -> (r: Option<HeartbeatRequest>)
        requires
            old(self).last_recorded_time_ms <= now_ms,
        ensures
            decide_post(
                *old(self),
                *final(self),
                index@,
                candidate@,
                is_explicit_save,
                now_ms,
                r,
            ),
    {
        if !self.should_record(candidate, is_explicit_save, now_ms) {
            return None;
        }
        match index.lookup(candidate) {
            None => None,
            Some(p) => {
                self.current_filename = candidate.clone();
                self.current_full_path = p.clone();
                Some(HeartbeatRequest { full_path: p })
            },
        }
    }

    /// Stamp the state after the sink was (or was not) invoked: any
    /// completed run and a disabled run count as an attempt for
    /// rate-limiting; a missing sink executable is fatal and leaves the
    /// state as it was.
    pub fn apply_sink_outcome(
        &mut self,
        outcome: SinkOutcome,
        now_ms: u64,
        wallclock_ms: u64,
    ) -> (r: Result<(), EngineError>)
        ensures
            (match outcome {
                SinkOutcome::Completed | SinkOutcome::FailedExit => {
                    &&& r is Ok
                    &&& final(self).last_recorded_time_ms == now_ms
                    &&& final(self).last_recorded_wallclock_ms == Some(wallclock_ms)
                    &&& final(self).last_recorded_sink_path@ == old(self).current_full_path@
                    &&& final(self).current_filename@ == old(self).current_filename@
                    &&& final(self).current_full_path@ == old(self).current_full_path@
                },
                SinkOutcome::Disabled => {
                    &&& r is Ok
                    &&& final(self).last_recorded_time_ms == now_ms
                    &&& final(self).last_recorded_wallclock_ms == Some(wallclock_ms)
                    &&& final(self).last_recorded_sink_path@ == old(self).last_recorded_sink_path@
                    &&& final(self).current_filename@ == old(self).current_filename@
                    &&& final(self).current_full_path@ == old(self).current_full_path@
                },
                SinkOutcome::NotFound => {
                    &&& r == Result::<(), EngineError>::Err(EngineError::SinkMissing)
                    &&& *final(self) == *old(self)
                },
            }),
    {
        match outcome {
            SinkOutcome::Completed | SinkOutcome::FailedExit => {
                self.last_recorded_time_ms = now_ms;
                self.last_recorded_wallclock_ms = Some(wallclock_ms);
                self.last_recorded_sink_path = self.current_full_path.clone();
                Ok(())
            },
            SinkOutcome::Disabled => {
                self.last_recorded_time_ms = now_ms;
                self.last_recorded_wallclock_ms = Some(wallclock_ms);
                Ok(())
            },
            SinkOutcome::NotFound => Err(EngineError::SinkMissing),
        }
    }

    /// One focus-poll tick: parse the active window's title, resolve the
    /// identity through the index, and put the candidate through the
    /// debounce policy. Only a resolved tick can touch the state or yield
    /// a request.
    pub fn poll_tick(
        &mut self,
        index: &FileIndex,
        title: Option<&str>,
        now_ms: u64,
    ) -> (r: (TickClass, Option<HeartbeatRequest>))
        requires
            old(self).last_recorded_time_ms <= now_ms,
        ensures
            (match title {
                None => r.0 == TickClass::NoSignal,
                Some(t) => r.0 == classify_spec(Some(t@), index@),
            }),
            r.0 == TickClass::Resolved ==> (match title {
                Some(t) => decide_post(
                    *old(self),
                    *final(self),
                    index@,
                    candidate_spec(t@).unwrap(),
                    false,
                    now_ms,
                    r.1,
                ),
                None => false,
            }),
            r.0 != TickClass::Resolved ==> r.1 is None && *final(self) == *old(self),
    {
        let t = match title {
            Some(t) => t,
            None => {
                return (TickClass::NoSignal, None);
            },
        };
        match parse(t) {
            None => {
                match find_sep_pos(t) {
                    Some(_) => (TickClass::PlaceholderOrForeign, None),
                    None => (TickClass::NoSignal, None),
                }
            },
            Some(id) => {
                match filename_for(&id) {
                    None => (TickClass::PlaceholderOrForeign, None),
                    Some(fname) => {
                        match index.lookup(&fname) {
                            None => (TickClass::UnresolvedFile, None),
                            Some(_) => {
                                let req = self.decide(index, &fname, false, now_ms);
                                (TickClass::Resolved, req)
                            },
                        }
                    },
                }
            },
        }
    }
}

/// Law: once a heartbeat has been stamped at `t1`, no candidate records at
/// any time less than one second later, whatever the candidate and whether
/// or not it is an explicit save; so two accepted candidates under a
/// second apart never both record.
pub proof fn lemma_no_double_record_within_floor(
    stamped: ActivityState,
    candidate: Seq<char>,
    is_explicit_save: bool,
    t1: u64,
    t2: u64,
)
    requires
        stamped.last_recorded_time_ms == t1,
        t1 <= t2,
        t2 - t1 < RECORD_FLOOR_MS,
    ensures
        !debounce_allows(stamped, candidate, is_explicit_save, t2),
{
}

/// Law: an explicit save always records once the one-second floor is met,
/// even for an unchanged filename well inside the two-minute interval.
pub proof fn lemma_explicit_save_records(st: ActivityState, candidate: Seq<char>, now_ms: u64)
    requires
        st.last_recorded_time_ms <= now_ms,
        now_ms - st.last_recorded_time_ms >= RECORD_FLOOR_MS,
    ensures
        debounce_allows(st, candidate, true, now_ms),
{
}

} // verus!
