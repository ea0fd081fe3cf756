use kicad_gtm::engine::ActivityState;
use kicad_gtm::engine::EngineError;
use kicad_gtm::engine::SinkOutcome;
use kicad_gtm::engine::TickClass;
use kicad_gtm::index::FileEntry;
use kicad_gtm::index::FileIndex;

fn entry(name: &str, path: &str) -> FileEntry {
    FileEntry { file_name: name.to_string(), full_path: path.to_string() }
}

fn index_with_two_boards() -> FileIndex {
    let mut idx = FileIndex::new();
    idx.rebuild(&vec![
        entry("MyBoard.kicad_sch", "/projects/my/MyBoard.kicad_sch"),
        entry("Other.kicad_sch", "/projects/other/Other.kicad_sch"),
    ]);
    idx
}

#[test]
fn first_candidate_records_and_retargets() {
    let idx = index_with_two_boards();
    let mut st = ActivityState::new();
    let req = st.decide(&idx, &"MyBoard.kicad_sch".to_string(), false, 10_000).unwrap();
    assert_eq!(req.full_path, "/projects/my/MyBoard.kicad_sch");
    assert_eq!(st.current_filename, "MyBoard.kicad_sch");
    assert_eq!(st.current_full_path, "/projects/my/MyBoard.kicad_sch");
    assert_eq!(st.last_recorded_time_ms, 0);
}

#[test]
fn two_candidates_under_a_second_apart_record_only_once() {
    let idx = index_with_two_boards();
    let mut st = ActivityState::new();
    let name = "MyBoard.kicad_sch".to_string();
    assert!(st.decide(&idx, &name, false, 10_000).is_some());
    st.apply_sink_outcome(SinkOutcome::Completed, 10_000, 55).unwrap();
    assert!(st.decide(&idx, &name, true, 10_900).is_none());
    assert!(st.decide(&idx, &"Other.kicad_sch".to_string(), false, 10_999).is_none());
}

#[test]
fn explicit_save_records_past_the_floor_even_unchanged() {
    let idx = index_with_two_boards();
    let mut st = ActivityState::new();
    let name = "MyBoard.kicad_sch".to_string();
    assert!(st.decide(&idx, &name, false, 10_000).is_some());
    st.apply_sink_outcome(SinkOutcome::Completed, 10_000, 55).unwrap();
    assert!(st.decide(&idx, &name, false, 11_000).is_none());
    assert!(st.decide(&idx, &name, true, 11_000).is_some());
}

#[test]
fn unchanged_file_records_again_past_the_two_minute_interval() {
    let idx = index_with_two_boards();
    let mut st = ActivityState::new();
    let name = "MyBoard.kicad_sch".to_string();
    assert!(st.decide(&idx, &name, false, 10_000).is_some());
    st.apply_sink_outcome(SinkOutcome::Completed, 10_000, 55).unwrap();
    assert!(st.decide(&idx, &name, false, 130_000).is_none());
    assert!(st.decide(&idx, &name, false, 130_001).is_some());
}

#[test]
fn unresolved_candidate_keeps_the_previous_state() {
    let idx = index_with_two_boards();
    let mut st = ActivityState::new();
    assert!(st.decide(&idx, &"MyBoard.kicad_sch".to_string(), false, 10_000).is_some());
    assert!(st.decide(&idx, &"Missing.kicad_pcb".to_string(), false, 20_000).is_none());
    assert_eq!(st.current_filename, "MyBoard.kicad_sch");
    assert_eq!(st.current_full_path, "/projects/my/MyBoard.kicad_sch");
}

#[test]
fn completed_sink_stamps_times_and_path() {
    let idx = index_with_two_boards();
    let mut st = ActivityState::new();
    st.decide(&idx, &"MyBoard.kicad_sch".to_string(), false, 10_000).unwrap();
    st.apply_sink_outcome(SinkOutcome::Completed, 10_000, 77).unwrap();
    assert_eq!(st.last_recorded_time_ms, 10_000);
    assert_eq!(st.last_recorded_wallclock_ms, Some(77));
    assert_eq!(st.last_recorded_sink_path, "/projects/my/MyBoard.kicad_sch");
}

#[test]
fn failed_sink_exit_still_counts_as_an_attempt() {
    let idx = index_with_two_boards();
    let mut st = ActivityState::new();
    let name = "MyBoard.kicad_sch".to_string();
    st.decide(&idx, &name, false, 10_000).unwrap();
    st.apply_sink_outcome(SinkOutcome::FailedExit, 10_000, 77).unwrap();
    assert_eq!(st.last_recorded_time_ms, 10_000);
    assert!(st.decide(&idx, &name, true, 10_500).is_none());
}

#[test]
fn disabled_recording_stamps_time_but_not_sink_path() {
    let idx = index_with_two_boards();
    let mut st = ActivityState::new();
    st.decide(&idx, &"MyBoard.kicad_sch".to_string(), false, 10_000).unwrap();
    st.apply_sink_outcome(SinkOutcome::Disabled, 10_000, 77).unwrap();
    assert_eq!(st.last_recorded_time_ms, 10_000);
    assert_eq!(st.last_recorded_sink_path, "");
}

#[test]
fn missing_sink_is_fatal_and_leaves_state_unstamped() {
    let idx = index_with_two_boards();
    let mut st = ActivityState::new();
    st.decide(&idx, &"MyBoard.kicad_sch".to_string(), false, 10_000).unwrap();
    let r = st.apply_sink_outcome(SinkOutcome::NotFound, 10_000, 77);
    assert_eq!(r, Err(EngineError::SinkMissing));
    assert_eq!(st.last_recorded_time_ms, 0);
    assert_eq!(st.last_recorded_wallclock_ms, None);
}

#[test]
fn poll_classifies_the_four_tick_states() {
    let idx = index_with_two_boards();
    let mut st = ActivityState::new();
    let (c, r) = st.poll_tick(&idx, None, 1_000);
    assert_eq!(c, TickClass::NoSignal);
    assert!(r.is_none());
    let (c, _) = st.poll_tick(&idx, Some("no separator here"), 1_000);
    assert_eq!(c, TickClass::NoSignal);
    let (c, _) = st.poll_tick(&idx, Some("[no pcb loaded] \u{2014} PCB Editor"), 1_000);
    assert_eq!(c, TickClass::PlaceholderOrForeign);
    let (c, _) = st.poll_tick(&idx, Some("MyBoard \u{2014} Symbol Editor"), 1_000);
    assert_eq!(c, TickClass::PlaceholderOrForeign);
    let (c, _) = st.poll_tick(&idx, Some("Ghost \u{2014} Schematic Editor"), 1_000);
    assert_eq!(c, TickClass::UnresolvedFile);
    let (c, r) = st.poll_tick(&idx, Some("MyBoard \u{2014} Schematic Editor"), 1_000);
    assert_eq!(c, TickClass::Resolved);
    assert!(r.is_some());
}

#[test]
fn poll_same_title_again_half_a_second_later_records_exactly_once() {
    let idx = index_with_two_boards();
    let mut st = ActivityState::new();
    let title = "MyBoard \u{2014} Schematic Editor";
    let (c, r) = st.poll_tick(&idx, Some(title), 10_000);
    assert_eq!(c, TickClass::Resolved);
    assert!(r.is_some());
    st.apply_sink_outcome(SinkOutcome::Completed, 10_000, 55).unwrap();
    let (c, r) = st.poll_tick(&idx, Some(title), 10_500);
    assert_eq!(c, TickClass::Resolved);
    assert!(r.is_none());
}

#[test]
fn poll_different_resolved_title_three_seconds_later_records_twice() {
    let idx = index_with_two_boards();
    let mut st = ActivityState::new();
    let (_, r) = st.poll_tick(&idx, Some("MyBoard \u{2014} Schematic Editor"), 10_000);
    assert!(r.is_some());
    st.apply_sink_outcome(SinkOutcome::Completed, 10_000, 55).unwrap();
    let (c, r) = st.poll_tick(&idx, Some("Other \u{2014} Schematic Editor"), 13_000);
    assert_eq!(c, TickClass::Resolved);
    let req = r.unwrap();
    assert_eq!(req.full_path, "/projects/other/Other.kicad_sch");
}
