use kicad_gtm::watch::classify_event;
use kicad_gtm::watch::WatchSignal;

#[test]
fn event_on_tracked_path_is_a_save() {
    let watched = "/p/my/MyBoard.kicad_sch".to_string();
    let r = classify_event(false, "/p/my/MyBoard.kicad_sch", Some("/p/my"), &watched);
    assert!(matches!(r, WatchSignal::Save));
}

#[test]
fn create_in_backup_folder_is_a_new_backup_carrying_the_folder() {
    let watched = "/p/my/MyBoard.kicad_sch".to_string();
    let r = classify_event(
        true,
        "/p/my/MyBoard-backups/snap.zip",
        Some("/p/my/MyBoard-backups"),
        &watched,
    );
    match r {
        WatchSignal::NewBackup { folder } => assert_eq!(folder, "/p/my/MyBoard-backups"),
        _ => panic!("expected a new-backup signal"),
    }
}

#[test]
fn non_create_in_backup_folder_is_ignored() {
    let watched = "/p/my/MyBoard.kicad_sch".to_string();
    let r = classify_event(
        false,
        "/p/my/MyBoard-backups/snap.zip",
        Some("/p/my/MyBoard-backups"),
        &watched,
    );
    assert!(matches!(r, WatchSignal::Ignore));
}

#[test]
fn create_outside_backup_folder_is_ignored() {
    let watched = "/p/my/MyBoard.kicad_sch".to_string();
    let r = classify_event(true, "/p/my/notes.txt", Some("/p/my"), &watched);
    assert!(matches!(r, WatchSignal::Ignore));
}

#[test]
fn event_without_parent_is_dropped_even_on_the_tracked_path() {
    let watched = "/".to_string();
    let r = classify_event(true, "/", None, &watched);
    assert!(matches!(r, WatchSignal::Ignore));
}

#[test]
fn save_wins_over_backup_classification() {
    let watched = "/p/my/MyBoard-backups/MyBoard.kicad_sch".to_string();
    let r = classify_event(
        true,
        "/p/my/MyBoard-backups/MyBoard.kicad_sch",
        Some("/p/my/MyBoard-backups"),
        &watched,
    );
    assert!(matches!(r, WatchSignal::Save));
}
