use std::io::Write;

use kicad_gtm::backup::diff_latest;
use kicad_gtm::backup::member_changed;
use kicad_gtm::backup::BackupError;

fn archive_with(member: &str, content: &[u8]) -> Vec<u8> {
    let cursor = std::io::Cursor::new(Vec::new());
    let mut writer = zip::ZipWriter::new(cursor);
    writer.start_file(member, zip::write::SimpleFileOptions::default()).unwrap();
    writer.write_all(content).unwrap();
    writer.finish().unwrap().into_inner()
}

fn archive_with_two(member: &str, content: &[u8], extra: &str, extra_content: &[u8]) -> Vec<u8> {
    let cursor = std::io::Cursor::new(Vec::new());
    let mut writer = zip::ZipWriter::new(cursor);
    writer.start_file(member, zip::write::SimpleFileOptions::default()).unwrap();
    writer.write_all(content).unwrap();
    writer.start_file(extra, zip::write::SimpleFileOptions::default()).unwrap();
    writer.write_all(extra_content).unwrap();
    writer.finish().unwrap().into_inner()
}

#[test]
fn identical_member_bytes_mean_no_change() {
    let older = archive_with_two("b.kicad_pcb", b"same bytes", "log.txt", b"first");
    let newer = archive_with_two("b.kicad_pcb", b"same bytes", "log.txt", b"second");
    assert_ne!(older, newer);
    let r = diff_latest(&vec![older, newer], "b.kicad_pcb");
    assert_eq!(r, Ok(false));
}

#[test]
fn differing_member_bytes_mean_a_change() {
    let older = archive_with("b.kicad_pcb", b"old layout");
    let newer = archive_with("b.kicad_pcb", b"new layout");
    let r = diff_latest(&vec![older, newer], "b.kicad_pcb");
    assert_eq!(r, Ok(true));
}

#[test]
fn fewer_than_two_archives_mean_no_change_without_error() {
    assert_eq!(diff_latest(&Vec::new(), "b.kicad_pcb"), Ok(false));
    let only = archive_with("b.kicad_pcb", b"bytes");
    assert_eq!(diff_latest(&vec![only], "b.kicad_pcb"), Ok(false));
}

#[test]
fn only_the_two_newest_archives_are_compared() {
    let oldest = archive_with("b.kicad_pcb", b"ancient");
    let older = archive_with("b.kicad_pcb", b"current");
    let newest = archive_with("b.kicad_pcb", b"current");
    assert_eq!(diff_latest(&vec![oldest, older, newest], "b.kicad_pcb"), Ok(false));
}

#[test]
fn member_missing_from_the_newest_archive_is_an_error() {
    let older = archive_with("b.kicad_pcb", b"bytes");
    let newer = archive_with("something_else.txt", b"bytes");
    assert_eq!(diff_latest(&vec![older, newer], "b.kicad_pcb"), Err(BackupError::Newest));
}

#[test]
fn member_missing_from_the_second_newest_archive_is_an_error() {
    let older = archive_with("something_else.txt", b"bytes");
    let newer = archive_with("b.kicad_pcb", b"bytes");
    assert_eq!(diff_latest(&vec![older, newer], "b.kicad_pcb"), Err(BackupError::SecondNewest));
}

#[test]
fn garbage_bytes_are_not_an_archive() {
    let good = archive_with("b.kicad_pcb", b"bytes");
    let garbage = vec![1u8, 2, 3, 4, 5];
    assert_eq!(member_changed(&garbage, &good, "b.kicad_pcb"), Err(BackupError::Newest));
}
