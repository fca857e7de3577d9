use assert_fs::fixture::FileWriteStr;
use assert_fs::fixture::PathChild;
use assert_fs::TempDir;
use crufty::estimator::estimate;
use crufty::estimator::measure;
use crufty::estimator::tally;
use crufty::estimator::total_size;
use crufty::estimator::Sizable;
use crufty::estimator::WalkEvent;
use crufty::types::ArtifactCandidate;
use crufty::types::Size;
use crufty::walk::WalkEntry;

fn components(p: &std::path::Path) -> Vec<String> {
    p.components().map(|c| c.as_os_str().to_string_lossy().into_owned()).collect()
}

#[test]
fn test_estimate_path_empty_dir() {
    // given
    let temp = TempDir::new().unwrap();
    let path = components(temp.path());
    let mut artifact = ArtifactCandidate::new(path);
    // when
    estimate(&mut artifact);
    // then
    assert!(matches!(artifact.size, Size::KnownSize(0)));

    temp.close().unwrap();
}

#[test]
fn test_estimate_path_with_files() {
    // given
    let temp = TempDir::new().unwrap();
    let file = temp.child("test.txt");
    file.write_str("Hello, world!").unwrap();
    let path = components(temp.path());
    let mut artifact = ArtifactCandidate::new(path);
    // when
    estimate(&mut artifact);
    // then
    assert!(matches!(artifact.size, Size::KnownSize(13)));

    temp.close().unwrap();
}

#[test]
fn test_estimate_path_that_vanished_is_unknown() {
    // a walk that cannot start yields an unknown size
    let temp = TempDir::new().unwrap();
    let gone = components(temp.child("not-there").path());
    let mut artifact = ArtifactCandidate::new(gone);
    estimate(&mut artifact);
    assert!(matches!(artifact.size, Size::UnknownSize));

    temp.close().unwrap();
}

#[test]
fn test_estimate_counts_files_in_subdirectories() {
    let temp = TempDir::new().unwrap();
    temp.child("a.txt").write_str("12345").unwrap();
    temp.child("sub/b.txt").write_str("123").unwrap();
    let mut artifact = ArtifactCandidate::new(components(temp.path()));
    estimate(&mut artifact);
    assert_eq!(artifact.size, Size::KnownSize(8));

    temp.close().unwrap();
}

#[test]
fn test_total_size_treats_unknown_as_zero() {
    let sizes = vec![Size::KnownSize(10), Size::UnknownSize, Size::KnownSize(5)];
    assert_eq!(total_size(&sizes), Size::KnownSize(15));
}

#[test]
fn test_total_size_of_nothing_is_known_zero() {
    let sizes: Vec<Size> = vec![];
    assert_eq!(total_size(&sizes), Size::KnownSize(0));
}

#[test]
fn test_total_size_of_only_unknowns_is_known_zero() {
    let sizes = vec![Size::UnknownSize, Size::UnknownSize];
    assert_eq!(total_size(&sizes), Size::KnownSize(0));
}

#[test]
fn test_total_size_over_candidates() {
    let mut a = ArtifactCandidate::new(vec!["a".to_string()]);
    a.size = Size::KnownSize(7);
    let b = ArtifactCandidate::new(vec!["b".to_string()]);
    assert_eq!(total_size(&[a, b]), Size::KnownSize(7));
}

#[test]
fn test_bytes_of_unknown_is_zero() {
    assert_eq!(Size::UnknownSize.bytes(), 0);
    assert_eq!(Size::KnownSize(42).bytes(), 42);
}

fn file_entry(len: Option<u64>) -> WalkEvent {
    WalkEvent::Entry(WalkEntry { path: vec![], is_dir: false, is_file: true, len })
}

fn dir_entry() -> WalkEvent {
    WalkEvent::Entry(WalkEntry { path: vec![], is_dir: true, is_file: false, len: Some(4096) })
}

#[test]
fn test_measure_sums_regular_files_and_skips_the_rest() {
    let events = vec![
        dir_entry(),
        file_entry(Some(5)),
        WalkEvent::Unreadable,
        file_entry(None),
        file_entry(Some(8)),
    ];
    assert_eq!(measure(&events), Size::KnownSize(13));
}

#[test]
fn test_measure_of_no_events_is_known_zero() {
    assert_eq!(measure(&vec![]), Size::KnownSize(0));
}

#[test]
fn test_measure_is_unknown_when_the_walk_cannot_start() {
    let events = vec![WalkEvent::Unreadable, file_entry(Some(5))];
    assert_eq!(measure(&events), Size::UnknownSize);
}

#[test]
fn test_tally_clamps_at_the_largest_total() {
    assert_eq!(tally(10, &WalkEntry { path: vec![], is_dir: false, is_file: true, len: Some(5) }), 15);
    assert_eq!(
        tally(u64::MAX - 1, &WalkEntry { path: vec![], is_dir: false, is_file: true, len: Some(5) }),
        u64::MAX
    );
}

#[test]
fn test_estimate_again_on_an_unchanged_tree_gives_the_same_size() {
    let temp = TempDir::new().unwrap();
    temp.child("a.txt").write_str("12345").unwrap();
    let mut artifact = ArtifactCandidate::new(components(temp.path()));
    estimate(&mut artifact);
    let first = artifact.size;
    estimate(&mut artifact);
    assert_eq!(artifact.size, first);
    assert_eq!(first, Size::KnownSize(5));

    temp.close().unwrap();
}
