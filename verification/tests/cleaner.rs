use assert_fs::fixture::FileWriteStr;
use assert_fs::fixture::PathChild;
use assert_fs::fixture::PathCreateDir;
use assert_fs::TempDir;
use crufty::cleaner::clean;
use crufty::cleaner::decide_cleanup;
use crufty::cleaner::CleanupResult;
use crufty::estimator::estimate;
use crufty::types::ArtifactCandidate;
use crufty::types::Size;

fn components(p: &std::path::Path) -> Vec<String> {
    p.components().map(|c| c.as_os_str().to_string_lossy().into_owned()).collect()
}

#[test]
fn test_clean_nonexistent_path_reports_does_not_exists() {
    let temp = TempDir::new().unwrap();
    let gone = components(temp.child("never-made").path());
    let artifact = ArtifactCandidate::new(gone);

    let result = clean(&artifact);
    assert!(matches!(result, CleanupResult::DoesNotExists));

    temp.close().unwrap();
}

#[test]
fn test_clean_removes_directory_and_reports_prior_size() {
    let temp = TempDir::new().unwrap();
    let dir = temp.child("junk");
    dir.create_dir_all().unwrap();
    dir.child("payload.bin").write_str("0123456789").unwrap();

    let mut artifact = ArtifactCandidate::new(components(dir.path()));
    estimate(&mut artifact);
    assert_eq!(artifact.size, Size::KnownSize(10));

    let result = clean(&artifact);
    match result {
        CleanupResult::Successful { size } => assert_eq!(size, Size::KnownSize(10)),
        _ => panic!("expected a successful removal"),
    }
    assert!(!dir.path().exists());

    temp.close().unwrap();
}

#[test]
fn test_cleanup_decision_covers_all_three_outcomes() {
    let size = Size::KnownSize(7);
    assert_eq!(decide_cleanup(false, false, size), CleanupResult::DoesNotExists);
    assert_eq!(decide_cleanup(false, true, size), CleanupResult::DoesNotExists);
    assert_eq!(decide_cleanup(true, true, size), CleanupResult::Successful { size });
    assert_eq!(decide_cleanup(true, false, size), CleanupResult::Unsuccessful);
}

#[test]
fn test_clean_twice_reports_does_not_exists_the_second_time() {
    let temp = TempDir::new().unwrap();
    let dir = temp.child("junk");
    dir.create_dir_all().unwrap();

    let artifact = ArtifactCandidate::new(components(dir.path()));
    assert!(matches!(clean(&artifact), CleanupResult::Successful { .. }));
    assert!(matches!(clean(&artifact), CleanupResult::DoesNotExists));

    temp.close().unwrap();
}
