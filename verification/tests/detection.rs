use crufty::artifact_type::builtin;
use crufty::artifact_type::ArtifactType;
use crufty::fetcher::detect_artifact_type;
use crufty::types::ArtifactCandidate;
use crufty::types::Size;

fn names(words: &[&str]) -> Vec<String> {
    words.iter().map(|w| w.to_string()).collect()
}

fn custom(name: &str, files: &[&str]) -> ArtifactType {
    ArtifactType::Custom {
        pattern: "**/target".to_string(),
        name: name.to_string(),
        files: names(files),
    }
}

#[test]
fn test_detect_returns_first_type_whose_markers_are_present() {
    let present = names(&["Cargo.toml", "build.sbt"]);
    let types = vec![ArtifactType::Rust, ArtifactType::Scala];
    assert_eq!(detect_artifact_type(&present, &types), Some(ArtifactType::Rust));
}

#[test]
fn test_earlier_registered_type_wins() {
    // both types claim the directory; registration order decides
    let present = names(&["Cargo.toml"]);
    let first = custom("First", &["Cargo.toml"]);
    let second = custom("Second", &[]);

    let forwards = vec![first.clone(), second.clone()];
    assert_eq!(detect_artifact_type(&present, &forwards), Some(first.clone()));

    let backwards = vec![second.clone(), first];
    assert_eq!(detect_artifact_type(&present, &backwards), Some(second));
}

#[test]
fn test_detect_without_any_claiming_type_returns_none() {
    let present = names(&["README.md"]);
    let types = vec![ArtifactType::Rust, ArtifactType::Scala, ArtifactType::JavaMaven];
    assert_eq!(detect_artifact_type(&present, &types), None);
}

#[test]
fn test_type_without_markers_claims_any_directory() {
    let present: Vec<String> = vec![];
    let types = vec![ArtifactType::Rust, ArtifactType::HaskellCabal];
    assert_eq!(detect_artifact_type(&present, &types), Some(ArtifactType::HaskellCabal));
}

#[test]
fn test_detect_needs_every_marker_present() {
    let present = names(&["Cargo.toml"]);
    let both = custom("Both", &["Cargo.toml", "build.sbt"]);
    assert_eq!(detect_artifact_type(&present, &vec![both]), None);
}

#[test]
fn test_builtin_types_and_their_rules() {
    let all = builtin();
    assert_eq!(
        all,
        [
            ArtifactType::Rust,
            ArtifactType::Scala,
            ArtifactType::JavaMaven,
            ArtifactType::HaskellCabal,
        ]
    );

    assert_eq!(ArtifactType::Rust.pattern(), "**/target");
    assert_eq!(ArtifactType::Scala.pattern(), "**/target");
    assert_eq!(ArtifactType::JavaMaven.pattern(), "**/target");
    assert_eq!(ArtifactType::HaskellCabal.pattern(), "**/dist-newstyle");

    assert_eq!(ArtifactType::Rust.artifact_type_name(), "Rust");
    assert_eq!(ArtifactType::Scala.artifact_type_name(), "Scala");
    assert_eq!(ArtifactType::JavaMaven.artifact_type_name(), "Java");
    assert_eq!(ArtifactType::HaskellCabal.artifact_type_name(), "Haskell");

    assert_eq!(ArtifactType::Rust.recognized_files(), vec!["Cargo.toml".to_string()]);
    assert_eq!(ArtifactType::Scala.recognized_files(), vec!["build.sbt".to_string()]);
    assert_eq!(ArtifactType::JavaMaven.recognized_files(), vec!["pom.xml".to_string()]);
    assert_eq!(ArtifactType::HaskellCabal.recognized_files(), Vec::<String>::new());

    let c = custom("Me", &["a", "b"]);
    assert_eq!(c.pattern(), "**/target");
    assert_eq!(c.artifact_type_name(), "Me");
    assert_eq!(c.recognized_files(), names(&["a", "b"]));
}

#[test]
fn test_candidate_builder_defaults() {
    let path = names(&["some", "where"]);
    let built = ArtifactCandidate::builder(path.clone())
        .art_type(Some(ArtifactType::Rust))
        .build();
    assert_eq!(built.path, path);
    assert_eq!(built.size, Size::UnknownSize);
    assert_eq!(built.art_type, Some(ArtifactType::Rust));

    let fresh = ArtifactCandidate::new(path.clone());
    assert_eq!(fresh.path, path);
    assert_eq!(fresh.size, Size::UnknownSize);
    assert_eq!(fresh.art_type, None);
}
