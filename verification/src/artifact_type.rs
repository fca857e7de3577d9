//! The registry of build ecosystems whose output directories are disposable.

use crate::paths::copy_names;
use vstd::prelude::*;

verus! {

/// A build ecosystem whose output directories can be discovered and removed.
///
/// Every type carries a glob pattern matched against paths relative to the
/// scan root, a human-readable name, and a list of marker filenames whose
/// presence in a match's parent directory confirms the type.  The built-in
/// variants have those fixed; `Custom` lets a caller supply all three.
#[derive(Debug, Clone, PartialEq, Eq, PartialOrd, Ord)]
pub enum ArtifactType {
    Rust,
    Scala,
    JavaMaven,
    HaskellCabal,
    Custom { pattern: String, name: String, files: Vec<String> },
}

/// The mathematical content of an [`ArtifactType`]: its glob pattern, its
/// name, and its marker filenames, all as character sequences.
pub struct ArtifactTypeModel {
    pub pattern: Seq<char>,
    pub name: Seq<char>,
    pub files: Seq<Seq<char>>,
}

impl ArtifactType {
    /// The glob pattern of this type, as a sequence of characters.
    pub open spec fn pattern_spec(&self) -> Seq<char> {
        match self {
            ArtifactType::Rust => "**/target"@,
            ArtifactType::Scala => "**/target"@,
            ArtifactType::JavaMaven => "**/target"@,
            ArtifactType::HaskellCabal => "**/dist-newstyle"@,
            ArtifactType::Custom { pattern, .. } => pattern@,
        }
    }

    /// The human-readable name of this type, as a sequence of characters.
    pub open spec fn name_spec(&self) -> Seq<char> {
        match self {
            ArtifactType::Rust => "Rust"@,
            ArtifactType::Scala => "Scala"@,
            ArtifactType::JavaMaven => "Java"@,
            ArtifactType::HaskellCabal => "Haskell"@,
            ArtifactType::Custom { name, .. } => name@,
        }
    }

    /// The marker filenames of this type, as sequences of characters.
    pub open spec fn files_spec(&self) -> Seq<Seq<char>> {
        match self {
            ArtifactType::Rust => seq!["Cargo.toml"@],
            ArtifactType::Scala => seq!["build.sbt"@],
            ArtifactType::JavaMaven => seq!["pom.xml"@],
            ArtifactType::HaskellCabal => Seq::empty(),
            ArtifactType::Custom { files, .. } => files.deep_view(),
        }
    }

    /// The glob pattern matched against paths relative to the scan root.
    pub fn pattern(&self) -> (r: &str)
        ensures
            r@ == self.pattern_spec(),
    {
        match self {
            ArtifactType::Rust => "**/target",
            ArtifactType::Scala => "**/target",
            ArtifactType::JavaMaven => "**/target",
            ArtifactType::HaskellCabal => "**/dist-newstyle",
            ArtifactType::Custom { pattern, .. } => pattern.as_str(),
        }
    }

    /// The human-readable name of the ecosystem.
    pub fn artifact_type_name(&self) -> (r: &str)
        ensures
            r@ == self.name_spec(),
    {
        match self {
            ArtifactType::Rust => "Rust",
            ArtifactType::Scala => "Scala",
            ArtifactType::JavaMaven => "Java",
            ArtifactType::HaskellCabal => "Haskell",
            ArtifactType::Custom { name, .. } => name.as_str(),
        }
    }

    /// The marker filenames whose presence in a match's parent directory
    /// confirms this type.
    pub fn recognized_files(&self) -> (r: Vec<String>)
        ensures
            r.deep_view() == self.files_spec(),
    {
        match self {
            ArtifactType::Rust => single_name("Cargo.toml"),
            ArtifactType::Scala => single_name("build.sbt"),
            ArtifactType::JavaMaven => single_name("pom.xml"),
            ArtifactType::HaskellCabal => no_names(),
            ArtifactType::Custom { files, .. } => copy_names(files),
        }
    }

    /// Rebuilds this type as an owned value equal to it up to its model.
    pub fn duplicate(&self) -> (r: ArtifactType)
        ensures
            r@ == self@,
    {
        match self {
            ArtifactType::Rust => ArtifactType::Rust,
            ArtifactType::Scala => ArtifactType::Scala,
            ArtifactType::JavaMaven => ArtifactType::JavaMaven,
            ArtifactType::HaskellCabal => ArtifactType::HaskellCabal,
            ArtifactType::Custom { pattern, name, files } => ArtifactType::Custom {
                pattern: pattern.clone(),
                name: name.clone(),
                files: copy_names(files),
            },
        }
    }
}

impl View for ArtifactType {
    type V = ArtifactTypeModel;

    open spec fn view(&self) -> ArtifactTypeModel {
        ArtifactTypeModel {
            pattern: self.pattern_spec(),
            name: self.name_spec(),
            files: self.files_spec(),
        }
    }
}

impl DeepView for ArtifactType {
    type V = ArtifactTypeModel;

    open spec fn deep_view(&self) -> ArtifactTypeModel {
        self.view()
    }
}

/// The built-in artifact types, in the order in which detection consults
/// them.
pub fn builtin() -> (r: [ArtifactType; 4])
    ensures
        r@ == seq![
            ArtifactType::Rust,
            ArtifactType::Scala,
            ArtifactType::JavaMaven,
            ArtifactType::HaskellCabal,
        ],
{
    let r = [
        ArtifactType::Rust,
        ArtifactType::Scala,
        ArtifactType::JavaMaven,
        ArtifactType::HaskellCabal,
    ];
    proof {
        assert(r@ =~= seq![
            ArtifactType::Rust,
            ArtifactType::Scala,
            ArtifactType::JavaMaven,
            ArtifactType::HaskellCabal,
        ]);
    }
    r
}

fn single_name(name: &str) -> (r: Vec<String>)
    ensures
        r.deep_view() == seq![name@],
{
    let mut v: Vec<String> = Vec::new();
    v.push(name.to_owned());
    proof {
        assert(v.deep_view() =~= seq![name@]);
    }
    v
}

fn no_names() -> (r: Vec<String>)
    ensures
        r.deep_view() == Seq::<Seq<char>>::empty(),
{
    let v: Vec<String> = Vec::new();
    proof {
        assert(v.deep_view() =~= Seq::<Seq<char>>::empty());
    }
    v
}

} // verus!
