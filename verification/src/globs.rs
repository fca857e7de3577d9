//! Trusted interface to the `globset` crate.
//!
//! The scanner matches directories with one combined matcher compiled from
//! every registered pattern.  The declarations here give the `globset` types
//! to the rest of the crate, name what they hold, and state of each call only
//! what the crate's own documentation promises.

use vstd::prelude::*;

verus! {

#[verifier::external_type_specification]
#[verifier::external_body]
pub struct ExGlob(globset::Glob);

#[verifier::external_type_specification]
#[verifier::external_body]
pub struct ExGlobSet(globset::GlobSet);

#[verifier::external_type_specification]
#[verifier::external_body]
pub struct ExGlobSetBuilder(globset::GlobSetBuilder);

#[verifier::external_type_specification]
#[verifier::external_body]
pub struct ExGlobError(globset::Error);

/// Whether the glob syntax of `pattern` compiles.  With the default options
/// used here, compilation depends on the pattern alone.
pub uninterp spec fn glob_compiles(pattern: Seq<char>) -> bool;

/// Whether a combined matcher can be built from the compiled `patterns`.
/// Building depends on the patterns alone.
pub uninterp spec fn glob_set_builds(patterns: Seq<Seq<char>>) -> bool;

/// The pattern a compiled glob was built from.
pub uninterp spec fn glob_pattern(g: globset::Glob) -> Seq<char>;

/// The patterns added to a glob-set builder so far, in order.
pub uninterp spec fn builder_patterns(b: globset::GlobSetBuilder) -> Seq<Seq<char>>;

/// The patterns of the globs a built glob set holds, in order.
pub uninterp spec fn set_patterns(s: globset::GlobSet) -> Seq<Seq<char>>;

/// Whether the glob compiled from `pattern` matches the path whose components
/// are `rel_path`.  Matching depends on the pattern and the path alone.
pub uninterp spec fn glob_matches(pattern: Seq<char>, rel_path: Seq<Seq<char>>) -> bool;

/// Whether some pattern of `pats` matches the path whose components are
/// `rel_path`.
pub open spec fn any_glob_matches(pats: Seq<Seq<char>>, rel_path: Seq<Seq<char>>) -> bool {
    exists|i: int| 0 <= i < pats.len() && #[trigger] glob_matches(pats[i], rel_path)
}

/// Relies on globset::Glob::new: whether a pattern compiles is decided by
/// the pattern alone, a successfully compiled glob keeps the pattern it was
/// built from, and a malformed pattern is reported as an error.
#[verifier::external_body]
pub(crate) fn glob_new(pattern: &str) -> (r: Result<globset::Glob, globset::Error>)
    ensures
        r is Ok <==> glob_compiles(pattern@),
        (r matches Ok(g) ==> glob_pattern(g) == pattern@),
{
    globset::Glob::new(pattern)
}

/// Relies on globset::GlobSetBuilder::new: a fresh builder holds no patterns.
#[verifier::external_body]
pub(crate) fn glob_set_builder_new() -> (r: globset::GlobSetBuilder)
    ensures
        builder_patterns(r) == Seq::<Seq<char>>::empty(),
{
    globset::GlobSetBuilder::new()
}

/// Relies on globset::GlobSetBuilder::add: adding a glob appends its pattern
/// to the builder.
#[verifier::external_body]
pub(crate) fn glob_set_builder_add(b: &mut globset::GlobSetBuilder, g: globset::Glob)
    ensures
        builder_patterns(*final(b)) == builder_patterns(*old(b)).push(glob_pattern(g)),
{
    b.add(g);
}

/// Relies on globset::GlobSetBuilder::build: whether the combined matcher
/// can be built is decided by the added patterns alone, and a successfully
/// built set holds the globs added to the builder.
#[verifier::external_body]
pub(crate) fn glob_set_build(b: &globset::GlobSetBuilder) -> (r: Result<
    globset::GlobSet,
    globset::Error,
>)
    ensures
        r is Ok <==> glob_set_builds(builder_patterns(*b)),
        (r matches Ok(s) ==> set_patterns(s) == builder_patterns(*b)),
{
    b.build()
}

/// Relies on globset::GlobSet::is_match: a set matches a path exactly when
/// one of its globs does.
#[verifier::external_body]
pub(crate) fn glob_set_is_match(s: &globset::GlobSet, rel_path: &Vec<String>) -> (r: bool)
    ensures
        r == (exists|i: int| 0 <= i < set_patterns(*s).len() && #[trigger] glob_matches(set_patterns(*s)[i], rel_path.deep_view())),
{
    let p: std::path::PathBuf = rel_path.iter().collect();
    s.is_match(&p)
}

} // verus!
