//! Discovery of artifact candidates under a scan root.

use crate::artifact_type::ArtifactType;
use crate::artifact_type::ArtifactTypeModel;
use crate::globs::any_glob_matches;
use crate::globs::glob_compiles;
use crate::globs::glob_new;
use crate::globs::glob_set_builds;
use crate::globs::glob_set_build;
use crate::globs::glob_set_builder_add;
use crate::globs::glob_set_builder_new;
use crate::globs::glob_set_is_match;
use crate::globs::set_patterns;
use crate::paths::contains_name;
use crate::paths::copy_range;
use crate::paths::is_component_prefix;
use crate::types::ArtifactCandidate;
use crate::types::Size;
use crate::walk::list_dir_entries;
use crate::walk::walk_new;
use crate::walk::walk_next;
use crate::walk::NamedEntry;
use vstd::prelude::*;

verus! {

/// The models of a sequence of artifact types, in registration order.
pub open spec fn type_models(types: Seq<ArtifactType>) -> Seq<ArtifactTypeModel> {
    types.map(|i: int, t: ArtifactType| t@)
}

/// Whether every name in `files` occurs among the names in `present`.
pub open spec fn all_markers_present(files: Seq<Seq<char>>, present: Seq<Seq<char>>) -> bool {
    forall|i: int| 0 <= i < files.len() ==> #[trigger] present.contains(files[i])
}

/// Whether the type `t` claims a directory whose entries are named
/// `present`: every marker file of `t` must be among them.  A type without
/// marker files claims any directory.
pub open spec fn type_claims(t: ArtifactTypeModel, present: Seq<Seq<char>>) -> bool {
    all_markers_present(t.files, present)
}

/// The first type of `types`, in order, that claims a directory whose
/// entries are named `present`; nothing if no type claims it.
pub open spec fn detect_model(present: Seq<Seq<char>>, types: Seq<ArtifactTypeModel>) -> Option<
    ArtifactTypeModel,
>
    decreases types.len(),
{
    if types.len() == 0 {
        None
    } else if type_claims(types[0], present) {
        Some(types[0])
    } else {
        detect_model(present, types.skip(1))
    }
}

/// Detection evaluates the registered types in order and returns the first
/// whose marker files all occur in `present`, the names of the entries of a
/// candidate's parent directory.
pub fn detect_artifact_type(present: &Vec<String>, artifact_types: &Vec<ArtifactType>) -> (r:
    Option<ArtifactType>)
    ensures
        r.deep_view() == detect_model(present.deep_view(), type_models(artifact_types@)),
{
    proof {
        assert(type_models(artifact_types@).skip(0) =~= type_models(artifact_types@));
    }
    for k in 0..artifact_types.len()
        invariant
            detect_model(present.deep_view(), type_models(artifact_types@)) == detect_model(
                present.deep_view(),
                type_models(artifact_types@).skip(k as int),
            ),
    {
        let files = artifact_types[k].recognized_files();
        let mut all_present = true;
        for j in 0..files.len()
            invariant
                files.deep_view() == artifact_types@[k as int]@.files,
                all_present == (forall|l: int|
                    0 <= l < j ==> #[trigger] present.deep_view().contains(files.deep_view()[l])),
        {
            let c = contains_name(present, &files[j]);
            proof {
                assert(files.deep_view()[j as int] == files@[j as int]@);
            }
            all_present = all_present && c;
        }
        if all_present {
            proof {
                let models = type_models(artifact_types@);
                assert(models.skip(k as int)[0] == models[k as int]);
                assert(type_claims(models[k as int], present.deep_view()));
                assert(detect_model(present.deep_view(), models) == Some(models[k as int]));
            }
            return Some(artifact_types[k].duplicate());
        }
        proof {
            let models = type_models(artifact_types@);
            assert(models.skip(k as int)[0] == models[k as int]);
            assert(!type_claims(models[k as int], present.deep_view()));
            assert(models.skip(k as int).skip(1) =~= models.skip(k as int + 1));
        }
    }
    proof {
        assert(type_models(artifact_types@).skip(artifact_types@.len() as int) =~= Seq::<
            ArtifactTypeModel,
        >::empty());
    }
    None
}

/// Detection finds a type exactly when some registered type claims the
/// directory, and what it finds is a registered type that claims it.
pub proof fn lemma_detection_exact(present: Seq<Seq<char>>, types: Seq<ArtifactTypeModel>)
    ensures
        (detect_model(present, types) is Some) <==> (exists|i: int|
            0 <= i < types.len() && type_claims(#[trigger] types[i], present)),
        (detect_model(present, types) matches Some(t) ==> type_claims(t, present)
            && types.contains(t)),
    decreases types.len(),
{
    if types.len() == 0 {
    } else if type_claims(types[0], present) {
        assert(types.contains(types[0]));
    } else {
        lemma_detection_exact(present, types.skip(1));
        if detect_model(present, types) is Some {
            let t = detect_model(present, types)->Some_0;
            let k = choose|k: int|
                0 <= k < types.skip(1).len() && types.skip(1)[k] == t;
            assert(types[k + 1] == t);
            assert(types.contains(t));
        }
        if exists|i: int| 0 <= i < types.len() && type_claims(#[trigger] types[i], present) {
            let i = choose|i: int| 0 <= i < types.len() && type_claims(#[trigger] types[i], present);
            assert(types.skip(1)[i - 1] == types[i]);
        }
    }
}

/// A type whose marker files are all present in a directory claims it, and
/// registered alone it is exactly what detection returns.
pub proof fn lemma_sole_claiming_type_detected(present: Seq<Seq<char>>, t: ArtifactTypeModel)
    requires
        type_claims(t, present),
    ensures
        detect_model(present, seq![t]) == Some(t),
{
    assert(seq![t][0] == t);
}

/// Where two registered types would both claim a directory, detection
/// returns the one registered earlier of the two — or one registered
/// earlier still, never the later one.
pub proof fn lemma_earlier_registration_wins(
    present: Seq<Seq<char>>,
    types: Seq<ArtifactTypeModel>,
    i: int,
    j: int,
)
    requires
        0 <= i < j < types.len(),
        type_claims(types[i], present),
        type_claims(types[j], present),
    ensures
        exists|k: int|
            0 <= k <= i && detect_model(present, types) == Some(#[trigger] types[k]) && type_claims(
                types[k],
                present,
            ),
    decreases i,
{
    if type_claims(types[0], present) {
        assert(0 <= 0 <= i && detect_model(present, types) == Some(types[0]) && type_claims(
            types[0],
            present,
        ));
    } else {
        assert(i > 0);
        assert(types.skip(1)[i - 1] == types[i]);
        assert(types.skip(1)[j - 1] == types[j]);
        lemma_earlier_registration_wins(present, types.skip(1), i - 1, j - 1);
        let k0 = choose|k: int|
            0 <= k <= i - 1 && detect_model(present, types.skip(1)) == Some(
                #[trigger] types.skip(1)[k],
            ) && type_claims(types.skip(1)[k], present);
        assert(types.skip(1)[k0] == types[k0 + 1]);
        assert(0 <= k0 + 1 <= i && detect_model(present, types) == Some(types[k0 + 1])
            && type_claims(types[k0 + 1], present));
    }
}

/// The glob patterns of a sequence of type models, in registration order.
pub open spec fn patterns_of(types: Seq<ArtifactTypeModel>) -> Seq<Seq<char>> {
    types.map(|i: int, t: ArtifactTypeModel| t.pattern)
}

/// Whether every registered type's pattern compiles.
pub open spec fn all_patterns_compile(types: Seq<ArtifactTypeModel>) -> bool {
    forall|i: int| 0 <= i < types.len() ==> #[trigger] glob_compiles(types[i].pattern)
}

/// Whether the combined matcher over the registered types can be made: every
/// pattern compiles and the set builds from them.
pub open spec fn matcher_possible(types: Seq<ArtifactTypeModel>) -> bool {
    all_patterns_compile(types) && glob_set_builds(patterns_of(types))
}

/// Compiles the combined matcher from every registered type's pattern.  It
/// succeeds exactly when every pattern compiles and the set builds from
/// them, and the built set then holds the patterns in registration order.
fn mk_global_set(artifact_types: &Vec<ArtifactType>) -> (r: Result<
    globset::GlobSet,
    globset::Error,
>)
    ensures
        r is Ok <==> matcher_possible(type_models(artifact_types@)),
        (r matches Ok(s) ==> set_patterns(s) == patterns_of(type_models(artifact_types@))),
{
    let mut builder = glob_set_builder_new();
    proof {
        assert(patterns_of(type_models(artifact_types@)).take(0) =~= Seq::<Seq<char>>::empty());
    }
    for k in 0..artifact_types.len()
        invariant
            crate::globs::builder_patterns(builder) == patterns_of(
                type_models(artifact_types@),
            ).take(k as int),
            forall|l: int|
                0 <= l < k ==> #[trigger] glob_compiles(type_models(artifact_types@)[l].pattern),
    {
        let g = match glob_new(artifact_types[k].pattern()) {
            Ok(g) => g,
            Err(e) => {
                proof {
                    assert(!glob_compiles(type_models(artifact_types@)[k as int].pattern));
                }
                return Err(e);
            },
        };
        glob_set_builder_add(&mut builder, g);
        proof {
            assert(crate::globs::builder_patterns(builder) =~= patterns_of(
                type_models(artifact_types@),
            ).take(k as int + 1));
        }
    }
    proof {
        assert(patterns_of(type_models(artifact_types@)).take(artifact_types@.len() as int)
            =~= patterns_of(type_models(artifact_types@)));
    }
    glob_set_build(&builder)
}

/// The names among `entries` that name regular files, in order.
pub open spec fn file_names_of(entries: Seq<NamedEntry>) -> Seq<Seq<char>>
    decreases entries.len(),
{
    if entries.len() == 0 {
        Seq::empty()
    } else {
        let rest = file_names_of(entries.drop_last());
        if entries.last().is_file {
            rest.push(entries.last().name@)
        } else {
            rest
        }
    }
}

/// Keeps, of the listed entries, the names of the regular files: only those
/// can confirm an artifact type as marker files.
pub fn file_names(entries: &Vec<NamedEntry>) -> (r: Vec<String>)
    ensures
        r.deep_view() == file_names_of(entries@),
{
    let mut r: Vec<String> = Vec::new();
    for i in 0..entries.len()
        invariant
            r.deep_view() == file_names_of(entries@.take(i as int)),
    {
        proof {
            assert(entries@.take(i as int + 1).drop_last() =~= entries@.take(i as int));
            assert(entries@.take(i as int + 1).last() == entries@[i as int]);
        }
        if entries[i].is_file {
            let ghost before = r.deep_view();
            r.push(entries[i].name.clone());
            proof {
                assert(r.deep_view() =~= before.push(entries@[i as int].name@));
            }
        }
    }
    proof {
        assert(entries@.take(entries@.len() as int) =~= entries@);
    }
    r
}

/// What discovery promises of every candidate it reports: the size is not
/// yet measured, the path extends the scan root, the part of the path below
/// the root matches one of the registered patterns, and the type is what
/// detection returns, in registration order, for some listing of the names
/// in the candidate's parent directory.
pub open spec fn scanned_candidate(
    c: ArtifactCandidate,
    root: Seq<Seq<char>>,
    types: Seq<ArtifactType>,
) -> bool {
    &&& c.size == Size::UnknownSize
    &&& root.len() <= c.path.deep_view().len()
    &&& c.path.deep_view().take(root.len() as int) == root
    &&& any_glob_matches(
        patterns_of(type_models(types)),
        c.path.deep_view().skip(root.len() as int),
    )
    &&& exists|present: Seq<Seq<char>>|
        c.art_type.deep_view() == #[trigger] detect_model(present, type_models(types))
}

/// Walks every directory under `root_path`, matches its path relative to the
/// root against the combined patterns of `artifact_types`, and reports each
/// match as a candidate whose type is detected from the names in the match's
/// parent directory.
///
/// A pattern that does not compile yields an empty result rather than an
/// error, and parts of the tree that cannot be read are skipped silently.
/// Candidates come in the walk's own order; callers that need determinism
/// sort them.
pub fn fetch_artifacts(root_path: &Vec<String>, artifact_types: &Vec<ArtifactType>) -> (r: Vec<
    ArtifactCandidate,
>)
    ensures
        forall|i: int|
            0 <= i < r@.len() ==> #[trigger] scanned_candidate(
                r@[i],
                root_path.deep_view(),
                artifact_types@,
            ),
        !matcher_possible(type_models(artifact_types@)) ==> r@ == Seq::<
            ArtifactCandidate,
        >::empty(),
{
    let set = match mk_global_set(artifact_types) {
        Err(_) => {
            return Vec::new();
        },
        Ok(s) => s,
    };
    let mut out: Vec<ArtifactCandidate> = Vec::new();
    let mut walker = walk_new(root_path);
    // A walk of a finite tree yields finitely many entries; the counter
    // bounds the loop so that it provably ends.
    let mut fuel: usize = usize::MAX;
    while fuel > 0
        invariant
            set_patterns(set) == patterns_of(type_models(artifact_types@)),
            forall|i: int|
                0 <= i < out@.len() ==> #[trigger] scanned_candidate(
                    out@[i],
                    root_path.deep_view(),
                    artifact_types@,
                ),
        decreases fuel,
    {
        fuel = fuel - 1;
        match walk_next(&mut walker) {
            None => {
                break ;
            },
            Some(Err(_)) => {},
            Some(Ok(entry)) => {
                if entry.is_dir && entry.path.len() > 0 && is_component_prefix(
                    root_path,
                    &entry.path,
                ) {
                    let rel = copy_range(&entry.path, root_path.len(), entry.path.len());
                    if glob_set_is_match(&set, &rel) {
                        let parent = copy_range(&entry.path, 0, entry.path.len() - 1);
                        let present = file_names(&list_dir_entries(&parent));
                        let art = detect_artifact_type(&present, artifact_types);
                        let candidate = ArtifactCandidate::builder(entry.path).art_type(
                            art,
                        ).build();
                        proof {
                            assert(rel.deep_view() =~= candidate.path.deep_view().skip(
                                root_path.deep_view().len() as int,
                            ));
                            assert(scanned_candidate(
                                candidate,
                                root_path.deep_view(),
                                artifact_types@,
                            )) by {
                                assert(candidate.art_type.deep_view() == detect_model(
                                    present.deep_view(),
                                    type_models(artifact_types@),
                                ));
                            }
                        }
                        out.push(candidate);
                    }
                }
            },
        }
    }
    out
}

} // verus!
