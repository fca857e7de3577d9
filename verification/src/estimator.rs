//! Measuring the disk usage of candidates and summing it up.

use crate::types::ArtifactCandidate;
use crate::types::Size;
use crate::walk::walk_new;
use crate::walk::walk_next;
use crate::walk::WalkEntry;
use vstd::prelude::*;

verus! {

/// The byte count a size contributes to a total: a known size contributes
/// its bytes, an unknown size contributes zero.
pub open spec fn size_bytes(s: Size) -> nat {
    match s {
        Size::UnknownSize => 0,
        Size::KnownSize(b) => b as nat,
    }
}

/// The sum of the byte counts of a sequence of sizes.
pub open spec fn sum_size_bytes(sizes: Seq<Size>) -> nat
    decreases sizes.len(),
{
    if sizes.len() == 0 {
        0
    } else {
        sum_size_bytes(sizes.drop_last()) + size_bytes(sizes.last())
    }
}

/// The sizes carried by a sequence of sizable values.
pub open spec fn sizes_of<S: Sizable>(s: Seq<S>) -> Seq<Size> {
    s.map(|i: int, x: S| x.size_spec())
}

/// No prefix of a sequence of sizes sums to more than the whole sequence.
pub proof fn lemma_sum_of_prefix_bounded(sizes: Seq<Size>, i: int)
    requires
        0 <= i <= sizes.len(),
    ensures
        sum_size_bytes(sizes.take(i)) <= sum_size_bytes(sizes),
    decreases sizes.len() - i,
{
    if i == sizes.len() {
        assert(sizes.take(i) =~= sizes);
    } else {
        lemma_sum_of_prefix_bounded(sizes, i + 1);
        assert(sizes.take(i + 1).drop_last() =~= sizes.take(i));
        assert(sum_size_bytes(sizes.take(i + 1)) == sum_size_bytes(sizes.take(i)) + size_bytes(
            sizes[i],
        ));
    }
}

/// Things that carry a [`Size`].
pub trait Sizable {
    /// The size this value carries.
    spec fn size_spec(&self) -> Size;

    /// Returns the carried size.
    fn get_size(&self) -> (s: &Size)
        ensures
            *s == self.size_spec(),
    ;

    /// The byte count this value contributes to a total: its size's bytes if
    /// known, zero otherwise.
    fn bytes(&self) -> (b: u64)
        ensures
            b == size_bytes(self.size_spec()),
    {
        match self.get_size() {
            Size::UnknownSize => 0,
            Size::KnownSize(b) => *b,
        }
    }
}

impl Sizable for ArtifactCandidate {
    open spec fn size_spec(&self) -> Size {
        self.size
    }

    fn get_size(&self) -> (s: &Size) {
        &self.size
    }
}

impl Sizable for Size {
    open spec fn size_spec(&self) -> Size {
        *self
    }

    fn get_size(&self) -> (s: &Size) {
        self
    }
}

/// Sums the sizes of `sizables`.
///
/// A known size contributes its bytes and an unknown size contributes
/// exactly zero, so the aggregate is always a known size, never an unknown
/// one — callers must not mistake a low aggregate for a precise one when the
/// inputs include unknown sizes.
pub fn total_size<S: Sizable>(sizables: &[S]) -> (r: Size)
    requires
        sum_size_bytes(sizes_of(sizables@)) <= u64::MAX,
    ensures
        r == Size::KnownSize(sum_size_bytes(sizes_of(sizables@)) as u64),
{
    let mut total: u64 = 0;
    for i in 0..sizables.len()
        invariant
            sum_size_bytes(sizes_of(sizables@)) <= u64::MAX,
            total == sum_size_bytes(sizes_of(sizables@).take(i as int)),
    {
        proof {
            lemma_sum_of_prefix_bounded(sizes_of(sizables@), i as int + 1);
            assert(sizes_of(sizables@).take(i as int + 1).drop_last() =~= sizes_of(
                sizables@,
            ).take(i as int));
        }
        total = total + sizables[i].bytes();
    }
    proof {
        assert(sizes_of(sizables@).take(sizables@.len() as int) =~= sizes_of(sizables@));
    }
    Size::KnownSize(total)
}

/// One step of a directory walk, as the estimator sees it: an entry that
/// could be read, or a part of the tree that could not.
pub enum WalkEvent {
    Entry(WalkEntry),
    Unreadable,
}

/// The sum `total + b`, clamped at the largest 64-bit value.
pub open spec fn clamped_add(total: u64, b: u64) -> u64 {
    if total + b <= u64::MAX {
        (total + b) as u64
    } else {
        u64::MAX
    }
}

/// What one walk entry adds to a running byte total: a regular file whose
/// metadata could be read contributes its length, clamped; anything else —
/// a directory, a symbolic link, a file whose metadata could not be read —
/// contributes nothing.
pub open spec fn tally_spec(total: u64, e: WalkEntry) -> u64 {
    if e.is_file && e.len is Some {
        clamped_add(total, e.len->0)
    } else {
        total
    }
}

/// The byte total over the events of one walk: each readable regular file's
/// length, clamped at the largest 64-bit value; unreadable parts and
/// entries that are not regular files contribute nothing.
pub open spec fn walked_bytes(events: Seq<WalkEvent>) -> u64
    decreases events.len(),
{
    if events.len() == 0 {
        0
    } else {
        let rest = walked_bytes(events.drop_last());
        match events.last() {
            WalkEvent::Entry(e) => tally_spec(rest, e),
            WalkEvent::Unreadable => rest,
        }
    }
}

/// The size that one walk's events measure: unknown exactly when the walk
/// could not start — its first event is an unreadable one — and otherwise
/// the byte total of the walked regular files.
pub open spec fn measured_size(events: Seq<WalkEvent>) -> Size {
    if events.len() > 0 && events[0] is Unreadable {
        Size::UnknownSize
    } else {
        Size::KnownSize(walked_bytes(events))
    }
}

/// The measuring pass yields an unknown size exactly when the walk could
/// not start; a walk that starts always measures a known size, however many
/// of its later entries were unreadable.
pub proof fn lemma_unknown_iff_walk_cannot_start(events: Seq<WalkEvent>)
    ensures
        measured_size(events) is UnknownSize <==> (events.len() > 0
            && events[0] is Unreadable),
{
}

/// An unreadable entry anywhere in a walk contributes nothing to the byte
/// total: per-entry errors are skipped, never summed and never fatal.
pub proof fn lemma_unreadable_entry_adds_nothing(events: Seq<WalkEvent>, i: int)
    requires
        0 <= i <= events.len(),
    ensures
        walked_bytes(events.insert(i, WalkEvent::Unreadable)) == walked_bytes(events),
    decreases events.len(),
{
    let inserted = events.insert(i, WalkEvent::Unreadable);
    if i == events.len() {
        assert(inserted.drop_last() =~= events);
        assert(inserted.last() == WalkEvent::Unreadable);
    } else {
        assert(inserted.last() == events.last());
        assert(inserted.drop_last() =~= events.drop_last().insert(i, WalkEvent::Unreadable));
        lemma_unreadable_entry_adds_nothing(events.drop_last(), i);
    }
}

/// Adds one walk entry's contribution to a running byte total: a regular
/// file's length, clamped at the largest 64-bit value; anything else adds
/// nothing.
pub fn tally(total: u64, e: &WalkEntry) -> (r: u64)
    ensures
        r == tally_spec(total, *e),
{
    if e.is_file {
        if let Some(n) = e.len {
            total.saturating_add(n)
        } else {
            total
        }
    } else {
        total
    }
}

/// The measuring pass over the events of one walk: unknown when the walk
/// could not start, else the clamped byte total of the regular files among
/// the events.
pub fn measure(events: &Vec<WalkEvent>) -> (r: Size)
    ensures
        r == measured_size(events@),
{
    if events.len() > 0 {
        match &events[0] {
            WalkEvent::Unreadable => {
                return Size::UnknownSize;
            },
            WalkEvent::Entry(_) => {},
        }
    }
    let mut total: u64 = 0;
    for i in 0..events.len()
        invariant
            total == walked_bytes(events@.take(i as int)),
    {
        proof {
            assert(events@.take(i as int + 1).drop_last() =~= events@.take(i as int));
            assert(events@.take(i as int + 1).last() == events@[i as int]);
        }
        match &events[i] {
            WalkEvent::Entry(e) => {
                total = tally(total, e);
            },
            WalkEvent::Unreadable => {},
        }
    }
    proof {
        assert(events@.take(events@.len() as int) =~= events@);
    }
    Size::KnownSize(total)
}

/// Gathers the events of one walk of the tree under the path with the given
/// components.  What comes back depends on the filesystem.
fn collect_walk(path: &Vec<String>) -> Vec<WalkEvent> {
    let mut walker = walk_new(path);
    let mut events: Vec<WalkEvent> = Vec::new();
    // A walk of a finite tree yields finitely many entries; the counter
    // bounds the loop so that it provably ends.
    let mut fuel: usize = usize::MAX;
    while fuel > 0
        decreases fuel,
    {
        fuel = fuel - 1;
        match walk_next(&mut walker) {
            None => {
                break ;
            },
            Some(Err(_)) => {
                events.push(WalkEvent::Unreadable);
            },
            Some(Ok(entry)) => {
                events.push(WalkEvent::Entry(entry));
            },
        }
    }
    events
}

/// Walks the tree under the path with the given components and measures the
/// disk usage of the regular files in it, without following symbolic links.
/// The result is what [`measure`] makes of the walk's events: unknown only
/// when the walk cannot start at all — the path has vanished, say — and
/// otherwise the clamped byte total, with unreadable entries skipped.
pub fn estimate_path(path: &Vec<String>) -> (r: Size)
    ensures
        exists|events: Seq<WalkEvent>| r == #[trigger] measured_size(events),
{
    let events = collect_walk(path);
    measure(&events)
}

/// Measures the disk usage under the candidate's path and stores it in the
/// candidate's size, leaving the path and the detected type unchanged.  The
/// stored size is what the measuring pass produced for the walk's events.
pub fn estimate(artifact: &mut ArtifactCandidate)
    ensures
        final(artifact).path == old(artifact).path,
        final(artifact).art_type == old(artifact).art_type,
        exists|events: Seq<WalkEvent>| final(artifact).size == #[trigger] measured_size(events),
{
    let size = estimate_path(&artifact.path);
    artifact.size = size;
}

} // verus!
