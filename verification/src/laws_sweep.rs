//! What the sweep of the blob directory comes to.

use vstd::prelude::*;
use crate::datalith_errors::DatalithReadError;
use crate::model::World;
use crate::operation::drive;
use crate::operation::lemma_drive_finish;
use crate::operation::lemma_drive_unfold;
use crate::operation::Operation;
use crate::step::DirectoryEntryView;
use crate::step::EntryKind;
use crate::step::ReplyView;
use crate::sweep::one_more;
use crate::sweep::ClearUntracked;
use crate::sweep::ClearUntrackedView;
use crate::text::parse_hex32_spec;

verus! {

/// The store and the result after a sweep of the blob directory.
pub open spec fn clear_untracked_files(world: World) -> (
    World,
    Option<Result<usize, DatalithReadError>>,
) {
    let (state, step) = ClearUntrackedView::begin();
    drive::<ClearUntracked>(world, state, step, 4 * world.listing().len() + 3)
}

/// Whether the sweep leaves the blob of a file alone: the file is live, or
/// a reader pins it.
pub open spec fn is_kept(world: World, id: u128) -> bool {
    ||| world.tables.files.contains_key(id) && world.tables.files[id].is_live(world.now)
    ||| world.registry.opening.contains_key(id)
}

/// Whether an entry from `from` on names the file `id`.
pub open spec fn is_listed(entries: Seq<DirectoryEntryView>, from: int, id: u128) -> bool {
    exists|j: int|
        from <= j < entries.len() && parse_hex32_spec((#[trigger] entries[j]).name) == Some(id)
}

/// Whether every entry from `from` on is a file with the name of a blob.
pub open spec fn are_blobs(entries: Seq<DirectoryEntryView>, from: int) -> bool {
    forall|i: int|
        from <= i < entries.len() ==> (#[trigger] entries[i]).kind == EntryKind::File
            && parse_hex32_spec(entries[i].name) is Some
}

/// The blobs that the sweep leaves, of the entries from `from` on: every
/// blob that is kept or is not listed there.
pub open spec fn swept(world: World, entries: Seq<DirectoryEntryView>, from: int) -> Set<u128> {
    Set::new(
        |id: u128| world.blobs.contains(id) && (is_kept(world, id) || !is_listed(entries, from, id)),
    )
}

proof fn lemma_listed_from(entries: Seq<DirectoryEntryView>, index: int, id: u128, other: u128)
    requires
        0 <= index < entries.len(),
        parse_hex32_spec(entries[index].name) == Some(id),
    ensures
        is_listed(entries, index, other) <==> (other == id || is_listed(entries, index + 1, other)),
{
    if is_listed(entries, index, other) {
        let j = choose|j: int|
            index <= j < entries.len() && parse_hex32_spec((#[trigger] entries[j]).name) == Some(
                other,
            );
        if j != index {
            assert(index + 1 <= j);
            assert(is_listed(entries, index + 1, other));
        }
    }
    if is_listed(entries, index + 1, other) {
        let j = choose|j: int|
            index + 1 <= j < entries.len() && parse_hex32_spec((#[trigger] entries[j]).name)
                == Some(other);
        assert(index <= j);
        assert(is_listed(entries, index, other));
    }
    if other == id {
        assert(parse_hex32_spec(entries[index].name) == Some(other));
        assert(is_listed(entries, index, other));
    }
}

/// The sweep from an entry on: it ends, it changes nothing but the blobs,
/// and of the blobs it removes those that are listed from that entry on and
/// are not kept.
pub proof fn lemma_sweep_runs(
    world: World,
    entries: Seq<DirectoryEntryView>,
    index: usize,
    removed: usize,
    fuel: nat,
)
    requires
        index <= entries.len(),
        entries.len() < usize::MAX,
        are_blobs(entries, index as int),
        fuel >= 4 * (entries.len() - index) + 1,
    ensures
        drive::<ClearUntracked>(
            world,
            ClearUntrackedView::visit(entries, index, removed).0,
            ClearUntrackedView::visit(entries, index, removed).1,
            fuel,
        ).1 matches Some(Ok(_)),
        drive::<ClearUntracked>(
            world,
            ClearUntrackedView::visit(entries, index, removed).0,
            ClearUntrackedView::visit(entries, index, removed).1,
            fuel,
        ).0 == (World { blobs: swept(world, entries, index as int), ..world }),
    decreases entries.len() - index,
{
    let (s0, q0) = ClearUntrackedView::visit(entries, index, removed);
    if index < entries.len() {
        let entry = entries[index as int];
        let id = parse_hex32_spec(entry.name).unwrap();
        let next = one_more(index);
        assert(next == index + 1);
        assert forall|other: u128|
            is_listed(entries, index as int, other) <==> (other == id || is_listed(
                entries,
                index + 1,
                other,
            )) by {
            lemma_listed_from(entries, index as int, id, other);
        }
        lemma_drive_unfold::<ClearUntracked>(world, s0, q0, fuel);
        let (w1, r1) = world.perform(q0);
        assert(w1 == world && r1 == ReplyView::Time(world.now));
        let (s1, q1) = ClearUntracked::advance(s0, r1);
        lemma_drive_unfold::<ClearUntracked>(w1, s1, q1, (fuel - 1) as nat);
        let (w2, r2) = w1.perform(q1);
        assert(w2 == world);
        let live = world.tables.files.contains_key(id) && world.tables.files[id].is_live(
            world.now,
        );
        assert(r2 == ReplyView::Flag(live));
        let (s2, q2) = ClearUntracked::advance(s1, r2);
        if live {
            assert((s2, q2) == ClearUntrackedView::visit(entries, next, removed));
            lemma_sweep_runs(world, entries, next, removed, (fuel - 2) as nat);
            assert(is_kept(world, id));
            assert(swept(world, entries, index + 1) =~= swept(world, entries, index as int));
        } else {
            lemma_drive_unfold::<ClearUntracked>(w2, s2, q2, (fuel - 2) as nat);
            let (w3, r3) = w2.perform(q2);
            assert(w3 == world);
            let pinned = world.registry.opening.contains_key(id);
            assert(r3 == ReplyView::Flag(pinned));
            let (s3, q3) = ClearUntracked::advance(s2, r3);
            if pinned {
                assert((s3, q3) == ClearUntrackedView::visit(entries, next, removed));
                lemma_sweep_runs(world, entries, next, removed, (fuel - 3) as nat);
                assert(is_kept(world, id));
                assert(swept(world, entries, index + 1) =~= swept(world, entries, index as int));
            } else {
                lemma_drive_unfold::<ClearUntracked>(w3, s3, q3, (fuel - 3) as nat);
                let (w4, r4) = w3.perform(q3);
                let (s4, q4) = ClearUntracked::advance(s3, r4);
                assert((s4, q4) == ClearUntrackedView::visit(entries, next, one_more(removed)));
                assert(w4.blobs =~= world.blobs.remove(id));
                assert(w4 == World { blobs: world.blobs.remove(id), ..world });
                assert(!is_kept(world, id));
                lemma_sweep_runs(w4, entries, next, one_more(removed), (fuel - 4) as nat);
                assert forall|other: u128| is_kept(w4, other) == is_kept(world, other) by {}
                assert(swept(w4, entries, index + 1) =~= swept(world, entries, index as int));
            }
        }
    } else {
        lemma_drive_finish::<ClearUntracked>(world, s0, Ok(removed), fuel);
        assert forall|id: u128| !is_listed(entries, index as int, id) by {}
        assert(swept(world, entries, index as int) =~= world.blobs);
    }
}

/// After the sweep of the blob directory every blob belongs to a live file
/// or is pinned, and every blob that belongs to a live file or is pinned is
/// still there; the sweep changes nothing else.
pub proof fn law_sweep_leaves_tracked_blobs(world: World)
    requires
        exists|entries: Seq<DirectoryEntryView>| world.lists(entries),
        world.listing().len() < usize::MAX,
    ensures
        ({
            let (after, result) = clear_untracked_files(world);
            &&& result matches Some(Ok(_))
            &&& after.files_cover_blobs()
            &&& after == World { blobs: after.blobs, ..world }
            &&& forall|id: u128|
                after.blobs.contains(id) <==> world.blobs.contains(id) && is_kept(world, id)
            &&& world.blobs_cover_files() ==> after.blobs_cover_files()
        }),
{
    let entries = world.listing();
    assert(world.lists(entries));
    let (s0, q0) = ClearUntrackedView::begin();
    let fuel = (4 * entries.len() + 3) as nat;
    lemma_drive_unfold::<ClearUntracked>(world, s0, q0, fuel);
    let (w1, r1) = world.perform(q0);
    assert(w1 == world && r1 == ReplyView::Done);
    let (s1, q1) = ClearUntracked::advance(s0, r1);
    lemma_drive_unfold::<ClearUntracked>(w1, s1, q1, (fuel - 1) as nat);
    let (w2, r2) = w1.perform(q1);
    assert(w2 == world && r2 == ReplyView::Entries(entries));
    let (s2, q2) = ClearUntracked::advance(s1, r2);
    assert((s2, q2) == ClearUntrackedView::visit(entries, 0, 0));
    assert(are_blobs(entries, 0));
    lemma_sweep_runs(world, entries, 0, 0, (fuel - 2) as nat);
    let (after, result) = clear_untracked_files(world);
    assert(after.blobs == swept(world, entries, 0));
    assert forall|id: u128|
        after.blobs.contains(id) <==> world.blobs.contains(id) && is_kept(world, id) by {
        if world.blobs.contains(id) {
            let j = choose|j: int|
                0 <= j < entries.len() && parse_hex32_spec((#[trigger] entries[j]).name) == Some(
                    id,
                );
            assert(is_listed(entries, 0, id));
        }
    }
}

} // verus!
