//! The laws of the file store.

use vstd::prelude::*;
use crate::functions::resolved_file_type;
use crate::guard::GuardRequestView;
use crate::laws::can_get;
use crate::laws::get_file;
use crate::laws::lemma_get_file_runs;
use crate::laws_delete::delete_file;
use crate::laws_delete::lemma_delete_file_runs;
use crate::laws_delete::lemma_delete_shared_file_runs;
use crate::laws_put::can_put;
use crate::laws_put::finds_file;
use crate::laws_put::lemma_put_file_runs;
use crate::laws_put::measured;
use crate::laws_put::model_detected;
use crate::laws_put::put_file;
use crate::model::World;
use crate::put_file::PutRequestView;

verus! {

/// Whether the media type of a put resolves, so that the put stores a file.
pub open spec fn type_resolves(world: World, request: PutRequestView) -> bool {
    resolved_file_type(
        measured(world, request).file_type,
        model_detected(measured(world, request)),
    ) is Ok
}

/// The store after one handle on a file has been dropped.
pub open spec fn dropped(world: World, id: u128) -> World {
    world.guarded(GuardRequestView::ReleaseOpen(id))
}

/// Deduplication and reference count. Two puts of one permanent payload
/// give two handles on one file, whose count is two. A delete then leaves the
/// file with a count of one and its blob in place; once the handles are
/// dropped, another delete removes the row and the blob.
pub proof fn law_dedup_and_refcount(
    world: World,
    first: PutRequestView,
    second: PutRequestView,
    later: i64,
)
    requires
        !first.temporary,
        !second.temporary,
        first.hash == second.hash,
        world.now <= later,
        can_put(world, first),
        !world.tables.has_live_hash(first.hash, world.now),
        type_resolves(world, first),
        !world.registry.deleting.contains(first.id),
        !world.tables.is_referenced(first.id),
    ensures
        ({
            let id = first.id;
            let (w1, r1) = put_file(world, first);
            let (w2, r2) = put_file(w1.at(later), second);
            let (w3, r3) = delete_file(w2, id);
            let (w4, r4) = delete_file(dropped(dropped(w3, id), id), id);
            &&& r1 matches Some(Ok(f1))
            &&& r2 matches Some(Ok(f2))
            &&& f1.id == id && f1.is_new
            &&& f2.id == id && !f2.is_new
            &&& w2.tables.files.dom() == world.tables.files.dom().insert(id)
            &&& w2.tables.files[id].count == 2
            &&& r3 == Some(Ok::<bool, crate::datalith_errors::DatalithReadError>(true))
            &&& w3.tables.files.contains_key(id)
            &&& w3.tables.files[id].count == 1
            &&& w3.blobs.contains(id)
            &&& r4 == Some(Ok::<bool, crate::datalith_errors::DatalithReadError>(true))
            &&& !w4.tables.files.contains_key(id)
            &&& !w4.blobs.contains(id)
        }),
{
    let id = first.id;
    let hash = first.hash;
    lemma_put_file_runs(world, first);
    let (w1, r1) = put_file(world, first);
    let w1l = w1.at(later);
    assert(w1l.tables.is_live_with_hash(id, hash, later));
    assert forall|other: u128| w1l.tables.is_live_with_hash(other, hash, later) implies other
        == id by {
        if other != id {
            assert(world.tables.is_live_with_hash(other, hash, world.now));
        }
    }
    assert(finds_file(w1l, second));
    lemma_put_file_runs(w1l, second);
    let (w2, r2) = put_file(w1l, second);
    assert(w2.tables.files.dom() =~= world.tables.files.dom().insert(id));
    lemma_delete_shared_file_runs(w2, id);
    let (w3, r3) = delete_file(w2, id);
    let w3d = dropped(dropped(w3, id), id);
    assert(!w3d.registry.opening.contains_key(id));
    assert(w3d.tables == w3.tables);
    assert(!w3d.tables.is_referenced(id)) by {
        assert(w3d.tables.resources == world.tables.resources);
        assert(w3d.tables.thumbnails == world.tables.thumbnails);
        assert(w3d.tables.images == world.tables.images);
    }
    lemma_delete_file_runs(w3d, id);
}

/// Two puts of temporary files give two files, whatever their payloads and
/// hashes: a temporary file is never shared.
pub proof fn law_temporary_puts_are_distinct(
    world: World,
    first: PutRequestView,
    second: PutRequestView,
)
    requires
        first.temporary,
        second.temporary,
        first.id != second.id,
        can_put(world, first),
        can_put(world, second),
        type_resolves(world, first),
        type_resolves(world, second),
    ensures
        ({
            let (w1, r1) = put_file(world, first);
            let (w2, r2) = put_file(w1, second);
            &&& r1 matches Some(Ok(f1))
            &&& r2 matches Some(Ok(f2))
            &&& f1.id == first.id && f1.is_new && f1.is_temporary
            &&& f2.id == second.id && f2.is_new && f2.is_temporary
            &&& f1.id != f2.id
            &&& w2.tables.files.dom() == world.tables.files.dom().insert(first.id).insert(
                second.id,
            )
            &&& w2.tables.files[first.id].count == 1
            &&& w2.tables.files[second.id].count == 1
        }),
{
    lemma_put_file_runs(world, first);
    let (w1, r1) = put_file(world, first);
    assert(can_put(w1, second));
    assert(type_resolves(w1, second));
    lemma_put_file_runs(w1, second);
    let (w2, r2) = put_file(w1, second);
    assert(w2.tables.files.dom() =~= world.tables.files.dom().insert(first.id).insert(second.id));
}

/// The file that a put hands out has the hash of the payload, and its blob
/// is in the store if every live file had its blob before.
pub proof fn law_put_keeps_hash(world: World, request: PutRequestView)
    requires
        world.tables.wf(),
        world.blobs_cover_files(),
        can_put(world, request),
        type_resolves(world, request),
    ensures
        ({
            let (after, result) = put_file(world, request);
            &&& result matches Some(Ok(file))
            &&& after.tables.files.contains_key(file.id)
            &&& after.tables.files[file.id].hash == request.hash
            &&& after.blobs.contains(file.id)
        }),
{
    lemma_put_file_runs(world, request);
    if finds_file(world, request) {
        let id = choose|id: u128| world.tables.is_live_with_hash(id, request.hash, world.now);
        assert(world.tables.files.contains_key(id));
    }
}

/// The count of every file stays at one or more through a put.
pub proof fn law_put_keeps_counts(world: World, request: PutRequestView)
    requires
        world.tables.wf(),
        can_put(world, request),
    ensures
        put_file(world, request).0.tables.wf(),
{
    lemma_put_file_runs(world, request);
    if finds_file(world, request) {
        let row = world.tables.live_by_hash(request.hash, world.now).unwrap();
        let id = choose|id: u128| world.tables.is_live_with_hash(id, request.hash, world.now);
        assert(world.tables.files.contains_key(id));
    }
}

/// The count of every file stays at one or more through a get.
pub proof fn law_get_keeps_counts(world: World, id: u128, now: i64)
    requires
        world.tables.wf(),
        can_get(world, id),
    ensures
        get_file(world, id, now).0.tables.wf(),
{
    lemma_get_file_runs(world, id, now);
}

/// The count of every file stays at one or more through a delete: a file
/// whose count would fall to zero loses its row.
pub proof fn law_delete_keeps_counts(world: World, id: u128)
    requires
        world.tables.wf(),
        world.saved is None,
        !world.registry.deleting.contains(id),
        !world.registry.opening.contains_key(id),
    ensures
        delete_file(world, id).0.tables.wf(),
{
    lemma_delete_file_runs(world, id);
}

/// Every live file has its blob after a put, if every live file had it
/// before.
pub proof fn law_put_keeps_blobs(world: World, request: PutRequestView)
    requires
        world.blobs_cover_files(),
        can_put(world, request),
    ensures
        put_file(world, request).0.blobs_cover_files(),
{
    lemma_put_file_runs(world, request);
    let after = put_file(world, request).0;
    if finds_file(world, request) {
        let id = choose|id: u128| world.tables.is_live_with_hash(id, request.hash, world.now);
        assert forall|other: u128| #[trigger]
            after.tables.files.contains_key(other) && after.tables.files[other].is_live(
                after.now,
            ) implies after.blobs.contains(other) by {
            assert(world.tables.files.contains_key(other));
            assert(world.tables.files[other].is_live(world.now));
        }
    } else {
        assert forall|other: u128| #[trigger]
            after.tables.files.contains_key(other) && after.tables.files[other].is_live(
                after.now,
            ) implies after.blobs.contains(other) by {
            if other != request.id && type_resolves(world, request) {
                assert(world.tables.files.contains_key(other));
            }
        }
    }
}

/// Every live file has its blob after a get, if every live file had it
/// before.
pub proof fn law_get_keeps_blobs(world: World, id: u128)
    requires
        world.blobs_cover_files(),
        can_get(world, id),
    ensures
        get_file(world, id, world.now).0.blobs_cover_files(),
{
    lemma_get_file_runs(world, id, world.now);
    let after = get_file(world, id, world.now).0;
    assert forall|other: u128| #[trigger]
        after.tables.files.contains_key(other) && after.tables.files[other].is_live(
            after.now,
        ) implies after.blobs.contains(other) by {
        assert(world.tables.files.contains_key(other));
        if other != id {
            assert(world.tables.files[other].is_live(world.now));
        }
    }
}

/// Every live file has its blob after a delete, if every live file had it
/// before: a blob is removed only with its row.
pub proof fn law_delete_keeps_blobs(world: World, id: u128)
    requires
        world.blobs_cover_files(),
        world.saved is None,
        !world.registry.deleting.contains(id),
        !world.registry.opening.contains_key(id),
    ensures
        delete_file(world, id).0.blobs_cover_files(),
{
    lemma_delete_file_runs(world, id);
    let after = delete_file(world, id).0;
    assert forall|other: u128| #[trigger]
        after.tables.files.contains_key(other) && after.tables.files[other].is_live(
            after.now,
        ) implies after.blobs.contains(other) by {
        assert(world.tables.files.contains_key(other));
        assert(world.tables.files[other].is_live(world.now));
    }
}

/// Every live file has its blob at any later time, if it has it now: no
/// file comes to life as time passes.
pub proof fn law_time_keeps_blobs(world: World, later: i64)
    requires
        world.blobs_cover_files(),
        world.now <= later,
    ensures
        world.at(later).blobs_cover_files(),
{
    let after = world.at(later);
    assert forall|id: u128| #[trigger]
        after.tables.files.contains_key(id) && after.tables.files[id].is_live(
            after.now,
        ) implies after.blobs.contains(id) by {
        assert(world.tables.files[id].is_live(world.now));
    }
}

} // verus!
