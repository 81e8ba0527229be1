//! What putting a file comes to.

use vstd::prelude::*;
use crate::datalith_errors::DatalithWriteErrorView;
use crate::datalith_file::handle_of;
use crate::datalith_file::DatalithFileView;
use crate::datalith_file::FileRecord;
use crate::functions::detection_wanted;
use crate::functions::resolved_file_type;
use crate::functions::FileHash;
use crate::guard::GuardRequestView;
use crate::media_type::MediaTypeView;
use crate::model::Tables;
use crate::model::World;
use crate::operation::drive;
use crate::operation::lemma_drive_finish;
use crate::operation::lemma_drive_unfold;
use crate::operation::Operation;
use crate::put_file::detected_type;
use crate::put_file::guard_of;
use crate::put_file::new_row;
use crate::put_file::PutFile;
use crate::put_file::PutFileView;
use crate::put_file::PutRequestView;
use crate::step::PayloadView;
use crate::step::ReplyView;
use crate::step::StatementView;
use crate::step::StepView;

verus! {

/// The result of a put, as a mathematical value.
pub type PutResult = Result<DatalithFileView, DatalithWriteErrorView>;

/// The result of a put that succeeds.
pub open spec fn put_ok(file: DatalithFileView) -> PutResult {
    Ok(file)
}

/// The result of a put that fails.
pub open spec fn put_err(error: DatalithWriteErrorView) -> PutResult {
    Err(error)
}

/// The store and the result after a put.
pub open spec fn put_file(world: World, request: PutRequestView) -> (World, Option<PutResult>) {
    let (state, step) = PutFileView::begin(request);
    drive::<PutFile>(world, state, step, 24)
}

/// The store after a put has given back what it held.
pub open spec fn cleaned(
    world: World,
    rollback: bool,
    unpin: Option<u128>,
    release: Option<FileHash>,
) -> World {
    let w1 = if rollback {
        world.query(StatementView::Rollback).0
    } else {
        world
    };
    let w2 = match unpin {
        Some(id) => w1.guarded(GuardRequestView::ReleaseOpen(id)),
        None => w1,
    };
    match release {
        Some(hash) => w2.guarded(GuardRequestView::ReleasePut(hash)),
        None => w2,
    }
}

/// A put that gives back what it holds ends with its result.
pub proof fn lemma_clean_runs(
    world: World,
    rollback: bool,
    unpin: Option<u128>,
    release: Option<FileHash>,
    result: PutResult,
    fuel: nat,
)
    requires
        fuel >= 3,
    ensures
        drive::<PutFile>(
            world,
            PutFileView::clean(rollback, unpin, release, result).0,
            PutFileView::clean(rollback, unpin, release, result).1,
            fuel,
        ) == (cleaned(world, rollback, unpin, release), Some(result)),
    decreases fuel,
{
    let (s0, q0) = PutFileView::clean(rollback, unpin, release, result);
    if rollback {
        lemma_drive_unfold::<PutFile>(world, s0, q0, fuel);
        let (w1, r1) = world.perform(q0);
        lemma_clean_after(w1, unpin, release, result, (fuel - 1) as nat);
    } else {
        lemma_clean_after(world, unpin, release, result, fuel);
    }
}

proof fn lemma_clean_after(
    world: World,
    unpin: Option<u128>,
    release: Option<FileHash>,
    result: PutResult,
    fuel: nat,
)
    requires
        fuel >= 2,
    ensures
        drive::<PutFile>(
            world,
            PutFileView::clean(false, unpin, release, result).0,
            PutFileView::clean(false, unpin, release, result).1,
            fuel,
        ) == (cleaned(world, false, unpin, release), Some(result)),
{
    let (s0, q0) = PutFileView::clean(false, unpin, release, result);
    if unpin is Some {
        lemma_drive_unfold::<PutFile>(world, s0, q0, fuel);
        let (w1, r1) = world.perform(q0);
        let (s1, q1) = PutFile::advance(s0, r1);
        if release is Some {
            lemma_drive_unfold::<PutFile>(w1, s1, q1, (fuel - 1) as nat);
            let (w2, r2) = w1.perform(q1);
            let (s2, q2) = PutFile::advance(s1, r2);
            lemma_drive_finish::<PutFile>(w2, s2, result, (fuel - 2) as nat);
        } else {
            lemma_drive_finish::<PutFile>(w1, s1, result, (fuel - 1) as nat);
        }
    } else if release is Some {
        lemma_drive_unfold::<PutFile>(world, s0, q0, fuel);
        let (w1, r1) = world.perform(q0);
        let (s1, q1) = PutFile::advance(s0, r1);
        lemma_drive_finish::<PutFile>(w1, s1, result, (fuel - 1) as nat);
    } else {
        lemma_drive_finish::<PutFile>(world, s0, result, fuel);
    }
}

/// The store after a new file has been created: its row is in the table,
/// its blob is on disk, and the file is pinned for the handle.
pub open spec fn created(world: World, row: FileRecord, guard: Option<FileHash>) -> World {
    cleaned(
        World {
            tables: Tables { files: world.tables.files.insert(row.id, row), ..world.tables },
            blobs: world.blobs.insert(row.id),
            ..world
        }.guarded(GuardRequestView::AcquireOpen(row.id)),
        false,
        None,
        guard,
    )
}

/// Creating a file whose identifier is new comes to `created`, and the
/// result is the handle on the new file.
pub proof fn lemma_insert_runs(
    world: World,
    row: FileRecord,
    payload: PayloadView,
    guard: Option<FileHash>,
    fuel: nat,
)
    requires
        fuel >= 9,
        world.saved is None,
        !world.tables.files.contains_key(row.id),
        !world.registry.opening.contains_key(row.id),
    ensures
        drive::<PutFile>(
            world,
            PutFileView::Beginning { row, payload, guard },
            StepView::Query(StatementView::Begin),
            fuel,
        ) == (created(world, row, guard), Some(put_ok(handle_of(row, row.expired_at is Some, true)))),
{
    let s0 = PutFileView::Beginning { row, payload, guard };
    let q0 = StepView::<PutResult>::Query(StatementView::Begin);
    lemma_drive_unfold::<PutFile>(world, s0, q0, fuel);
    let (w1, r1) = world.perform(q0);
    let (s1, q1) = PutFile::advance(s0, r1);
    lemma_drive_unfold::<PutFile>(w1, s1, q1, (fuel - 1) as nat);
    let (w2, r2) = w1.perform(q1);
    assert(r2 == ReplyView::Affected(1));
    let (s2, q2) = PutFile::advance(s1, r2);
    lemma_drive_unfold::<PutFile>(w2, s2, q2, (fuel - 2) as nat);
    let (w3, r3) = w2.perform(q2);
    assert(r3 == ReplyView::Done);
    let (s3, q3) = PutFile::advance(s2, r3);
    lemma_drive_unfold::<PutFile>(w3, s3, q3, (fuel - 3) as nat);
    let (w4, r4) = w3.perform(q3);
    assert(r4 == ReplyView::Flag(true));
    let (s4, q4) = PutFile::advance(s3, r4);
    lemma_drive_unfold::<PutFile>(w4, s4, q4, (fuel - 4) as nat);
    let (w5, r5) = w4.perform(q4);
    assert(r5 == ReplyView::Done);
    let (s5, q5) = PutFile::advance(s4, r5);
    lemma_drive_unfold::<PutFile>(w5, s5, q5, (fuel - 5) as nat);
    let (w6, r6) = w5.perform(q5);
    assert(r6 == ReplyView::Done);
    lemma_clean_runs(
        w6,
        false,
        None,
        guard,
        put_ok(handle_of(row, row.expired_at is Some, true)),
        (fuel - 6) as nat,
    );
    assert(w6 == World {
        tables: Tables { files: world.tables.files.insert(row.id, row), ..world.tables },
        blobs: world.blobs.insert(row.id),
        ..world
    }.guarded(GuardRequestView::AcquireOpen(row.id)));
}

/// The request with the size that the payload is found to have: a payload
/// at a path has the size of the file at the path.
pub open spec fn measured(world: World, request: PutRequestView) -> PutRequestView {
    match request.payload {
        PayloadView::Path(path) => PutRequestView { file_size: world.disk[path], ..request },
        _ => request,
    }
}

/// The media type that detection arrives at in the model, where no magic
/// database is at hand: the type listed for the extension of a path.
pub open spec fn model_detected(request: PutRequestView) -> Option<MediaTypeView> {
    if detection_wanted(request.file_type) {
        match request.payload {
            PayloadView::Path(path) => detected_type(request.payload, Some(path), None),
            _ => None,
        }
    } else {
        None
    }
}

/// What creating a file comes to: the type is resolved; where that fails
/// nothing is kept, and else the row of the new file is inserted and its blob
/// stored.
pub open spec fn create_outcome(world: World, request: PutRequestView) -> (World, PutResult) {
    let request = measured(world, request);
    match resolved_file_type(request.file_type, model_detected(request)) {
        Ok(file_type) => {
            let row = new_row(request, world.now, file_type);
            (
                created(world, row, guard_of(request)),
                put_ok(handle_of(row, row.expired_at is Some, true)),
            )
        },
        Err(e) => (cleaned(world, false, None, guard_of(request)), Err(e)),
    }
}

/// Whether a file can be created for a request: no transaction is open, the
/// identifier is new, and a payload at a path is there.
pub open spec fn can_create(world: World, request: PutRequestView) -> bool {
    &&& world.saved is None
    &&& !world.tables.files.contains_key(request.id)
    &&& !world.registry.opening.contains_key(request.id)
    &&& request.payload matches PayloadView::Path(path) ==> world.disk.contains_key(path)
}

proof fn lemma_resolved_runs(
    world: World,
    request: PutRequestView,
    detected: Option<MediaTypeView>,
    fuel: nat,
)
    requires
        fuel >= 9,
        can_create(world, request),
    ensures
        drive::<PutFile>(
            world,
            PutFileView::insert(request, world.now, detected).0,
            PutFileView::insert(request, world.now, detected).1,
            fuel,
        ) == match resolved_file_type(request.file_type, detected) {
            Ok(file_type) => {
                let row = new_row(request, world.now, file_type);
                (
                    created(world, row, guard_of(request)),
                    Some(put_ok(handle_of(row, row.expired_at is Some, true))),
                )
            },
            Err(e) => (cleaned(world, false, None, guard_of(request)), Some(put_err(e))),
        },
{
    match resolved_file_type(request.file_type, detected) {
        Ok(file_type) => {
            lemma_insert_runs(
                world,
                new_row(request, world.now, file_type),
                request.payload,
                guard_of(request),
                fuel,
            );
        },
        Err(e) => {
            lemma_clean_runs(world, false, None, guard_of(request), Err(e), fuel);
        },
    }
}

/// Creating a file comes to `create_outcome`.
pub proof fn lemma_create_runs(world: World, request: PutRequestView, fuel: nat)
    requires
        fuel >= 13,
        can_create(world, request),
    ensures
        drive::<PutFile>(
            world,
            PutFileView::create(request).0,
            PutFileView::create(request).1,
            fuel,
        ) == (create_outcome(world, request).0, Some(create_outcome(world, request).1)),
{
    let now = world.now;
    let (s0, q0) = PutFileView::create(request);
    lemma_drive_unfold::<PutFile>(world, s0, q0, fuel);
    let (w1, r1) = world.perform(q0);
    assert(w1 == world && r1 == ReplyView::Time(now));
    let (s1, q1) = PutFile::advance(s0, r1);
    assert((s1, q1) == PutFileView::measure(request, now));
    match request.payload {
        PayloadView::Path(path) => {
            lemma_drive_unfold::<PutFile>(w1, s1, q1, (fuel - 1) as nat);
            let (w2, r2) = w1.perform(q1);
            assert(w2 == world && r2 == ReplyView::Size(world.disk[path]));
            let (s2, q2) = PutFile::advance(s1, r2);
            let sized = measured(world, request);
            assert((s2, q2) == PutFileView::detect(sized, now));
            if detection_wanted(sized.file_type) {
                lemma_drive_unfold::<PutFile>(w2, s2, q2, (fuel - 2) as nat);
                let (w3, r3) = w2.perform(q2);
                assert(w3 == world && r3 == ReplyView::Text(Some(path)));
                let (s3, q3) = PutFile::advance(s2, r3);
                lemma_drive_unfold::<PutFile>(w3, s3, q3, (fuel - 3) as nat);
                let (w4, r4) = w3.perform(q3);
                assert(w4 == world && r4 == ReplyView::Text(None));
                let (s4, q4) = PutFile::advance(s3, r4);
                assert((s4, q4) == PutFileView::insert(sized, now, model_detected(sized)));
                lemma_resolved_runs(world, sized, model_detected(sized), (fuel - 4) as nat);
            } else {
                lemma_resolved_runs(world, sized, None, (fuel - 2) as nat);
            }
        },
        _ => {
            assert((s1, q1) == PutFileView::detect(request, now));
            if detection_wanted(request.file_type) {
                lemma_drive_unfold::<PutFile>(w1, s1, q1, (fuel - 1) as nat);
                let (w2, r2) = w1.perform(q1);
                assert(w2 == world && r2 == ReplyView::Text(None));
                let (s2, q2) = PutFile::advance(s1, r2);
                assert((s2, q2) == PutFileView::insert(request, now, None));
                lemma_resolved_runs(world, request, None, (fuel - 2) as nat);
            } else {
                lemma_resolved_runs(world, request, None, (fuel - 1) as nat);
            }
        },
    }
}

/// What storing a new file comes to: the type is resolved; where that
/// fails nothing is kept, and else the row of the new file is inserted, its
/// blob stored, and the file pinned for the handle.
pub open spec fn store_outcome(world: World, request: PutRequestView) -> (World, PutResult) {
    let request = measured(world, request);
    match resolved_file_type(request.file_type, model_detected(request)) {
        Ok(file_type) => {
            let row = new_row(request, world.now, file_type);
            (
                World {
                    tables: Tables { files: world.tables.files.insert(row.id, row), ..world.tables },
                    blobs: world.blobs.insert(row.id),
                    ..world
                }.guarded(GuardRequestView::AcquireOpen(row.id)),
                put_ok(handle_of(row, row.expired_at is Some, true)),
            )
        },
        Err(e) => (world, put_err(e)),
    }
}

/// Whether a put finds a file to share: the payload is permanent and a live
/// file has its hash.
pub open spec fn finds_file(world: World, request: PutRequestView) -> bool {
    !request.temporary && world.tables.has_live_hash(request.hash, world.now)
}

/// What a put comes to. A temporary file is always stored anew. A permanent
/// payload whose hash a live file has gives that file one more holder and a
/// pin; any other permanent payload is stored anew.
pub open spec fn put_file_outcome(world: World, request: PutRequestView) -> (World, PutResult) {
    if finds_file(world, request) {
        let row = world.tables.live_by_hash(request.hash, world.now).unwrap();
        (
            world.with_tables(
                world.tables.execute(StatementView::IncrementFileCount { id: row.id }).0,
            ).guarded(GuardRequestView::AcquireOpen(row.id)),
            put_ok(handle_of(row, false, false)),
        )
    } else {
        store_outcome(world, request)
    }
}

/// Whether a put can run on its own: nothing else puts the same payload,
/// the file it would find is permanent, is not being deleted and can take
/// another pin, and the file it would create can be created.
pub open spec fn can_put(world: World, request: PutRequestView) -> bool {
    &&& world.saved is None
    &&& !request.temporary ==> !world.registry.uploading.contains(request.hash)
    &&& if finds_file(world, request) {
        let row = world.tables.live_by_hash(request.hash, world.now).unwrap();
        &&& row.expired_at is None
        &&& !world.registry.deleting.contains(row.id)
        &&& world.registry.opening.contains_key(row.id) ==> world.registry.opening[row.id]
            < usize::MAX
    } else {
        can_create(world, request)
    }
}

/// A put that can run on its own comes to `put_file_outcome`.
pub proof fn lemma_put_file_runs(world: World, request: PutRequestView)
    requires
        can_put(world, request),
    ensures
        put_file(world, request) == (
            put_file_outcome(world, request).0,
            Some(put_file_outcome(world, request).1),
        ),
{
    let (s0, q0) = PutFileView::begin(request);
    if request.temporary {
        lemma_create_runs(world, request, 24);
    } else {
        let hash = request.hash;
        let now = world.now;
        lemma_drive_unfold::<PutFile>(world, s0, q0, 24);
        let (w1, r1) = world.perform(q0);
        assert(r1 == ReplyView::Flag(true));
        assert(w1 == world.guarded(GuardRequestView::AcquirePut(hash)));
        assert(w1.registry.uploading.remove(hash) =~= world.registry.uploading);
        let (s1, q1) = PutFile::advance(s0, r1);
        lemma_drive_unfold::<PutFile>(w1, s1, q1, 23);
        let (w2, r2) = w1.perform(q1);
        assert(w2 == w1 && r2 == ReplyView::Time(now));
        let (s2, q2) = PutFile::advance(s1, r2);
        lemma_drive_unfold::<PutFile>(w2, s2, q2, 22);
        let (w3, r3) = w2.perform(q2);
        assert(w3 == w1);
        let (s3, q3) = PutFile::advance(s2, r3);
        if finds_file(world, request) {
            let row = world.tables.live_by_hash(hash, now).unwrap();
            assert(r3 == ReplyView::File(Some(row)));
            lemma_drive_unfold::<PutFile>(w3, s3, q3, 21);
            let (w4, r4) = w3.perform(q3);
            assert(r4 == ReplyView::Flag(true));
            let (s4, q4) = PutFile::advance(s3, r4);
            lemma_drive_unfold::<PutFile>(w4, s4, q4, 20);
            let (w5, r5) = w4.perform(q4);
            assert(r5 == ReplyView::Flag(false));
            assert(w5 == w4);
            let (s5, q5) = PutFile::advance(s4, r5);
            lemma_drive_unfold::<PutFile>(w5, s5, q5, 19);
            let (w6, r6) = w5.perform(q5);
            assert(r6 is Affected);
            lemma_clean_runs(w6, false, None, Some(hash), put_ok(handle_of(row, false, false)), 18);
            let end = cleaned(w6, false, None, Some(hash));
            assert(end.registry.uploading =~= world.registry.uploading);
            assert(end.registry == put_file_outcome(world, request).0.registry);
            assert(end == put_file_outcome(world, request).0);
        } else {
            assert(r3 == ReplyView::File(None));
            assert((s3, q3) == PutFileView::create(request));
            lemma_create_runs(w3, request, 21);
            let end = create_outcome(w3, request).0;
            assert(end.registry.uploading =~= world.registry.uploading);
            assert(end.registry == store_outcome(world, request).0.registry);
            assert(end == store_outcome(world, request).0);
        }
    }
}

} // verus!
