//! What deleting a file comes to, and that a delete waits for the readers
//! of the file.

use vstd::prelude::*;
use crate::datalith_errors::DatalithReadError;
use crate::delete_file::DeleteFile;
use crate::guard::GuardRequestView;
use crate::model::Tables;
use crate::model::World;
use crate::operation::drive;
use crate::operation::lemma_drive_finish;
use crate::operation::lemma_drive_unfold;
use crate::operation::Operation;
use crate::step::Directory;
use crate::step::FileOperationView;
use crate::step::ReplyView;
use crate::step::StatementView;
use crate::step::StepView;

verus! {

/// The store and the result after deleting the file `id`.
pub open spec fn delete_file(world: World, id: u128) -> (
    World,
    Option<Result<bool, DatalithReadError>>,
) {
    let (state, step) = DeleteFile::begin_spec(id);
    drive::<DeleteFile>(world, state, step, 16)
}

/// What deleting a file comes to where no other delete of it is under way
/// and no reader pins it: a file with several holders loses one; a file with
/// one holder loses its row and its blob, unless something still refers to it;
/// the result tells whether a row was changed.
pub open spec fn delete_file_outcome(world: World, id: u128) -> (World, Result<bool, DatalithReadError>) {
    let files = world.tables.files;
    if files.contains_key(id) && files[id].count > 1 {
        (
            world.with_tables(world.tables.with_count(id, (files[id].count - 1) as u64)),
            Ok(true),
        )
    } else if files.contains_key(id) && files[id].count == 1 && !world.tables.is_referenced(id) {
        (
            World {
                tables: Tables { files: files.remove(id), ..world.tables },
                blobs: world.blobs.remove(id),
                ..world
            },
            Ok(true),
        )
    } else {
        (world, Ok(false))
    }
}

/// The last part of a delete, from the lowering of the count on, comes to
/// `delete_file_outcome`.
pub proof fn lemma_delete_inner_runs(world: World, id: u128, fuel: nat)
    requires
        fuel >= 9,
        world.saved is None,
        world.registry.deleting.contains(id),
    ensures
        drive::<DeleteFile>(
            world,
            DeleteFile::begin_inner_spec(id).0,
            DeleteFile::begin_inner_spec(id).1,
            fuel,
        ) == (
            delete_file_outcome(world, id).0.guarded(GuardRequestView::ReleaseDelete(id)),
            Some(delete_file_outcome(world, id).1),
        ),
{
    let files = world.tables.files;
    let (s0, q0) = DeleteFile::begin_inner_spec(id);
    lemma_drive_unfold::<DeleteFile>(world, s0, q0, fuel);
    let (w1, r1) = world.perform(q0);
    let (s1, q1) = DeleteFile::advance(s0, r1);
    if files.contains_key(id) && files[id].count > 1 {
        assert(r1 == ReplyView::Affected(1));
        lemma_drive_unfold::<DeleteFile>(w1, s1, q1, (fuel - 1) as nat);
        let (w2, r2) = w1.perform(q1);
        let (s2, q2) = DeleteFile::advance(s1, r2);
        lemma_drive_finish::<DeleteFile>(w2, s2, Ok(true), (fuel - 2) as nat);
    } else {
        assert(r1 == ReplyView::Affected(0));
        assert(w1 == world);
        lemma_drive_unfold::<DeleteFile>(w1, s1, q1, (fuel - 1) as nat);
        let (w2, r2) = w1.perform(q1);
        let (s2, q2) = DeleteFile::advance(s1, r2);
        assert(q2 == StepView::<Result<bool, DatalithReadError>>::Query(
            StatementView::DeleteLastFile { id },
        ));
        lemma_drive_unfold::<DeleteFile>(w2, s2, q2, (fuel - 2) as nat);
        let (w3, r3) = w2.perform(q2);
        let (s3, q3) = DeleteFile::advance(s2, r3);
        if files.contains_key(id) && files[id].count == 1 && !world.tables.is_referenced(id) {
            assert(r3 == ReplyView::Affected(1));
            assert(q3 == StepView::<Result<bool, DatalithReadError>>::File(
                FileOperationView::EnsureDirectory(Directory::Files),
            ));
            lemma_drive_unfold::<DeleteFile>(w3, s3, q3, (fuel - 3) as nat);
            let (w4, r4) = w3.perform(q3);
            assert(r4 == ReplyView::Done);
            let (s4, q4) = DeleteFile::advance(s3, r4);
            lemma_drive_unfold::<DeleteFile>(w4, s4, q4, (fuel - 4) as nat);
            let (w5, r5) = w4.perform(q4);
            let (s5, q5) = DeleteFile::advance(s4, r5);
            assert(w5.blobs =~= world.blobs.remove(id));
            assert(q5 == StepView::<Result<bool, DatalithReadError>>::Query(StatementView::Commit));
            lemma_drive_unfold::<DeleteFile>(w5, s5, q5, (fuel - 5) as nat);
            let (w6, r6) = w5.perform(q5);
            let (s6, q6) = DeleteFile::advance(s5, r6);
            lemma_drive_unfold::<DeleteFile>(w6, s6, q6, (fuel - 6) as nat);
            let (w7, r7) = w6.perform(q6);
            let (s7, q7) = DeleteFile::advance(s6, r7);
            lemma_drive_finish::<DeleteFile>(w7, s7, Ok(true), (fuel - 7) as nat);
        } else {
            assert(w3.tables == world.tables);
            assert(q3 == StepView::<Result<bool, DatalithReadError>>::Query(StatementView::Rollback));
            lemma_drive_unfold::<DeleteFile>(w3, s3, q3, (fuel - 3) as nat);
            let (w4, r4) = w3.perform(q3);
            let (s4, q4) = DeleteFile::advance(s3, r4);
            assert(w4 == world);
            lemma_drive_unfold::<DeleteFile>(w4, s4, q4, (fuel - 4) as nat);
            let (w5, r5) = w4.perform(q4);
            let (s5, q5) = DeleteFile::advance(s4, r5);
            lemma_drive_finish::<DeleteFile>(w5, s5, Ok(false), (fuel - 5) as nat);
        }
    }
}

/// Deleting a file that no other delete is at, and that no reader pins,
/// comes to `delete_file_outcome`.
pub proof fn lemma_delete_file_runs(world: World, id: u128)
    requires
        world.saved is None,
        !world.registry.deleting.contains(id),
        !world.registry.opening.contains_key(id),
    ensures
        delete_file(world, id) == (
            delete_file_outcome(world, id).0,
            Some(delete_file_outcome(world, id).1),
        ),
{
    let files = world.tables.files;
    let (s0, q0) = DeleteFile::begin_spec(id);
    lemma_drive_unfold::<DeleteFile>(world, s0, q0, 16);
    let (w1, r1) = world.perform(q0);
    assert(r1 == ReplyView::Flag(true));
    let (s1, q1) = DeleteFile::advance(s0, r1);
    lemma_drive_unfold::<DeleteFile>(w1, s1, q1, 15);
    let (w2, r2) = w1.perform(q1);
    let (s2, q2) = DeleteFile::advance(s1, r2);
    assert(w2 == w1);
    assert(w1.registry.deleting.remove(id) =~= world.registry.deleting);
    assert(delete_file_outcome(w1, id).0.guarded(GuardRequestView::ReleaseDelete(id))
        == delete_file_outcome(world, id).0);
    if files.contains_key(id) && files[id].count > 1 {
        lemma_delete_inner_runs(w2, id, 14);
    } else {
        lemma_drive_unfold::<DeleteFile>(w2, s2, q2, 14);
        let (w3, r3) = w2.perform(q2);
        assert(r3 == ReplyView::Flag(false));
        assert(w3 == w1);
        lemma_delete_inner_runs(w3, id, 13);
    }
}

/// Deleting a file with several holders does not wait for its readers.
pub proof fn lemma_delete_shared_file_runs(world: World, id: u128)
    requires
        world.saved is None,
        !world.registry.deleting.contains(id),
        world.tables.files.contains_key(id),
        world.tables.files[id].count > 1,
    ensures
        delete_file(world, id) == (
            delete_file_outcome(world, id).0,
            Some(delete_file_outcome(world, id).1),
        ),
{
    let (s0, q0) = DeleteFile::begin_spec(id);
    lemma_drive_unfold::<DeleteFile>(world, s0, q0, 16);
    let (w1, r1) = world.perform(q0);
    assert(r1 == ReplyView::Flag(true));
    let (s1, q1) = DeleteFile::advance(s0, r1);
    lemma_drive_unfold::<DeleteFile>(w1, s1, q1, 15);
    let (w2, r2) = w1.perform(q1);
    assert(w2 == w1);
    assert(w1.registry.deleting.remove(id) =~= world.registry.deleting);
    assert(delete_file_outcome(w1, id).0.guarded(GuardRequestView::ReleaseDelete(id))
        == delete_file_outcome(world, id).0);
    lemma_delete_inner_runs(w2, id, 14);
}

/// While a reader pins a file, a delete that waits for the readers of the
/// file has not ended after any number of requests, and has changed neither
/// the tables nor the blobs.
pub proof fn lemma_delete_waits(world: World, id: u128, waiting: bool, fuel: nat)
    requires
        world.registry.opening.contains_key(id),
    ensures
        ({
            let (state, step) = if waiting {
                (
                    DeleteFile::PausingForReaders { id },
                    StepView::<Result<bool, DatalithReadError>>::Pause,
                )
            } else {
                (
                    DeleteFile::CheckingOpening { id },
                    StepView::<Result<bool, DatalithReadError>>::Guard(
                        GuardRequestView::IsOpening(id),
                    ),
                )
            };
            let (after, result) = drive::<DeleteFile>(world, state, step, fuel);
            &&& result is None
            &&& after == world
        }),
    decreases fuel,
{
    if fuel > 0 {
        if waiting {
            let state = DeleteFile::PausingForReaders { id };
            let step = StepView::<Result<bool, DatalithReadError>>::Pause;
            lemma_drive_unfold::<DeleteFile>(world, state, step, fuel);
            lemma_delete_waits(world, id, false, (fuel - 1) as nat);
        } else {
            let state = DeleteFile::CheckingOpening { id };
            let step = StepView::<Result<bool, DatalithReadError>>::Guard(
                GuardRequestView::IsOpening(id),
            );
            lemma_drive_unfold::<DeleteFile>(world, state, step, fuel);
            assert(world.perform(step).0 == world);
            lemma_delete_waits(world, id, true, (fuel - 1) as nat);
        }
    }
}

/// An open handle prevents the deletion of a blob: while a reader pins a
/// file with at most one holder, a delete of the file does not end, however
/// long it runs, and the row and the blob of the file stay.
pub proof fn law_pin_blocks_delete(world: World, id: u128, fuel: nat)
    requires
        world.saved is None,
        world.registry.opening.contains_key(id),
        !world.registry.deleting.contains(id),
        !(world.tables.files.contains_key(id) && world.tables.files[id].count > 1),
    ensures
        ({
            let (state, step) = DeleteFile::begin_spec(id);
            let (after, result) = drive::<DeleteFile>(world, state, step, fuel);
            &&& result is None
            &&& after.tables == world.tables
            &&& after.blobs == world.blobs
        }),
{
    let (s0, q0) = DeleteFile::begin_spec(id);
    if fuel > 0 {
        lemma_drive_unfold::<DeleteFile>(world, s0, q0, fuel);
        let (w1, r1) = world.perform(q0);
        assert(r1 == ReplyView::Flag(true));
        let (s1, q1) = DeleteFile::advance(s0, r1);
        if fuel > 1 {
            lemma_drive_unfold::<DeleteFile>(w1, s1, q1, (fuel - 1) as nat);
            let (w2, r2) = w1.perform(q1);
            assert(r2 == ReplyView::Flag(false));
            assert(w2 == w1);
            lemma_delete_waits(w2, id, false, (fuel - 2) as nat);
        }
    }
}

} // verus!
