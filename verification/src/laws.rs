//! Laws of the store, stated over the model and proved of the operations as
//! they run on their own.

use vstd::prelude::*;
use crate::datalith_errors::DatalithReadError;
use crate::datalith_file::handle_of;
use crate::datalith_file::DatalithFileView;
use crate::get_file::GetFile;
use crate::guard::GuardRequestView;
use crate::model::World;
use crate::operation::drive;
use crate::operation::lemma_drive_finish;
use crate::operation::lemma_drive_unfold;
use crate::operation::Operation;
use crate::step::ReplyView;
use crate::step::StatementView;

verus! {

/// The store and the result after getting the file `id` at time `now`.
pub open spec fn get_file(world: World, id: u128, now: i64) -> (
    World,
    Option<Result<Option<DatalithFileView>, DatalithReadError>>,
) {
    let (state, step) = GetFile::begin_spec(id, now);
    drive::<GetFile>(world, state, step, 8)
}

/// What getting a file comes to where nobody is deleting it: a temporary
/// file that is live is consumed, and a handle is returned, with a pin on the
/// file, where the file is permanent or has just been consumed.
pub open spec fn get_file_outcome(world: World, id: u128, now: i64) -> (
    World,
    Result<Option<DatalithFileView>, DatalithReadError>,
) {
    let touched = world.tables.execute(StatementView::TouchTemporaryFile { id, now });
    let consumed = touched.1 == ReplyView::Affected(1);
    let tables = touched.0;
    if tables.files.contains_key(id) && tables.files[id].is_readable(now) {
        (
            World {
                tables,
                registry: world.registry.perform(GuardRequestView::AcquireOpen(id)).0,
                ..world
            },
            Ok(Some(handle_of(tables.files[id], consumed, false))),
        )
    } else {
        (World { tables, ..world }, Ok(None))
    }
}

/// Whether a get of the file `id` can run on its own: no delete of the file
/// is under way, and the file can take another pin.
pub open spec fn can_get(world: World, id: u128) -> bool {
    &&& !world.registry.deleting.contains(id)
    &&& world.registry.opening.contains_key(id) ==> 0 < world.registry.opening[id] < usize::MAX
}

/// Getting a file that nobody is deleting comes to `get_file_outcome`.
pub proof fn lemma_get_file_runs(world: World, id: u128, now: i64)
    requires
        can_get(world, id),
    ensures
        get_file(world, id, now) == (
            get_file_outcome(world, id, now).0,
            Some(get_file_outcome(world, id, now).1),
        ),
{
    let (s0, q0) = GetFile::begin_spec(id, now);
    lemma_drive_unfold::<GetFile>(world, s0, q0, 8);
    let (w1, r1) = world.perform(q0);
    assert(r1 == ReplyView::Flag(true));
    let (s1, q1) = GetFile::advance(s0, r1);
    lemma_drive_unfold::<GetFile>(w1, s1, q1, 7);
    let (w2, r2) = w1.perform(q1);
    assert(r2 == ReplyView::Flag(false));
    let (s2, q2) = GetFile::advance(s1, r2);
    lemma_drive_unfold::<GetFile>(w2, s2, q2, 6);
    let (w3, r3) = w2.perform(q2);
    let (s3, q3) = GetFile::advance(s2, r3);
    lemma_drive_unfold::<GetFile>(w3, s3, q3, 5);
    let (w4, r4) = w3.perform(q3);
    let (s4, q4) = GetFile::advance(s3, r4);
    let tables = w3.tables;
    if tables.files.contains_key(id) && tables.files[id].is_readable(now) {
        assert(q4 is Finish);
        lemma_drive_finish::<GetFile>(w4, s4, q4->Finish_0, 4);
    } else {
        lemma_drive_unfold::<GetFile>(w4, s4, q4, 4);
        let (w5, r5) = w4.perform(q4);
        let (s5, q5) = GetFile::advance(s4, r5);
        assert(w5.registry.opening =~= world.registry.opening);
        assert(w5.registry == world.registry);
        lemma_drive_finish::<GetFile>(w5, s5, q5->Finish_0, 3);
    }
}

/// A temporary file is read once: getting it succeeds, and getting it again
/// at any later time finds nothing.
pub proof fn law_temporary_file_is_read_once(world: World, id: u128, first: i64, second: i64)
    requires
        world.tables.files.contains_key(id),
        world.tables.files[id].is_temporary(),
        world.tables.files[id].is_live(first),
        can_get(world, id),
        world.registry.opening.contains_key(id) ==> world.registry.opening[id] < usize::MAX - 1,
        first < second,
    ensures
        ({
            let (after_first, got) = get_file(world, id, first);
            let (after_second, again) = get_file(after_first, id, second);
            &&& got matches Some(Ok(Some(file)))
            &&& file.id == world.tables.files[id].id
            &&& file.is_temporary
            &&& !file.is_new
            &&& again matches Some(Ok(None))
            &&& after_second == after_first
        }),
{
    lemma_get_file_runs(world, id, first);
    let (after_first, got) = get_file(world, id, first);
    lemma_get_file_runs(after_first, id, second);
}

} // verus!
