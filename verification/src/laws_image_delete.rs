//! What deleting an image comes to.

use vstd::prelude::*;
use crate::datalith_errors::DatalithReadError;
use crate::delete_file::DeleteFile;
use crate::guard::GuardRequestView;
use crate::guard::RegistryView;
use crate::image_ops::distinct;
use crate::image_ops::DeleteImage;
use crate::image_ops::GetImage;
use crate::image_ops::GetImageView;
use crate::image_types::pins_of;
use crate::laws_image_get::lemma_get_image_runs;
use crate::laws_image_get::original_files;
use crate::laws_image_get::pinned;
use crate::laws_image_get::thumbnail_files;
use crate::laws_image_get::whole_image;
use crate::laws_image_get::FoundImage;
use crate::operation::lemma_run_step;
use crate::step::StatementView;
use crate::image_ops::DeleteImageView;
use crate::image_types::ThumbnailLink;
use crate::laws_delete::delete_file_outcome;
use crate::laws_delete::lemma_delete_inner_runs;
use crate::laws_image_get::image_files;
use crate::laws_image_get::image_is_whole;
use crate::model::Tables;
use crate::model::World;
use crate::operation::lemma_run_finish;
use crate::operation::lemma_run_is;
use crate::operation::lemma_run_part;
use crate::operation::run;
use crate::operation::Operation;
use crate::step::ReplyView;
use crate::step::StepView;
use crate::sweep::one_more;

verus! {

/// The result of a delete, as a mathematical value.
pub type Deleted = Result<bool, DatalithReadError>;

/// An image that alone holds its files, in a store in which nothing else is
/// going on: the image is whole, each of its files has one holder, and no
/// resource and no other image refers to any of them.
pub open spec fn holds_alone(world: World, id: u128) -> bool {
    let files = image_files(world, id);
    &&& image_is_whole(world, id)
    &&& world.saved is None
    &&& forall|i: int|
        0 <= i < files.len() ==> {
            &&& world.tables.files[#[trigger] files[i]].count == 1
            &&& world.tables.files[files[i]].id == files[i]
        }
    &&& forall|r: u128| #[trigger]
        world.tables.resources.contains_key(r) ==> !files.contains(
            world.tables.resources[r].file_id,
        )
    &&& forall|j: int|
        0 <= j < world.tables.thumbnails.len() && files.contains(
            (#[trigger] world.tables.thumbnails[j]).file_id,
        ) ==> world.tables.thumbnails[j].image_id == id
    &&& forall|m: u128| #[trigger]
        world.tables.images.contains_key(m) && m != id ==> match world.tables.images[m].original_file_id {
            Some(file_id) => !files.contains(file_id),
            None => true,
        }
}

/// Whether a list names the files of an image, each once.
pub open spec fn lists_files(world: World, id: u128, ids: Seq<u128>) -> bool {
    &&& ids.no_duplicates()
    &&& ids.len() <= usize::MAX
    &&& forall|x: u128| ids.contains(x) <==> image_files(world, id).contains(x)
}

/// The store when the row of an image and its links are deleted and its
/// files are entered into the set of files being deleted.
pub open spec fn unlinked(world: World, id: u128, ids: Seq<u128>) -> World {
    World {
        tables: Tables {
            thumbnails: world.tables.thumbnails.filter(|l: ThumbnailLink| l.image_id != id),
            images: world.tables.images.remove(id),
            ..world.tables
        },
        registry: RegistryView { deleting: ids.to_set(), ..world.registry },
        ..world
    }
}

/// The store when the image is deleted and the first `count` of its files
/// have lost their rows and blobs.
pub open spec fn released(world: World, id: u128, ids: Seq<u128>, count: nat) -> World {
    let base = unlinked(world, id, ids);
    let gone = ids.take(count as int).to_set();
    World {
        tables: Tables { files: base.tables.files.remove_keys(gone), ..base.tables },
        blobs: base.blobs.difference(gone),
        registry: RegistryView { deleting: ids.skip(count as int).to_set(), ..base.registry },
        ..base
    }
}

/// The result of a delete that has deleted something.
pub open spec fn deleted() -> Deleted {
    Ok(true)
}

/// Nothing refers to a file of a deleted image that alone held its files.
proof fn lemma_unreferenced(world: World, id: u128, ids: Seq<u128>, count: nat)
    requires
        holds_alone(world, id),
        lists_files(world, id, ids),
        count < ids.len(),
    ensures
        !released(world, id, ids, count).tables.is_referenced(ids[count as int]),
        released(world, id, ids, count).tables.files.contains_key(ids[count as int]),
        released(world, id, ids, count).tables.files[ids[count as int]].count == 1,
{
    let x = ids[count as int];
    let files = image_files(world, id);
    let tables = released(world, id, ids, count).tables;
    assert(ids.contains(x));
    assert(files.contains(x));
    let at = choose|i: int| 0 <= i < files.len() && files[i] == x;
    assert(world.tables.files.contains_key(files[at]));
    let gone = ids.take(count as int);
    if gone.contains(x) {
        let i = choose|i: int| 0 <= i < gone.len() && gone[i] == x;
        assert(ids[i] == x);
    }
    assert(!gone.to_set().contains(x));
    let kept = |l: ThumbnailLink| l.image_id != id;
    assert forall|i: int| 0 <= i < tables.thumbnails.len() implies (
    #[trigger] tables.thumbnails[i]).file_id != x by {
        let link = tables.thumbnails[i];
        world.tables.thumbnails.lemma_filter_pred(kept, i);
        assert(tables.thumbnails.contains(link));
        world.tables.thumbnails.lemma_filter_contains_rev(kept, link);
        let j = choose|j: int|
            0 <= j < world.tables.thumbnails.len() && world.tables.thumbnails[j] == link;
        assert(world.tables.thumbnails[j].file_id == link.file_id);
    }
    assert forall|m: u128| #[trigger]
        tables.images.contains_key(m) implies tables.images[m].original_file_id != Some(x) by {
        assert(world.tables.images.contains_key(m) && m != id);
    }
}

/// The files of a deleted image that alone held them lose their rows and
/// blobs one after the other, and the delete ends.
proof fn lemma_release_runs(world: World, id: u128, ids: Seq<u128>, count: nat)
    requires
        holds_alone(world, id),
        lists_files(world, id, ids),
        count <= ids.len(),
    ensures
        run::<DeleteImage>(
            released(world, id, ids, count),
            DeleteImageView::release(ids, count as usize).0,
            DeleteImageView::release(ids, count as usize).1,
        ) == (released(world, id, ids, ids.len()), Some(deleted())),
    decreases ids.len() - count,
{
    let before = released(world, id, ids, count);
    let index = count as usize;
    let (s0, q0) = DeleteImageView::release(ids, index);
    if count < ids.len() {
        let x = ids[count as int];
        let (inner, first) = DeleteFile::begin_inner_spec(x);
        assert(ids.skip(count as int)[0] == x);
        assert(before.registry.deleting.contains(x));
        lemma_delete_inner_runs(before, x, 9);
        lemma_run_is::<DeleteFile>(before, inner, first, 9);
        lemma_unreferenced(world, id, ids, count);
        let after = delete_file_outcome(before, x).0.guarded(GuardRequestView::ReleaseDelete(x));
        let next = released(world, id, ids, count + 1);
        let gone = ids.take(count as int);
        let more = ids.take(count + 1int);
        assert forall|y: u128| more.contains(y) <==> gone.contains(y) || y == x by {
            if more.contains(y) {
                let i = choose|i: int| 0 <= i < more.len() && more[i] == y;
                if i < count {
                    assert(gone[i] == y);
                }
            }
            if gone.contains(y) {
                let i = choose|i: int| 0 <= i < gone.len() && gone[i] == y;
                assert(more[i] == y);
            }
            assert(more[count as int] == x);
        }
        assert(after.tables.files =~= next.tables.files);
        assert(after.blobs =~= next.blobs);
        assert(after.registry.deleting =~= next.registry.deleting) by {
            let tail = ids.skip(count as int);
            let rest = ids.skip(count + 1int);
            assert forall|y: u128| rest.contains(y) <==> tail.contains(y) && y != x by {
                if rest.contains(y) {
                    let i = choose|i: int| 0 <= i < rest.len() && rest[i] == y;
                    assert(tail[i + 1] == y);
                    assert(ids[count + 1 + i] == y);
                }
                if tail.contains(y) && y != x {
                    let i = choose|i: int| 0 <= i < tail.len() && tail[i] == y;
                    assert(rest[i - 1] == y);
                }
            }
        }
        assert(after == next);
        lemma_release_runs(world, id, ids, count + 1);
        let wrap = |s: DeleteFile| DeleteImageView::Releasing { ids, index, delete: s };
        let then = |r: Deleted|
            match r {
                Ok(_) => DeleteImageView::release(ids, one_more(index)),
                Err(e) => DeleteImageView::unguard(ids, one_more(index), Err(e)),
            };
        assert forall|s: DeleteFile, reply: ReplyView| #[trigger]
            DeleteImageView::advance(wrap(s), reply) == (match DeleteFile::advance(s, reply).1 {
                StepView::Finish(r) => then(r),
                q => (wrap(DeleteFile::advance(s, reply).0), q.pass()),
            }) by {}
        assert(one_more(index) == (count + 1) as usize);
        lemma_run_part::<DeleteImage, DeleteFile>(before, wrap, then, inner, first);
    } else {
        lemma_run_finish::<DeleteImage>(before, s0, deleted());
    }
}

/// The store when the files of an image are entered into the set of files
/// being deleted.
pub open spec fn guarded_all(world: World, ids: Seq<u128>) -> World {
    World { registry: RegistryView { deleting: ids.to_set(), ..world.registry }, ..world }
}

/// The row and the links of an image are deleted in one transaction, and
/// then its files lose their rows and blobs.
proof fn lemma_unlink_runs(world: World, id: u128, ids: Seq<u128>)
    requires
        holds_alone(world, id),
        lists_files(world, id, ids),
    ensures
        run::<DeleteImage>(
            guarded_all(world, ids),
            DeleteImageView::Beginning { id, ids },
            StepView::Query(StatementView::Begin),
        ) == (released(world, id, ids, ids.len()), Some(deleted())),
{
    let w0 = guarded_all(world, ids);
    let s0 = DeleteImageView::Beginning { id, ids };
    let q0 = StepView::<Deleted>::Query(StatementView::Begin);
    let (w1, r1) = w0.perform(q0);
    let (s1, q1) = s0.advance(r1);
    let (w2, r2) = w1.perform(q1);
    let (s2, q2) = s1.advance(r2);
    let (w3, r3) = w2.perform(q2);
    assert(r3 == ReplyView::Affected(1));
    let (s3, q3) = s2.advance(r3);
    let (w4, r4) = w3.perform(q3);
    let (s4, q4) = s3.advance(r4);
    let next = released(world, id, ids, 0);
    assert(ids.take(0) =~= Seq::empty());
    assert(ids.skip(0) =~= ids);
    assert(w4.tables.files =~= next.tables.files);
    assert(w4.blobs =~= next.blobs);
    assert(w4 == next);
    assert((s4, q4) == DeleteImageView::release(ids, 0));
    lemma_release_runs(world, id, ids, 0);
    lemma_run_step::<DeleteImage>(w3, s3, q3);
    lemma_run_step::<DeleteImage>(w2, s2, q2);
    lemma_run_step::<DeleteImage>(w1, s1, q1);
    lemma_run_step::<DeleteImage>(w0, s0, q0);
}

/// No file of an image that alone holds its files is shared or pinned, so
/// the delete waits for none of them.
proof fn lemma_wait_runs(world: World, id: u128, ids: Seq<u128>, count: nat)
    requires
        holds_alone(world, id),
        lists_files(world, id, ids),
        count <= ids.len(),
    ensures
        run::<DeleteImage>(
            guarded_all(world, ids),
            DeleteImageView::wait(id, ids, count as usize).0,
            DeleteImageView::wait(id, ids, count as usize).1,
        ) == (released(world, id, ids, ids.len()), Some(deleted())),
    decreases ids.len() - count,
{
    let w0 = guarded_all(world, ids);
    let index = count as usize;
    let (s0, q0) = DeleteImageView::wait(id, ids, index);
    if count < ids.len() {
        let x = ids[count as int];
        let files = image_files(world, id);
        assert(ids.contains(x));
        let at = choose|i: int| 0 <= i < files.len() && files[i] == x;
        assert(world.tables.files[files[at]].count == 1);
        assert(w0.perform(q0) == (w0, ReplyView::Flag(false)));
        let (s1, q1) = s0.advance(ReplyView::Flag(false));
        assert(w0.perform(q1) == (w0, ReplyView::Flag(false)));
        assert(s1.advance(ReplyView::Flag(false)) == DeleteImageView::wait(
            id,
            ids,
            (count + 1) as usize,
        ));
        lemma_wait_runs(world, id, ids, count + 1);
        lemma_run_step::<DeleteImage>(w0, s1, q1);
        lemma_run_step::<DeleteImage>(w0, s0, q0);
    } else {
        lemma_unlink_runs(world, id, ids);
    }
}

/// The pins that the delete of an image took to find its files are given
/// back one after the other; then the files are guarded and deleted.
proof fn lemma_unpin_runs(world: World, id: u128, ids: Seq<u128>, count: nat)
    requires
        holds_alone(world, id),
        lists_files(world, id, ids),
        count <= ids.len(),
    ensures
        run::<DeleteImage>(
            pinned(world, ids.skip(count as int)),
            DeleteImageView::unpin(id, ids, count as usize).0,
            DeleteImageView::unpin(id, ids, count as usize).1,
        ) == (released(world, id, ids, ids.len()), Some(deleted())),
    decreases ids.len() - count,
{
    let tail = ids.skip(count as int);
    let w0 = pinned(world, tail);
    let index = count as usize;
    let (s0, q0) = DeleteImageView::unpin(id, ids, index);
    if count < ids.len() {
        let x = ids[count as int];
        let rest = ids.skip(count + 1int);
        assert(tail[0] == x);
        let (w1, r1) = w0.perform(q0);
        assert(w1.registry.opening =~= pinned(world, rest).registry.opening) by {
            assert forall|y: u128| rest.contains(y) <==> tail.contains(y) && y != x by {
                if rest.contains(y) {
                    let i = choose|i: int| 0 <= i < rest.len() && rest[i] == y;
                    assert(tail[i + 1] == y);
                    assert(ids[count + 1 + i] == y);
                }
                if tail.contains(y) && y != x {
                    let i = choose|i: int| 0 <= i < tail.len() && tail[i] == y;
                    assert(rest[i - 1] == y);
                }
            }
        }
        assert(w1 == pinned(world, rest));
        assert(s0.advance(r1) == DeleteImageView::unpin(id, ids, (count + 1) as usize));
        lemma_unpin_runs(world, id, ids, count + 1);
        lemma_run_step::<DeleteImage>(w0, s0, q0);
    } else {
        assert(tail =~= Seq::empty());
        assert(w0.registry.opening =~= world.registry.opening);
        assert(w0 == world);
        lemma_distinct_same(ids);
        let (w1, r1) = world.perform(q0);
        assert(w1.registry.deleting =~= ids.to_set());
        assert(w1 == guarded_all(world, ids));
        assert(r1 == ReplyView::Flag(true));
        assert(s0.advance(r1) == DeleteImageView::wait(id, ids, 0));
        lemma_wait_runs(world, id, ids, 0);
        lemma_run_step::<DeleteImage>(world, s0, q0);
    }
}

/// A list in which nothing occurs twice is the list of its distinct
/// members.
pub proof fn lemma_distinct_same(ids: Seq<u128>)
    requires
        ids.no_duplicates(),
    ensures
        distinct(ids) == ids,
    decreases ids.len(),
{
    if ids.len() > 0 {
        let front = ids.drop_last();
        lemma_distinct_same(front);
        if front.contains(ids.last()) {
            let i = choose|i: int| 0 <= i < front.len() && front[i] == ids.last();
            assert(ids[i] == ids[ids.len() - 1]);
        }
        assert(front.push(ids.last()) =~= ids);
    } else {
        assert(ids =~= Seq::empty());
    }
}

/// The pins on the files of an image that is whole, in the order in which
/// its handle lists them.
pub open spec fn image_pins(world: World, id: u128) -> Seq<u128> {
    let image = whole_image(world, id);
    pins_of(image.original_file, image.thumbnails, image.fallback_thumbnails)
}

/// The handle on an image that alone holds its files lists each file once.
pub proof fn lemma_pins_list_files(world: World, id: u128)
    requires
        holds_alone(world, id),
    ensures
        lists_files(world, id, image_pins(world, id)),
{
    let pins = image_pins(world, id);
    let files = image_files(world, id);
    let first = original_files(world, id);
    let file_ids = thumbnail_files(world, id);
    let n = file_ids.len() as int;
    let half = n / 2;
    let o = first.len() as int;
    let place = |i: int|
        if i < half {
            o + 2 * i
        } else if i < n {
            o + 2 * (i - half) + 1
        } else {
            0
        };
    assert(pins.len() == files.len());
    assert forall|i: int| 0 <= i < pins.len() implies 0 <= place(i) < files.len() && pins[i]
        == files[place(i)] by {
        let at = place(i);
        assert(world.tables.files[files[at]].id == files[at]);
    }
    assert forall|i: int, j: int| 0 <= i < pins.len() && 0 <= j < pins.len() && i != j implies pins[i]
        != pins[j] by {
        assert(place(i) != place(j));
        assert(pins[i] == files[place(i)]);
        assert(pins[j] == files[place(j)]);
    }
    assert forall|x: u128| pins.contains(x) <==> files.contains(x) by {
        if pins.contains(x) {
            let i = choose|i: int| 0 <= i < pins.len() && pins[i] == x;
            assert(files[place(i)] == x);
        }
        if files.contains(x) {
            let at = choose|at: int| 0 <= at < files.len() && files[at] == x;
            let i = if at < o {
                n
            } else if (at - o) % 2 == 0 {
                (at - o) / 2
            } else {
                half + (at - o) / 2
            };
            assert(place(i) == at);
            assert(pins[i] == x);
        }
    }
}

/// The store and the result after deleting an image.
pub open spec fn delete_image(world: World, id: u128) -> (World, Option<Deleted>) {
    let (state, step) = DeleteImageView::begin(id);
    run::<DeleteImage>(world, state, step)
}

/// Deleting an image that alone holds its files deletes its row, its links
/// and its files with their blobs.
pub proof fn lemma_delete_image_runs(world: World, id: u128)
    requires
        holds_alone(world, id),
    ensures
        delete_image(world, id) == (
            released(world, id, image_pins(world, id), image_pins(world, id).len()),
            Some(deleted()),
        ),
{
    let pins = image_pins(world, id);
    let (inner, first) = GetImageView::begin(id);
    lemma_get_image_runs(world, id);
    lemma_pins_list_files(world, id);
    assert(pins.skip(0) =~= pins);
    assert(pinned(world, image_files(world, id)).registry.opening =~= pinned(
        world,
        pins,
    ).registry.opening);
    lemma_unpin_runs(world, id, pins, 0);
    let wrap = |s: GetImageView| DeleteImageView::Getting { id, get: s };
    let then = |r: FoundImage|
        match r {
            Ok(Some(image)) => DeleteImageView::unpin(
                id,
                pins_of(image.original_file, image.thumbnails, image.fallback_thumbnails),
                0,
            ),
            Ok(None) => (DeleteImageView::Finished, StepView::Finish(Ok(false))),
            Err(e) => (DeleteImageView::Finished, StepView::Finish(Err(e))),
        };
    assert forall|s: GetImageView, reply: ReplyView| #[trigger]
        DeleteImageView::advance(wrap(s), reply) == (match s.advance(reply).1 {
            StepView::Finish(r) => then(r),
            q => (wrap(s.advance(reply).0), q.pass()),
        }) by {}
    lemma_run_part::<DeleteImage, GetImage>(world, wrap, then, inner, first);
}

/// After an image that alone held its files is deleted, the store has the
/// files that it had but for those of the image.
pub proof fn lemma_delete_image_frees(world: World, id: u128)
    requires
        holds_alone(world, id),
    ensures
        delete_image(world, id).1 == Some(deleted()),
        delete_image(world, id).0.tables.files == world.tables.files.remove_keys(
            image_files(world, id).to_set(),
        ),
{
    lemma_delete_image_runs(world, id);
    lemma_pins_list_files(world, id);
    let pins = image_pins(world, id);
    assert(pins.take(pins.len() as int) =~= pins);
    assert(pins.to_set() =~= image_files(world, id).to_set());
}

} // verus!
