//! Laws of the images of the store.

use vstd::prelude::*;
use crate::guard::GuardRequestView;
use crate::guard::RegistryView;
use crate::image::thumbnail_links;
use crate::image_types::pins_of;
use crate::image_types::ThumbnailLink;
use crate::laws_image::image_work;
use crate::laws_image::lemma_put_image_runs;
use crate::laws_image::put_image;
use crate::laws_image::put_image_ok;
use crate::laws_image::put_image_outcome;
use crate::laws_image_delete::delete_image;
use crate::laws_image_delete::deleted;
use crate::laws_image_delete::holds_alone;
use crate::laws_image_delete::image_pins;
use crate::laws_image_delete::lemma_delete_image_frees;
use crate::laws_image_delete::lemma_delete_image_runs;
use crate::laws_image_delete::lemma_pins_list_files;
use crate::laws_image::recorded;
use crate::laws_image_files::files_in_order;
use crate::laws_image_files::paired;
use crate::laws_image_files::stores;
use crate::laws_image_get::image_is_whole;
use crate::put_image::ImageWorkView;
use crate::laws_image_files::lemma_image_work_keeps;
use crate::laws_image_get::image_files;
use crate::laws_image_get::original_files;
use crate::laws_image_get::pinned;
use crate::laws_image_get::thumbnail_files;
use crate::model::Tables;
use crate::model::World;
use crate::put_image::ImageRequestView;

verus! {

/// Every file that a resource, a link or an image refers to is in the
/// store.
pub open spec fn references_hold(tables: Tables) -> bool {
    &&& forall|r: u128| #[trigger]
        tables.resources.contains_key(r) ==> tables.files.contains_key(
            tables.resources[r].file_id,
        )
    &&& forall|j: int|
        0 <= j < tables.thumbnails.len() ==> tables.files.contains_key(
            (#[trigger] tables.thumbnails[j]).file_id,
        )
    &&& forall|m: u128| #[trigger]
        tables.images.contains_key(m) ==> match tables.images[m].original_file_id {
            Some(file_id) => tables.files.contains_key(file_id),
            None => true,
        }
}

/// Whether no link of the store belongs to the image `id`.
pub open spec fn has_no_link(world: World, id: u128) -> bool {
    forall|j: int|
        0 <= j < world.tables.thumbnails.len() ==> (#[trigger] world.tables.thumbnails[j]).image_id
            != id
}

/// The store after the pins of a handle on an image have been given back,
/// one after the other.
pub open spec fn handle_dropped(world: World, pins: Seq<u128>) -> World
    decreases pins.len(),
{
    if pins.len() == 0 {
        world
    } else {
        handle_dropped(world.guarded(GuardRequestView::ReleaseOpen(pins[0])), pins.skip(1))
    }
}

/// The store with nothing going on in it.
pub open spec fn at_rest(world: World) -> World {
    World { registry: RegistryView::empty(), ..world }
}

/// When the one pin on each of several files is given back, nothing is
/// pinned.
proof fn lemma_handle_dropped(world: World, pins: Seq<u128>)
    requires
        pins.no_duplicates(),
        world.registry == RegistryView::empty(),
    ensures
        handle_dropped(pinned(world, pins), pins) == world,
    decreases pins.len(),
{
    if pins.len() == 0 {
        assert(pinned(world, pins).registry.opening =~= world.registry.opening);
    } else {
        let x = pins[0];
        let rest = pins.skip(1);
        let next = pinned(world, pins).guarded(GuardRequestView::ReleaseOpen(x));
        assert(next.registry.opening =~= pinned(world, rest).registry.opening) by {
            assert forall|y: u128| rest.contains(y) <==> pins.contains(y) && y != x by {
                if rest.contains(y) {
                    let i = choose|i: int| 0 <= i < rest.len() && rest[i] == y;
                    assert(pins[i + 1] == y);
                }
                if pins.contains(y) && y != x {
                    let i = choose|i: int| 0 <= i < pins.len() && pins[i] == y;
                    assert(rest[i - 1] == y);
                }
            }
        }
        assert(next == pinned(world, rest));
        lemma_handle_dropped(world, rest);
    }
}

/// A list of which every member passes a test is kept whole by the test.
proof fn lemma_filter_keeps_all(links: Seq<ThumbnailLink>, pred: spec_fn(ThumbnailLink) -> bool)
    requires
        forall|i: int| 0 <= i < links.len() ==> pred(#[trigger] links[i]),
    ensures
        links.filter(pred) == links,
    decreases links.len(),
{
    reveal(Seq::filter);
    if links.len() > 0 {
        lemma_filter_keeps_all(links.drop_last(), pred);
        assert(links.drop_last().push(links.last()) =~= links);
    }
}

/// The links of a new image in a store that has recorded it are the links
/// that were recorded.
proof fn lemma_links_of_new(
    before: Seq<ThumbnailLink>,
    links: Seq<ThumbnailLink>,
    id: u128,
)
    requires
        forall|j: int| 0 <= j < before.len() ==> (#[trigger] before[j]).image_id != id,
        forall|j: int| 0 <= j < links.len() ==> (#[trigger] links[j]).image_id == id,
    ensures
        (before + links).filter(|l: ThumbnailLink| l.image_id == id) == links,
        (before + links).filter(|l: ThumbnailLink| l.image_id != id) == before,
{
    let is = |l: ThumbnailLink| l.image_id == id;
    let not = |l: ThumbnailLink| l.image_id != id;
    Seq::filter_distributes_over_add(before, links, is);
    Seq::filter_distributes_over_add(before, links, not);
    lemma_filter_keeps_all(links, is);
    lemma_filter_keeps_all(before, not);
    if before.filter(is).len() > 0 {
        let link = before.filter(is)[0];
        before.lemma_filter_pred(is, 0);
        assert(before.filter(is).contains(link));
        before.lemma_filter_contains_rev(is, link);
    }
    if links.filter(not).len() > 0 {
        let link = links.filter(not)[0];
        links.lemma_filter_pred(not, 0);
        assert(links.filter(not).contains(link));
        links.lemma_filter_contains_rev(not, link);
    }
    assert(before.filter(is) =~= Seq::empty());
    assert(links.filter(not) =~= Seq::empty());
    assert(before.filter(is) + links =~= links);
    assert(before + links.filter(not) =~= before);
}

/// The files of the thumbnails of an image, as its links list them, are
/// the files of its thumbnails by rising multiplier, WebP before fallback.
proof fn lemma_link_files(work: ImageWorkView)
    requires
        work.thumbnails.len() == work.fallback_thumbnails.len(),
    ensures
        thumbnail_links(
            work.image_id,
            work.thumbnails,
            work.fallback_thumbnails,
        ).map_values(|l: ThumbnailLink| l.file_id) == Seq::new(
            work.thumbnails.len() + work.fallback_thumbnails.len(),
            |j: int|
                if j % 2 == 0 {
                    work.thumbnails[j / 2].id
                } else {
                    work.fallback_thumbnails[j / 2].id
                },
        ),
        forall|j: int|
            0 <= j < 2 * work.thumbnails.len() ==> (#[trigger] thumbnail_links(
                work.image_id,
                work.thumbnails,
                work.fallback_thumbnails,
            )[j]).image_id == work.image_id,
        thumbnail_links(work.image_id, work.thumbnails, work.fallback_thumbnails).len() == 2
            * work.thumbnails.len(),
{
    let links = thumbnail_links(work.image_id, work.thumbnails, work.fallback_thumbnails);
    let files = links.map_values(|l: ThumbnailLink| l.file_id);
    let listed = Seq::new(
        work.thumbnails.len() + work.fallback_thumbnails.len(),
        |j: int|
            if j % 2 == 0 {
                work.thumbnails[j / 2].id
            } else {
                work.fallback_thumbnails[j / 2].id
            },
    );
    assert(files.len() == listed.len());
    assert forall|j: int| 0 <= j < files.len() implies files[j] == listed[j] by {
        assert(files[j] == links[j].file_id);
    }
    assert(files =~= listed);
}

/// The files of an image that has just been recorded are the files that the
/// put of the image held.
proof fn lemma_recorded_files(world: World, kept: World, work: ImageWorkView)
    requires
        kept.tables.thumbnails == world.tables.thumbnails,
        work.thumbnails.len() == work.fallback_thumbnails.len(),
        has_no_link(world, work.image_id),
    ensures
        image_files(at_rest(recorded(kept, work)), work.image_id) == files_in_order(work),
        at_rest(recorded(kept, work)).tables.thumbnails == world.tables.thumbnails
            + thumbnail_links(work.image_id, work.thumbnails, work.fallback_thumbnails),
        thumbnail_files(at_rest(recorded(kept, work)), work.image_id).len() == 2
            * work.thumbnails.len(),
{
    let id = work.image_id;
    let rest = at_rest(recorded(kept, work));
    let links = thumbnail_links(id, work.thumbnails, work.fallback_thumbnails);
    lemma_link_files(work);
    lemma_recorded_links(world, kept, work);
    assert(thumbnail_files(rest, id) == links.map_values(|l: ThumbnailLink| l.file_id));
    assert(original_files(rest, id) == match work.original_file {
        Some(file) => seq![file.id],
        None => Seq::empty(),
    });
}

/// The links of an image that has just been recorded are the links that
/// were recorded.
proof fn lemma_recorded_links(world: World, kept: World, work: ImageWorkView)
    requires
        kept.tables.thumbnails == world.tables.thumbnails,
        work.thumbnails.len() == work.fallback_thumbnails.len(),
        has_no_link(world, work.image_id),
    ensures
        at_rest(recorded(kept, work)).tables.links_of(work.image_id) == thumbnail_links(
            work.image_id,
            work.thumbnails,
            work.fallback_thumbnails,
        ),
{
    let links = thumbnail_links(work.image_id, work.thumbnails, work.fallback_thumbnails);
    lemma_link_files(work);
    lemma_links_of_new(world.tables.thumbnails, links, work.image_id);
}

/// An image that has just been recorded, with at least one thumbnail, each
/// of its files beside what the store had, alone holds its files once its
/// handle is dropped.
proof fn lemma_recorded_holds_alone(world: World, kept: World, work: ImageWorkView)
    requires
        stores(world, kept, files_in_order(work)),
        paired(work, false),
        work.thumbnails.len() > 0,
        has_no_link(world, work.image_id),
        references_hold(world.tables),
        !world.tables.images.contains_key(work.image_id),
    ensures
        holds_alone(at_rest(recorded(kept, work)), work.image_id),
{
    let id = work.image_id;
    let rest = at_rest(recorded(kept, work));
    let ids = files_in_order(work);
    let links = thumbnail_links(id, work.thumbnails, work.fallback_thumbnails);
    lemma_recorded_files(world, kept, work);
    assert forall|i: int| 0 <= i < ids.len() implies {
        &&& rest.tables.files.contains_key(#[trigger] ids[i])
        &&& !world.tables.files.contains_key(ids[i])
        &&& rest.tables.files[ids[i]].expired_at is None
        &&& rest.tables.files[ids[i]].count == 1
        &&& rest.tables.files[ids[i]].id == ids[i]
    } by {
        assert(ids.contains(ids[i]));
    }
    assert forall|r: u128| #[trigger] rest.tables.resources.contains_key(r) implies !ids.contains(
        rest.tables.resources[r].file_id,
    ) by {
        assert(world.tables.resources.contains_key(r));
    }
    assert forall|j: int|
        0 <= j < rest.tables.thumbnails.len() && ids.contains(
            (#[trigger] rest.tables.thumbnails[j]).file_id,
        ) implies rest.tables.thumbnails[j].image_id == id by {
        if j < world.tables.thumbnails.len() {
            assert(rest.tables.thumbnails[j] == world.tables.thumbnails[j]);
            assert(world.tables.files.contains_key(world.tables.thumbnails[j].file_id));
        } else {
            assert(rest.tables.thumbnails[j] == links[j - world.tables.thumbnails.len()]);
        }
    }
    assert forall|m: u128| #[trigger]
        rest.tables.images.contains_key(m) && m != id implies match rest.tables.images[m].original_file_id {
        Some(file_id) => !ids.contains(file_id),
        None => true,
    } by {
        assert(world.tables.images.contains_key(m));
    }
    assert(image_is_whole(rest, id));
}

/// The handle on an image that has just been recorded lists each file of
/// the image once; when it is dropped, nothing is pinned.
proof fn lemma_recorded_handle_drops(world: World, kept: World, work: ImageWorkView)
    requires
        stores(world, kept, files_in_order(work)),
        paired(work, false),
        has_no_link(world, work.image_id),
        holds_alone(at_rest(recorded(kept, work)), work.image_id),
    ensures
        handle_dropped(
            recorded(kept, work),
            pins_of(work.original_file, work.thumbnails, work.fallback_thumbnails),
        ) == at_rest(recorded(kept, work)),
{
    let id = work.image_id;
    let stored = recorded(kept, work);
    let rest = at_rest(stored);
    let ids = files_in_order(work);
    let file_ids = thumbnail_files(rest, id);
    let first = original_files(rest, id);
    let pins = pins_of(work.original_file, work.thumbnails, work.fallback_thumbnails);
    lemma_recorded_files(world, kept, work);
    lemma_pins_list_files(rest, id);
    assert forall|i: int| 0 <= i < ids.len() implies rest.tables.files[#[trigger] ids[i]].id
        == ids[i] by {}
    assert forall|j: int| 0 <= j < work.thumbnails.len() implies file_ids[2 * j]
        == work.thumbnails[j].id by {
        assert(ids[first.len() + 2 * j] == file_ids[2 * j]);
    }
    assert forall|j: int| 0 <= j < work.fallback_thumbnails.len() implies file_ids[2 * j + 1]
        == work.fallback_thumbnails[j].id by {
        assert(ids[first.len() + 2 * j + 1] == file_ids[2 * j + 1]);
    }
    let listed = image_pins(rest, id);
    let pairs = work.thumbnails.len() as int;
    assert(file_ids.len() == 2 * pairs);
    assert((file_ids.len() + 1) / 2 == pairs);
    assert(file_ids.len() / 2 == pairs);
    assert(pins.len() == listed.len());
    assert forall|i: int| 0 <= i < pins.len() implies pins[i] == listed[i] by {
        if i < pairs {
            assert(ids[first.len() + 2 * i] == file_ids[2 * i]);
        } else if i < 2 * pairs {
            assert(ids[first.len() + 2 * (i - pairs) + 1] == file_ids[2 * (i - pairs) + 1]);
        } else {
            assert(ids[0] == first[0]);
        }
    }
    assert(pins =~= listed);
    assert(stored.registry.opening =~= pinned(rest, pins).registry.opening);
    assert(stored == pinned(rest, pins));
    lemma_handle_dropped(rest, pins);
}

/// An image that was put with at least one thumbnail, each of its files new
/// to a store in which nothing else was going on, alone holds its files once
/// its handle is dropped.
pub proof fn lemma_put_image_holds_alone(world: World, request: ImageRequestView)
    requires
        world.saved is None,
        world.registry == RegistryView::empty(),
        references_hold(world.tables),
        has_no_link(world, request.image_id),
        put_image_outcome(world, request) matches Some((_, image)) && image.thumbnails.len() > 0,
    ensures
        ({
            let (stored, image) = put_image_outcome(world, request).unwrap();
            let pins = pins_of(image.original_file, image.thumbnails, image.fallback_thumbnails);
            &&& image.id == request.image_id
            &&& handle_dropped(stored, pins) == at_rest(stored)
            &&& holds_alone(at_rest(stored), image.id)
            &&& at_rest(stored).tables.files.remove_keys(
                image_files(at_rest(stored), image.id).to_set(),
            ) == world.tables.files
        }),
{
    let (kept, work) = image_work(world, request).unwrap();
    lemma_image_work_keeps(world, request);
    lemma_recorded_files(world, kept, work);
    lemma_recorded_holds_alone(world, kept, work);
    lemma_recorded_handle_drops(world, kept, work);
    let rest = at_rest(recorded(kept, work));
    assert(rest.tables.files.remove_keys(files_in_order(work).to_set()) =~= world.tables.files);
}

/// Putting an image and then deleting it leaves the store with the files
/// that it had. The image is put with at least one thumbnail, each of its
/// files new to a store in which nothing else is going on; its handle is
/// dropped before it is deleted.
pub proof fn law_image_put_then_delete(world: World, request: ImageRequestView)
    requires
        world.saved is None,
        world.registry == RegistryView::empty(),
        references_hold(world.tables),
        has_no_link(world, request.image_id),
        put_image_outcome(world, request) matches Some((_, image)) && image.thumbnails.len() > 0,
    ensures
        ({
            let (stored, put) = put_image(world, request);
            let image = put_image_outcome(world, request).unwrap().1;
            let pins = pins_of(image.original_file, image.thumbnails, image.fallback_thumbnails);
            let (after, result) = delete_image(handle_dropped(stored, pins), image.id);
            &&& put == Some(put_image_ok(image))
            &&& result == Some(deleted())
            &&& after.tables.files == world.tables.files
        }),
{
    lemma_put_image_runs(world, request);
    lemma_put_image_holds_alone(world, request);
    let (stored, image) = put_image_outcome(world, request).unwrap();
    lemma_delete_image_frees(at_rest(stored), image.id);
}

/// Every live file has its blob after a put of an image, if every live file
/// had it before.
pub proof fn law_image_put_keeps_blobs(world: World, request: ImageRequestView)
    requires
        world.saved is None,
        world.registry == RegistryView::empty(),
        world.blobs_cover_files(),
        put_image_outcome(world, request) is Some,
    ensures
        put_image(world, request).0.blobs_cover_files(),
{
    lemma_put_image_runs(world, request);
    lemma_image_work_keeps(world, request);
    let (kept, work) = image_work(world, request).unwrap();
    let after = recorded(kept, work);
    let ids = files_in_order(work);
    assert forall|id: u128| #[trigger]
        after.tables.files.contains_key(id) && after.tables.files[id].is_live(
            after.now,
        ) implies after.blobs.contains(id) by {
        if world.tables.files.contains_key(id) {
            assert(kept.tables.files[id] == world.tables.files[id]);
        } else {
            assert(ids.contains(id));
        }
        assert(kept.blobs.contains(id));
    }
}

/// The count of every file stays at one or more through a put of an image.
pub proof fn law_image_put_keeps_counts(world: World, request: ImageRequestView)
    requires
        world.saved is None,
        world.registry == RegistryView::empty(),
        world.tables.wf(),
        put_image_outcome(world, request) is Some,
    ensures
        put_image(world, request).0.tables.wf(),
{
    lemma_put_image_runs(world, request);
    lemma_image_work_keeps(world, request);
    let (kept, work) = image_work(world, request).unwrap();
    let after = recorded(kept, work);
    let ids = files_in_order(work);
    assert forall|id: u128| #[trigger] after.tables.files.contains_key(id) implies {
        &&& after.tables.files[id].id == id
        &&& after.tables.files[id].count >= 1
    } by {
        if world.tables.files.contains_key(id) {
            assert(kept.tables.files[id] == world.tables.files[id]);
        } else {
            assert(ids.contains(id));
            let i = choose|i: int| 0 <= i < ids.len() && ids[i] == id;
            assert(kept.tables.files[ids[i]].count == 1);
        }
    }
}

/// Every live file has its blob, and the count of every file stays at one
/// or more, after the delete of an image that alone held its files, if that
/// held before.
pub proof fn law_image_delete_keeps_blobs_and_counts(world: World, id: u128)
    requires
        holds_alone(world, id),
    ensures
        world.blobs_cover_files() ==> delete_image(world, id).0.blobs_cover_files(),
        world.tables.wf() ==> delete_image(world, id).0.tables.wf(),
{
    lemma_delete_image_runs(world, id);
}

} // verus!
