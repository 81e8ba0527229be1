//! What getting an image comes to.

use vstd::prelude::*;
use crate::datalith_errors::DatalithReadError;
use crate::datalith_file::handle_of;
use crate::datalith_file::DatalithFileView;
use crate::get_file::GetFile;
use crate::guard::RegistryView;
use crate::image_ops::GetImage;
use crate::image_ops::GetImageTurn;
use crate::image_ops::GetImageView;
use crate::image_ops::ImageFilesView;
use crate::image_types::image_of;
use crate::image_types::pins_of;
use crate::image_types::DatalithImageView;
use crate::image_types::ThumbnailLink;
use crate::laws::get_file;
use crate::laws::lemma_get_file_runs;
use crate::model::World;
use crate::operation::Operation;
use crate::operation::lemma_run_finish;
use crate::operation::lemma_run_is;
use crate::operation::lemma_run_part;
use crate::operation::lemma_run_step;
use crate::operation::run;
use crate::step::ReplyView;
use crate::step::StepView;

verus! {

/// The result of getting an image, as a mathematical value.
pub type FoundImage = Result<Option<DatalithImageView>, DatalithReadError>;

/// The result of getting a file, as a mathematical value.
pub type FoundFile = Result<Option<DatalithFileView>, DatalithReadError>;

/// The files of the thumbnails of an image, as the store lists them.
pub open spec fn thumbnail_files(world: World, id: u128) -> Seq<u128> {
    world.tables.links_of(id).map_values(|l: ThumbnailLink| l.file_id)
}

/// The file of an image as it was put, where it is kept, as a list.
pub open spec fn original_files(world: World, id: u128) -> Seq<u128> {
    match world.tables.images[id].original_file_id {
        Some(file_id) => seq![file_id],
        None => Seq::empty(),
    }
}

/// The files of an image: the file of the image as it was put, where it is
/// kept, and the files of its thumbnails.
pub open spec fn image_files(world: World, id: u128) -> Seq<u128> {
    original_files(world, id) + thumbnail_files(world, id)
}

/// An image that is whole, in a store in which nothing else is going on: the
/// image has a row and thumbnails in pairs, and each of its files is another
/// permanent file of the store.
pub open spec fn image_is_whole(world: World, id: u128) -> bool {
    let files = image_files(world, id);
    &&& world.registry == RegistryView::empty()
    &&& world.tables.images.contains_key(id)
    &&& thumbnail_files(world, id).len() > 0
    &&& thumbnail_files(world, id).len() % 2 == 0
    &&& thumbnail_files(world, id).len() < usize::MAX
    &&& files.no_duplicates()
    &&& forall|i: int|
        0 <= i < files.len() ==> {
            &&& world.tables.files.contains_key(#[trigger] files[i])
            &&& world.tables.files[files[i]].expired_at is None
        }
}

/// The store with one pin on each of the files of a list.
pub open spec fn pinned(world: World, ids: Seq<u128>) -> World {
    World {
        registry: RegistryView {
            opening: Map::new(|x: u128| ids.contains(x), |x: u128| 1usize),
            ..world.registry
        },
        ..world
    }
}

/// The handle on a permanent file that was in the store before.
pub open spec fn kept_handle(world: World, id: u128) -> DatalithFileView {
    handle_of(world.tables.files[id], false, false)
}

/// The handle on the file of an image as it was put, where it is kept.
pub open spec fn original_handle(world: World, id: u128) -> Option<DatalithFileView> {
    match world.tables.images[id].original_file_id {
        Some(file_id) => Some(kept_handle(world, file_id)),
        None => None,
    }
}

/// The files of an image when `count` of its thumbnails are got.
pub open spec fn files_got(world: World, id: u128, count: nat) -> ImageFilesView {
    let file_ids = thumbnail_files(world, id);
    ImageFilesView {
        row: world.tables.images[id],
        file_ids,
        original_file: original_handle(world, id),
        thumbnails: Seq::new((count + 1) / 2, |j: int| kept_handle(world, file_ids[2 * j])),
        fallback_thumbnails: Seq::new(count / 2, |j: int| kept_handle(world, file_ids[2 * j + 1])),
    }
}

/// The handle on an image that is whole.
pub open spec fn whole_image(world: World, id: u128) -> DatalithImageView {
    let files = files_got(world, id, thumbnail_files(world, id).len());
    image_of(files.row, files.original_file, files.thumbnails, files.fallback_thumbnails)
}

/// The result of getting an image that is found.
pub open spec fn found_image(image: DatalithImageView) -> FoundImage {
    Ok(Some(image))
}

/// The files of an image that are pinned when `count` of its thumbnails are
/// got.
pub open spec fn pins_got(world: World, id: u128, count: nat) -> Seq<u128> {
    original_files(world, id) + thumbnail_files(world, id).take(count as int)
}

/// Getting a file of an image that is whole pins the file and finds it.
proof fn lemma_get_next_runs(world: World, id: u128, pins: Seq<u128>, file_id: u128)
    requires
        image_is_whole(world, id),
        !pins.contains(file_id),
        world.tables.files.contains_key(file_id),
        world.tables.files[file_id].expired_at is None,
    ensures
        run::<GetFile>(
            pinned(world, pins),
            GetFile::begin_spec(file_id, world.now).0,
            GetFile::begin_spec(file_id, world.now).1,
        ) == (pinned(world, pins.push(file_id)), Some(found_file(kept_handle(world, file_id)))),
{
    let before = pinned(world, pins);
    let after = pinned(world, pins.push(file_id));
    lemma_get_file_runs(before, file_id, world.now);
    let (state, step) = GetFile::begin_spec(file_id, world.now);
    lemma_run_is::<GetFile>(before, state, step, 8);
    let got = get_file(before, file_id, world.now).0;
    assert(got.registry.opening =~= after.registry.opening) by {
        assert forall|x: u128| pins.push(file_id).contains(x) <==> pins.contains(x) || x
            == file_id by {
            if pins.contains(x) {
                let i = choose|i: int| 0 <= i < pins.len() && pins[i] == x;
                assert(pins.push(file_id)[i] == x);
            }
            assert(pins.push(file_id)[pins.len() as int] == file_id);
        }
    }
    assert(got.tables.files =~= world.tables.files);
    assert(got.tables == world.tables);
    assert(got == after);
}

/// The result of getting a file that is found.
pub open spec fn found_file(file: DatalithFileView) -> FoundFile {
    Ok(Some(file))
}

/// A file of an image that is whole is none of the files before it.
proof fn lemma_next_is_new(world: World, id: u128, count: nat)
    requires
        image_is_whole(world, id),
        count < thumbnail_files(world, id).len(),
    ensures
        !pins_got(world, id, count).contains(thumbnail_files(world, id)[count as int]),
        world.tables.files.contains_key(thumbnail_files(world, id)[count as int]),
        world.tables.files[thumbnail_files(world, id)[count as int]].expired_at is None,
        pins_got(world, id, count).push(thumbnail_files(world, id)[count as int]) == pins_got(
            world,
            id,
            count + 1,
        ),
{
    let files = image_files(world, id);
    let first = original_files(world, id);
    let file_ids = thumbnail_files(world, id);
    let pins = pins_got(world, id, count);
    let at = first.len() + count;
    assert(files[at as int] == file_ids[count as int]);
    if pins.contains(file_ids[count as int]) {
        let i = choose|i: int| 0 <= i < pins.len() && pins[i] == file_ids[count as int];
        assert(files[i] == pins[i]);
    }
    assert(pins.push(file_ids[count as int]) =~= pins_got(world, id, count + 1));
}

/// The thumbnails of an image that is whole are got one after the other,
/// each with a pin, and then the image is handed out.
proof fn lemma_get_thumbnails_run(world: World, id: u128, count: nat)
    requires
        image_is_whole(world, id),
        count <= thumbnail_files(world, id).len(),
    ensures
        run::<GetImage>(
            pinned(world, pins_got(world, id, count)),
            GetImageView::next(files_got(world, id, count)).0,
            GetImageView::next(files_got(world, id, count)).1,
        ) == (
            pinned(world, image_files(world, id)),
            Some(found_image(whole_image(world, id))),
        ),
    decreases thumbnail_files(world, id).len() - count,
{
    let file_ids = thumbnail_files(world, id);
    let n = file_ids.len();
    let files = files_got(world, id, count);
    let pins = pins_got(world, id, count);
    let before = pinned(world, pins);
    let (s0, q0) = GetImageView::next(files);
    assert(GetImageView::got(files) == count);
    assert(2 * (n / 2) == n);
    if count < n {
        let file_id = file_ids[count as int];
        let now = world.now;
        assert(before.perform(q0) == (before, ReplyView::Time(now)));
        let (s1, q1) = s0.advance(ReplyView::Time(now));
        let (inner, first) = GetFile::begin_spec(file_id, now);
        lemma_next_is_new(world, id, count);
        lemma_get_next_runs(world, id, pins, file_id);
        lemma_get_thumbnails_run(world, id, count + 1);
        let more = files_got(world, id, count + 1);
        let wrap = |s: GetFile| GetImageView::Getting { files, original: false, get: s };
        let then = |r: FoundFile| then_got(files, false, r);
        assert forall|s: GetFile, reply: ReplyView| #[trigger]
            GetImageView::advance(wrap(s), reply) == (match GetFile::advance(s, reply).1 {
                StepView::Finish(r) => then(r),
                q => (wrap(GetFile::advance(s, reply).0), q.pass()),
            }) by {}
        let file = kept_handle(world, file_id);
        if count % 2 == 0 {
            assert(files.thumbnails.push(file) =~= more.thumbnails);
            assert(files.fallback_thumbnails =~= more.fallback_thumbnails);
        } else {
            assert(files.thumbnails =~= more.thumbnails);
            assert(files.fallback_thumbnails.push(file) =~= more.fallback_thumbnails);
        }
        assert(then(found_file(file)) == GetImageView::next(more));
        lemma_run_part::<GetImage, GetFile>(before, wrap, then, inner, first);
        assert((s1, q1) == (wrap(inner), first.pass::<FoundImage>()));
        lemma_run_step::<GetImage>(before, s0, q0);
    } else {
        assert(pins =~= image_files(world, id));
        lemma_run_finish::<GetImage>(before, s0, found_image(whole_image(world, id)));
    }
}

/// How a get of an image goes on from the result of getting one of its
/// files.
pub open spec fn then_got(files: ImageFilesView, original: bool, r: FoundFile) -> GetImageTurn {
    let pins = pins_of(files.original_file, files.thumbnails, files.fallback_thumbnails);
    match r {
        Ok(found) => if original {
            GetImageView::next(ImageFilesView { original_file: found, ..files })
        } else {
            match found {
                Some(file) => if files.thumbnails.len() <= files.fallback_thumbnails.len() {
                    GetImageView::next(
                        ImageFilesView { thumbnails: files.thumbnails.push(file), ..files },
                    )
                } else {
                    GetImageView::next(
                        ImageFilesView {
                            fallback_thumbnails: files.fallback_thumbnails.push(file),
                            ..files
                        },
                    )
                },
                None => GetImageView::unpin(pins, 0, None),
            }
        },
        Err(e) => GetImageView::unpin(pins, 0, Some(e)),
    }
}

/// The store and the result after getting an image.
pub open spec fn get_image(world: World, id: u128) -> (World, Option<FoundImage>) {
    let (state, step) = GetImageView::begin(id);
    run::<GetImage>(world, state, step)
}

/// Getting an image that is whole pins each of its files and hands out the
/// image.
pub proof fn lemma_get_image_runs(world: World, id: u128)
    requires
        image_is_whole(world, id),
    ensures
        get_image(world, id) == (
            pinned(world, image_files(world, id)),
            Some(found_image(whole_image(world, id))),
        ),
{
    let file_ids = thumbnail_files(world, id);
    let row = world.tables.images[id];
    let (s0, q0) = GetImageView::begin(id);
    assert(world.perform(q0) == (world, ReplyView::Ids(file_ids)));
    let (s1, q1) = s0.advance(ReplyView::Ids(file_ids));
    assert(world.perform(q1) == (world, ReplyView::Image(Some(row))));
    let (s2, q2) = s1.advance(ReplyView::Image(Some(row)));
    let empty = ImageFilesView {
        row,
        file_ids,
        original_file: None,
        thumbnails: Seq::empty(),
        fallback_thumbnails: Seq::empty(),
    };
    let first = files_got(world, id, 0);
    assert(first.thumbnails =~= Seq::empty());
    assert(first.fallback_thumbnails =~= Seq::empty());
    lemma_get_thumbnails_run(world, id, 0);
    assert(pins_got(world, id, 0) =~= original_files(world, id));
    assert(pinned(world, Seq::empty()).registry.opening =~= world.registry.opening);
    assert(pinned(world, Seq::empty()) == world);
    match row.original_file_id {
        Some(file_id) => {
            let now = world.now;
            assert(world.perform(q2) == (world, ReplyView::Time(now)));
            let (s3, q3) = s2.advance(ReplyView::Time(now));
            let (inner, begun) = GetFile::begin_spec(file_id, now);
            let files = image_files(world, id);
            assert(files[0] == file_id);
            lemma_get_next_runs(world, id, Seq::empty(), file_id);
            assert(Seq::<u128>::empty().push(file_id) =~= original_files(world, id));
            let wrap = |s: GetFile| GetImageView::Getting { files: empty, original: true, get: s };
            let then = |r: FoundFile| then_got(empty, true, r);
            assert forall|s: GetFile, reply: ReplyView| #[trigger]
                GetImageView::advance(wrap(s), reply) == (match GetFile::advance(s, reply).1 {
                    StepView::Finish(r) => then(r),
                    q => (wrap(GetFile::advance(s, reply).0), q.pass()),
                }) by {}
            assert(ImageFilesView { original_file: Some(kept_handle(world, file_id)), ..empty }
                == first);
            lemma_run_part::<GetImage, GetFile>(world, wrap, then, inner, begun);
            assert((s3, q3) == (wrap(inner), begun.pass::<FoundImage>()));
            lemma_run_step::<GetImage>(world, s2, q2);
        },
        None => {
            assert(empty == first);
        },
    }
    lemma_run_step::<GetImage>(world, s1, q1);
    lemma_run_step::<GetImage>(world, s0, q0);
}

} // verus!
