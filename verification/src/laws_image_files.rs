//! The files that a put of an image leaves in the store.

use vstd::prelude::*;
use crate::guard::RegistryView;
use crate::image::multiplier_fits;
use crate::image::image_metadata;
use crate::laws_image::cropped;
use crate::laws_image::encoded;
use crate::laws_image::fitted;
use crate::laws_image::image_work;
use crate::laws_image::started;
use crate::put_image::original_request;
use crate::put_image::ImageRequestView;
use crate::step::CodecRequest;
use crate::laws_image::with_thumbnail;
use crate::laws_image::codec_reply;
use crate::laws_image_get::pinned;
use crate::laws_put::can_put;
use crate::laws_put::finds_file;
use crate::laws_put::put_file_outcome;
use crate::media_type::FileTypeLevel;
use crate::model::World;
use crate::put_file::PutRequestView;
use crate::put_image::thumbnail_request;
use crate::put_image::ImageWorkView;
use crate::put_image::PutImageView;
use crate::step::StepView;

verus! {

/// A store that has, beside what a store `base` in which nothing is going on
/// has, the files of a list, each once: each of them is a permanent file
/// with one holder and one pin, and none of them is a file of `base`.
pub open spec fn stores(base: World, world: World, ids: Seq<u128>) -> bool {
    &&& base.registry == RegistryView::empty()
    &&& world.saved is None
    &&& world.now == base.now
    &&& forall|x: u128|
        #![trigger world.blobs.contains(x)]
        world.blobs.contains(x) <==> base.blobs.contains(x) || ids.contains(x)
    &&& world.tables.resources == base.tables.resources
    &&& world.tables.images == base.tables.images
    &&& world.tables.thumbnails == base.tables.thumbnails
    &&& world.registry == pinned(base, ids).registry
    &&& ids.no_duplicates()
    &&& forall|x: u128|
        #![trigger world.tables.files.contains_key(x)]
        #![trigger ids.contains(x)]
        world.tables.files.contains_key(x) <==> base.tables.files.contains_key(x) || ids.contains(
            x,
        )
    &&& forall|x: u128| #[trigger]
        base.tables.files.contains_key(x) ==> !ids.contains(x) && world.tables.files[x]
            == base.tables.files[x]
    &&& forall|i: int|
        0 <= i < ids.len() ==> {
            &&& world.tables.files[#[trigger] ids[i]].id == ids[i]
            &&& world.tables.files[ids[i]].count == 1
            &&& world.tables.files[ids[i]].expired_at is None
        }
}

/// A put of a new permanent file, under the type that the caller gives,
/// adds that file to the files that the store has beside those of `base`.
pub proof fn lemma_put_keeps(base: World, world: World, ids: Seq<u128>, put: PutRequestView)
    requires
        stores(base, world, ids),
        can_put(world, put),
        !finds_file(world, put),
        !put.temporary,
        put.file_type matches Some((_, FileTypeLevel::Manual)),
    ensures
        put_file_outcome(world, put).1 matches Ok(file) && file.id == put.id,
        stores(base, put_file_outcome(world, put).0, ids.push(put.id)),
{
    let (after, result) = put_file_outcome(world, put);
    let more = ids.push(put.id);
    assert forall|x: u128| more.contains(x) <==> ids.contains(x) || x == put.id by {
        if ids.contains(x) {
            let i = choose|i: int| 0 <= i < ids.len() && ids[i] == x;
            assert(more[i] == x);
        }
        assert(more[ids.len() as int] == put.id);
    }
    assert(!ids.contains(put.id));
    assert(after.registry.opening =~= pinned(base, more).registry.opening);
    assert forall|i: int| 0 <= i < more.len() implies {
        &&& after.tables.files[#[trigger] more[i]].id == more[i]
        &&& after.tables.files[more[i]].count == 1
        &&& after.tables.files[more[i]].expired_at is None
    } by {
        if i < ids.len() {
            assert(ids[i] == more[i]);
            assert(ids.contains(ids[i]));
        }
    }
    assert(after.tables.files.dom() =~= world.tables.files.dom().insert(put.id));
    assert forall|x: u128|
        after.tables.files.contains_key(x) <==> base.tables.files.contains_key(x) || more.contains(
            x,
        ) by {
        assert(after.tables.files.contains_key(x) <==> world.tables.files.contains_key(x) || x
            == put.id);
        assert(world.tables.files.contains_key(x) <==> base.tables.files.contains_key(x)
            || ids.contains(x));
        assert(more.contains(x) <==> ids.contains(x) || x == put.id);
    }
}

/// The files that the work on an image holds: the file of the image as it
/// was put, where it is kept, and the thumbnails by rising multiplier, WebP
/// before fallback.
pub open spec fn files_in_order(work: ImageWorkView) -> Seq<u128> {
    (match work.original_file {
        Some(file) => seq![file.id],
        None => Seq::empty(),
    }) + Seq::new(
        work.thumbnails.len() + work.fallback_thumbnails.len(),
        |j: int|
            if j % 2 == 0 {
                work.thumbnails[j / 2].id
            } else {
                work.fallback_thumbnails[j / 2].id
            },
    )
}

/// The thumbnails of the work on an image come in pairs: there is a
/// fallback thumbnail for every WebP thumbnail, but for the last while its
/// fallback is due; and no thumbnail is beyond the largest multiplier.
pub open spec fn paired(work: ImageWorkView, fallback: bool) -> bool {
    &&& work.thumbnails.len() == work.fallback_thumbnails.len() + if fallback {
        1int
    } else {
        0int
    }
    &&& work.thumbnails.len() <= work.max_multiplier
    &&& fallback ==> multiplier_fits(
        work.image_width,
        work.image_height,
        work.input_width,
        work.input_height,
        work.thumbnails.len() as int,
    )
}

/// The thumbnails that are put leave the store with the files of the image,
/// each once, in pairs.
pub proof fn lemma_encoded_keeps(
    base: World,
    world: World,
    work: ImageWorkView,
    fallback: bool,
    left: nat,
)
    requires
        stores(base, world, files_in_order(work)),
        paired(work, fallback),
        encoded(world, work, fallback, left) is Some,
    ensures
        ({
            let (stored, done) = encoded(world, work, fallback, left).unwrap();
            &&& stores(base, stored, files_in_order(done))
            &&& paired(done, false)
            &&& done.image_id == work.image_id
        }),
    decreases left,
{
    match PutImageView::encode(work, fallback).1 {
        StepView::Codec(request) => {
            let reply = codec_reply(world, request);
            let file_size = reply->Encoded_file_size;
            let hash = reply->Encoded_hash;
            let put = thumbnail_request(work, fallback, file_size, hash).unwrap();
            lemma_put_keeps(base, world, files_in_order(work), put);
            let (stored, result) = put_file_outcome(world, put);
            let file = result->Ok_0;
            let more = with_thumbnail(work, fallback, file);
            assert(files_in_order(more) =~= files_in_order(work).push(put.id));
            lemma_encoded_keeps(base, stored, more, !fallback, (left - 1) as nat);
        },
        _ => {},
    }
}

/// A put of an image into a store in which nothing else is going on leaves
/// the store, when every file of the image is put, with those files beside
/// what it had, each once, in pairs.
pub proof fn lemma_image_work_keeps(world: World, request: ImageRequestView)
    requires
        world.registry == RegistryView::empty(),
        world.saved is None,
        image_work(world, request) is Some,
    ensures
        ({
            let (stored, work) = image_work(world, request).unwrap();
            &&& stores(world, stored, files_in_order(work))
            &&& paired(work, false)
            &&& work.image_id == request.image_id
        }),
{
    let identity = codec_reply(world, CodecRequest::Identify)->Identified_0;
    let metadata = image_metadata(identity, request.max_image_resolution)->Ok_0;
    let (w1, work0) = started(world, request, metadata).unwrap();
    let work1 = cropped(w1, work0, request.center_crop).unwrap();
    let work2 = fitted(w1, work1).unwrap();
    let none = Seq::<u128>::empty();
    assert(pinned(world, none).registry.opening =~= world.registry.opening);
    assert(stores(world, world, none));
    match request.original {
        Some(original) => {
            let put = original_request(request, metadata, original);
            lemma_put_keeps(world, world, none, put);
            assert(files_in_order(work0) =~= none.push(put.id));
        },
        None => {
            assert(files_in_order(work0) =~= none);
        },
    }
    assert(files_in_order(work2) =~= files_in_order(work0));
    lemma_encoded_keeps(world, w1, work2, false, request.thumbnail_ids.len());
}

} // verus!
