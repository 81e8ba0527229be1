//! What putting an image comes to.

use vstd::prelude::*;
use crate::datalith_errors::DatalithImageWriteErrorView;
use crate::datalith_file::DatalithFileView;
use crate::image::image_metadata;
use crate::image::thumbnail_links;
use crate::image::ImageMetadataView;
use crate::image_types::image_of;
use crate::image_types::DatalithImageView;
use crate::laws_put::can_put;
use crate::laws_put::finds_file;
use crate::laws_put::lemma_put_file_runs;
use crate::laws_put::put_file_outcome;
use crate::laws_put::PutResult;
use crate::model::Tables;
use crate::model::World;
use crate::operation::lemma_drive_finish;
use crate::operation::lemma_drive_unfold;
use crate::operation::lemma_run_is;
use crate::operation::lemma_run_part;
use crate::operation::lemma_run_step;
use crate::operation::run;
use crate::put_file::PutFile;
use crate::put_file::PutFileView;
use crate::put_file::payload_file_name;
use crate::put_image::image_row_of;
use crate::put_image::original_request;
use crate::put_image::work_of;
use crate::put_image::ImageRequestView;
use crate::put_image::thumbnail_request;
use crate::put_image::ImageWorkView;
use crate::put_image::PutImage;
use crate::put_image::PutImageTurn;
use crate::put_image::PutImageView;
use crate::step::CodecRequest;
use crate::step::ReplyView;
use crate::step::StatementView;
use crate::step::StepView;

verus! {

/// The result of a put of an image, as a mathematical value.
pub type ImageResult = Result<DatalithImageView, DatalithImageWriteErrorView>;

/// What the codec answers to a request.
pub open spec fn codec_reply(world: World, request: CodecRequest) -> ReplyView {
    if world.codec.contains_key(request) {
        world.codec[request]
    } else {
        ReplyView::CodecFailed
    }
}

/// The work on an image with one more thumbnail.
pub open spec fn with_thumbnail(
    work: ImageWorkView,
    fallback: bool,
    file: DatalithFileView,
) -> ImageWorkView {
    if fallback {
        ImageWorkView { fallback_thumbnails: work.fallback_thumbnails.push(file), ..work }
    } else {
        ImageWorkView { thumbnails: work.thumbnails.push(file), ..work }
    }
}

/// The store and the work on an image after the thumbnails that were still
/// to be made have been encoded and put, at most `left` of them, each as a
/// new file; nothing where the codec does not encode one of them, where one
/// of them is a file that the store has already, or where more than `left`
/// are to be made.
pub open spec fn encoded(world: World, work: ImageWorkView, fallback: bool, left: nat) -> Option<
    (World, ImageWorkView),
>
    decreases left,
{
    match PutImageView::encode(work, fallback).1 {
        StepView::Codec(request) => match codec_reply(world, request) {
            ReplyView::Encoded { file_size, hash } => match thumbnail_request(
                work,
                fallback,
                file_size,
                hash,
            ) {
                Some(put) => if left > 0 && can_put(world, put) && !finds_file(world, put) {
                    match put_file_outcome(world, put) {
                        (stored, Ok(file)) => encoded(
                            stored,
                            with_thumbnail(work, fallback, file),
                            !fallback,
                            (left - 1) as nat,
                        ),
                        _ => None,
                    }
                } else {
                    None
                },
                None => None,
            },
            _ => None,
        },
        _ => Some((world, work)),
    }
}

/// The state in which a put of an image begins to record the image.
pub open spec fn recording(work: ImageWorkView) -> PutImageTurn {
    (
        PutImageView::Beginning { work, row: image_row_of(work) },
        StepView::Query(StatementView::Begin),
    )
}

/// The thumbnails of an image are put one after the other, as `encoded`
/// tells, and then the image is recorded.
pub proof fn lemma_encode_runs(world: World, work: ImageWorkView, fallback: bool, left: nat)
    requires
        encoded(world, work, fallback, left) matches Some((stored, done)) && run::<PutImage>(
            stored,
            recording(done).0,
            recording(done).1,
        ).1 is Some,
    ensures
        run::<PutImage>(
            world,
            PutImageView::encode(work, fallback).0,
            PutImageView::encode(work, fallback).1,
        ) == run::<PutImage>(
            encoded(world, work, fallback, left).unwrap().0,
            recording(encoded(world, work, fallback, left).unwrap().1).0,
            recording(encoded(world, work, fallback, left).unwrap().1).1,
        ),
    decreases left,
{
    let (state, step) = PutImageView::encode(work, fallback);
    match step {
        StepView::Codec(request) => {
            let reply = codec_reply(world, request);
            assert(world.perform(step) == (world, reply));
            let file_size = reply->Encoded_file_size;
            let hash = reply->Encoded_hash;
            let put = thumbnail_request(work, fallback, file_size, hash).unwrap();
            let (stored, result) = put_file_outcome(world, put);
            let file = result->Ok_0;
            let next_work = with_thumbnail(work, fallback, file);
            lemma_encode_runs(stored, next_work, !fallback, (left - 1) as nat);
            lemma_put_file_runs(world, put);
            let (inner, first) = PutFileView::begin(put);
            let wrap = |s: PutFileView| PutImageView::PuttingThumbnail { work, fallback, put: s };
            let then = |r: PutResult|
                match r {
                    Ok(file) => PutImageView::encode(with_thumbnail(work, fallback, file), !fallback),
                    Err(e) => PutImageView::recover(
                        work,
                        DatalithImageWriteErrorView::DatalithWriteError(e),
                        false,
                    ),
                };
            assert forall|s: PutFileView, reply: ReplyView| #[trigger]
                PutImageView::advance(wrap(s), reply) == (match s.advance(reply).1 {
                    StepView::Finish(r) => then(r),
                    q => (wrap(s.advance(reply).0), q.pass()),
                }) by {}
            assert(then(Ok(file)) == PutImageView::encode(next_work, !fallback));
            lemma_run_is::<PutFile>(world, inner, first, 24);
            lemma_run_part::<PutImage, PutFile>(world, wrap, then, inner, first);
            assert(state.advance(reply) == (wrap(inner), first.pass::<ImageResult>()));
            lemma_run_step::<PutImage>(world, state, step);
        },
        _ => {},
    }
}

/// The store after an image has been recorded: its row and the links to its
/// thumbnails are kept.
pub open spec fn recorded(world: World, work: ImageWorkView) -> World {
    World {
        tables: Tables {
            images: world.tables.images.insert(work.image_id, image_row_of(work)),
            thumbnails: world.tables.thumbnails + thumbnail_links(
                work.image_id,
                work.thumbnails,
                work.fallback_thumbnails,
            ),
            ..world.tables
        },
        saved: None,
        ..world
    }
}

/// The handle on an image whose files have all been put.
pub open spec fn image_handle(work: ImageWorkView) -> DatalithImageView {
    image_of(image_row_of(work), work.original_file, work.thumbnails, work.fallback_thumbnails)
}

/// An image that the store does not have yet is recorded in one
/// transaction.
pub proof fn lemma_record_runs(world: World, work: ImageWorkView)
    requires
        !world.tables.images.contains_key(work.image_id),
    ensures
        run::<PutImage>(world, recording(work).0, recording(work).1) == (
            recorded(world, work),
            Some(put_image_ok(image_handle(work))),
        ),
{
    let (s0, q0) = recording(work);
    lemma_drive_unfold::<PutImage>(world, s0, q0, 4);
    let (w1, r1) = world.perform(q0);
    let (s1, q1) = s0.advance(r1);
    lemma_drive_unfold::<PutImage>(w1, s1, q1, 3);
    let (w2, r2) = w1.perform(q1);
    let (s2, q2) = s1.advance(r2);
    lemma_drive_unfold::<PutImage>(w2, s2, q2, 2);
    let (w3, r3) = w2.perform(q2);
    let (s3, q3) = s2.advance(r3);
    lemma_drive_unfold::<PutImage>(w3, s3, q3, 1);
    let (w4, r4) = w3.perform(q3);
    let (s4, q4) = s3.advance(r4);
    assert(q4 == StepView::Finish(put_image_ok(image_handle(work))));
    lemma_drive_finish::<PutImage>(w4, s4, put_image_ok(image_handle(work)), 0);
    assert(w4 == recorded(world, work));
    lemma_run_is::<PutImage>(world, s0, q0, 4);
}

/// The result of a put of an image that succeeds.
pub open spec fn put_image_ok(image: DatalithImageView) -> ImageResult {
    Ok(image)
}

/// The store and the work on an image once the file of the image as it was
/// put is kept, where that is asked for; nothing where the store has that
/// file already or cannot keep it.
pub open spec fn started(world: World, request: ImageRequestView, metadata: ImageMetadataView) -> Option<
    (World, ImageWorkView),
> {
    match request.original {
        Some(original) => {
            let put = original_request(request, metadata, original);
            if can_put(world, put) && !finds_file(world, put) {
                match put_file_outcome(world, put) {
                    (stored, Ok(file)) => Some(
                        (
                            stored,
                            work_of(request, metadata, file.created_at, file.file_name, Some(file)),
                        ),
                    ),
                    _ => None,
                }
            } else {
                None
            }
        },
        None => Some(
            (
                world,
                work_of(
                    request,
                    metadata,
                    world.now,
                    payload_file_name(
                        request.payload,
                        request.file_name,
                        world.now,
                        metadata.file_type,
                    ),
                    None,
                ),
            ),
        ),
    }
}

/// The work on an image after the image has been cropped, where that is
/// asked for; nothing where the codec does not crop it.
pub open spec fn cropped(world: World, work: ImageWorkView, center_crop: bool) -> Option<
    ImageWorkView,
> {
    if center_crop {
        match codec_reply(world, CodecRequest::Crop) {
            ReplyView::Identified(identity) => if identity.width <= u16::MAX && identity.height
                <= u16::MAX {
                Some(
                    ImageWorkView {
                        input_width: identity.width as u16,
                        input_height: identity.height as u16,
                        image_width: identity.width as u16,
                        image_height: identity.height as u16,
                        ..work
                    },
                )
            } else {
                None
            },
            _ => None,
        }
    } else {
        Some(work)
    }
}

/// The work on an image after the size of the image at multiplier one has
/// been worked out; nothing where the codec does not tell it.
pub open spec fn fitted(world: World, work: ImageWorkView) -> Option<ImageWorkView> {
    match codec_reply(
        world,
        CodecRequest::Fit {
            width: work.input_width,
            height: work.input_height,
            max_width: work.max_width,
            max_height: work.max_height,
        },
    ) {
        ReplyView::Fitted(Some((width, height))) => Some(
            ImageWorkView { image_width: width, image_height: height, ..work },
        ),
        ReplyView::Fitted(None) => Some(work),
        _ => None,
    }
}

/// The store and the work on an image when the first thumbnail is to be
/// encoded; nothing where the codec or the store fails before.
pub open spec fn shaped(world: World, request: ImageRequestView) -> Option<(World, ImageWorkView)> {
    match codec_reply(world, CodecRequest::Identify) {
        ReplyView::Identified(identity) => match image_metadata(
            identity,
            request.max_image_resolution,
        ) {
            Ok(metadata) => match started(world, request, metadata) {
                Some((stored, work)) => match cropped(stored, work, request.center_crop) {
                    Some(work) => match fitted(stored, work) {
                        Some(work) => Some((stored, work)),
                        None => None,
                    },
                    None => None,
                },
                None => None,
            },
            Err(_) => None,
        },
        _ => None,
    }
}

/// The store and the work on an image when every file of the image is
/// put; nothing where the codec does not carry out a request or a file of
/// the image is a file that the store has already.
pub open spec fn image_work(world: World, request: ImageRequestView) -> Option<
    (World, ImageWorkView),
> {
    match shaped(world, request) {
        Some((stored, work)) => encoded(stored, work, false, request.thumbnail_ids.len()),
        None => None,
    }
}

/// What a put of an image comes to where the codec carries out every
/// request, every file of the image is new to the store, and the store does
/// not have the image yet: the store with the files, the row and the links
/// of the image, and the handle on the image. Nothing otherwise.
pub open spec fn put_image_outcome(world: World, request: ImageRequestView) -> Option<
    (World, DatalithImageView),
> {
    match image_work(world, request) {
        Some((stored, work)) => if stored.tables.images.contains_key(work.image_id) {
            None
        } else {
            Some((recorded(stored, work), image_handle(work)))
        },
        None => None,
    }
}

/// The store and the result after a put of an image.
pub open spec fn put_image(world: World, request: ImageRequestView) -> (World, Option<ImageResult>) {
    let (state, step) = PutImageView::begin(request);
    run::<PutImage>(world, state, step)
}

/// A put of an image comes to `put_image_outcome`.
pub proof fn lemma_put_image_runs(world: World, request: ImageRequestView)
    requires
        put_image_outcome(world, request) is Some,
    ensures
        put_image(world, request) == (
            put_image_outcome(world, request).unwrap().0,
            Some(put_image_ok(put_image_outcome(world, request).unwrap().1)),
        ),
{
    let (s0, q0) = PutImageView::begin(request);
    let identity = codec_reply(world, CodecRequest::Identify)->Identified_0;
    let metadata = image_metadata(identity, request.max_image_resolution)->Ok_0;
    let (w1, work0) = started(world, request, metadata).unwrap();
    let work1 = cropped(w1, work0, request.center_crop).unwrap();
    let work2 = fitted(w1, work1).unwrap();
    let (w2, work3) = encoded(w1, work2, false, request.thumbnail_ids.len()).unwrap();
    // The image is recorded.
    lemma_record_runs(w2, work3);
    // The thumbnails are put.
    lemma_encode_runs(w1, work2, false, request.thumbnail_ids.len());
    // The image is fitted into its bounds.
    let (sf, qf) = PutImageView::fit(work1);
    assert(w1.perform(qf).0 == w1);
    assert(sf.advance(w1.perform(qf).1) == PutImageView::encode(work2, false));
    lemma_run_step::<PutImage>(w1, sf, qf);
    // The image is cropped.
    let (sc, qc) = PutImageView::shape(work0, request.center_crop);
    if request.center_crop {
        assert(w1.perform(qc).0 == w1);
        assert(sc.advance(w1.perform(qc).1) == PutImageView::fit(work1));
        lemma_run_step::<PutImage>(w1, sc, qc);
    }
    // The file of the image is kept, or the clock is read.
    let (s1, q1) = s0.advance(ReplyView::Identified(identity));
    match request.original {
        Some(original) => {
            let put = original_request(request, metadata, original);
            lemma_put_file_runs(world, put);
            let (inner, first) = PutFileView::begin(put);
            let wrap = |s: PutFileView| PutImageView::PuttingOriginal { request, metadata, put: s };
            let then = |r: PutResult|
                match r {
                    Ok(file) => PutImageView::shape(
                        work_of(request, metadata, file.created_at, file.file_name, Some(file)),
                        request.center_crop,
                    ),
                    Err(e) => (
                        PutImageView::Finished,
                        StepView::Finish(Err(DatalithImageWriteErrorView::DatalithWriteError(e))),
                    ),
                };
            assert forall|s: PutFileView, reply: ReplyView| #[trigger]
                PutImageView::advance(wrap(s), reply) == (match s.advance(reply).1 {
                    StepView::Finish(r) => then(r),
                    q => (wrap(s.advance(reply).0), q.pass()),
                }) by {}
            lemma_run_is::<PutFile>(world, inner, first, 24);
            lemma_run_part::<PutImage, PutFile>(world, wrap, then, inner, first);
            assert((s1, q1) == (wrap(inner), first.pass::<ImageResult>()));
        },
        None => {
            assert(world.perform(q1) == (world, ReplyView::Time(world.now)));
            lemma_run_step::<PutImage>(world, s1, q1);
        },
    }
    // The image is identified.
    assert(world.perform(q0) == (world, ReplyView::Identified(identity)));
    lemma_run_step::<PutImage>(world, s0, q0);
}

} // verus!
