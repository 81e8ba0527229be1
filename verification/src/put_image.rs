//! Putting an image into the store.

use vstd::prelude::*;
use crate::datalith_errors::write_error_of_read;
use crate::datalith_errors::DatalithImageWriteError;
use crate::datalith_errors::DatalithImageWriteErrorView;
use crate::datalith_errors::DatalithWriteError;
use crate::datalith_errors::DatalithWriteErrorView;
use crate::datalith_errors::IoErrorKind;
use crate::datalith_errors::SqlErrorKind;
use crate::datalith_file::DatalithFile;
use crate::datalith_file::DatalithFileView;
use crate::delete_file::DeleteFile;
use crate::functions::FileHash;
use crate::guard::GuardRequest;
use crate::guard::GuardRequestView;
use crate::image::fallback_format;
use crate::image::fallback_format_of;
use crate::image::format_media_type;
use crate::image::get_image_stem;
use crate::image::get_stem;
use crate::image::get_thumbnail_links;
use crate::image::get_thumbnail_name;
use crate::image::image_metadata;
use crate::image::image_stem_of;
use crate::image::media_type_of_format;
use crate::image::multiplier_fits;
use crate::image::read_image_metadata;
use crate::image::stem_of;
use crate::image::thumbnail_links;
use crate::image::thumbnail_name;
use crate::image::thumbnail_size;
use crate::image::ImageMetadata;
use crate::image::ImageMetadataView;
use crate::image_types::files_view;
use crate::image_types::image_of;
use crate::image_types::optional_file_view;
use crate::image_types::DatalithImage;
use crate::image_types::DatalithImageView;
use crate::image_types::ImageRecord;
use crate::image_types::ImageRow;
use crate::media_type::FileTypeLevel;
use crate::operation::Operation;
use crate::put_file::get_payload_file_name;
use crate::put_file::payload_file_name;
use crate::put_file::text_view;
use crate::put_file::PutFile;
use crate::put_file::PutFileView;
use crate::put_file::PutRequest;
use crate::put_file::PutRequestView;
use crate::step::CodecRequest;
use crate::step::ImageFormat;
use crate::step::Passed;
use crate::step::Payload;
use crate::step::PayloadView;
use crate::step::Reply;
use crate::step::ReplyView;
use crate::step::Statement;
use crate::step::StatementView;
use crate::step::Step;
use crate::step::StepView;

verus! {

/// What is needed to keep the file of an image as it was put.
#[derive(Clone, Copy, Debug)]
pub struct OriginalFile {
    /// The hash of the payload.
    pub hash: FileHash,
    /// The size of the payload in bytes.
    pub file_size: u64,
    /// The identifier of the file, should a row be inserted.
    pub id: u128,
}

/// An image to put, with what the caller says of it.
#[derive(Debug)]
pub struct ImageRequest {
    /// Where the image comes from.
    pub payload: Payload,
    pub file_name: Option<String>,
    /// The largest width of the image at multiplier one.
    pub max_width: Option<u16>,
    /// The largest height of the image at multiplier one.
    pub max_height: Option<u16>,
    /// Whether the image is cropped about its centre, to the ratio that the
    /// driver holds.
    pub center_crop: bool,
    /// Set where the file of the image is kept as it was put.
    pub original: Option<OriginalFile>,
    /// The identifier of the image.
    pub image_id: u128,
    /// The identifiers of the thumbnails, should rows be inserted: for each
    /// multiplier, from one, that of the WebP thumbnail and that of the
    /// fallback.
    pub thumbnail_ids: Vec<u128>,
    /// The largest number of pixels of an image that the store takes.
    pub max_image_resolution: u32,
    /// The largest multiplier at which thumbnails are written.
    pub max_multiplier: u8,
}

/// The mathematical value of an image request.
pub struct ImageRequestView {
    pub payload: PayloadView,
    pub file_name: Option<Seq<char>>,
    pub max_width: Option<u16>,
    pub max_height: Option<u16>,
    pub center_crop: bool,
    pub original: Option<OriginalFile>,
    pub image_id: u128,
    pub thumbnail_ids: Seq<u128>,
    pub max_image_resolution: u32,
    pub max_multiplier: u8,
}

impl View for ImageRequest {
    type V = ImageRequestView;

    open spec fn view(&self) -> ImageRequestView {
        ImageRequestView {
            payload: self.payload@,
            file_name: text_view(self.file_name),
            max_width: self.max_width,
            max_height: self.max_height,
            center_crop: self.center_crop,
            original: self.original,
            image_id: self.image_id,
            thumbnail_ids: self.thumbnail_ids@,
            max_image_resolution: self.max_image_resolution,
            max_multiplier: self.max_multiplier,
        }
    }
}

/// The work on an image whose name is settled.
#[derive(Debug)]
pub struct ImageWork {
    pub image_id: u128,
    pub created_at: i64,
    /// The stem of the file name of the image.
    pub file_stem: String,
    pub has_alpha_channel: bool,
    /// The size of the image as it was put, or as it was cropped.
    pub input_width: u16,
    pub input_height: u16,
    /// The size of the image at multiplier one.
    pub image_width: u16,
    pub image_height: u16,
    /// The bounds of the image at multiplier one; zero is no bound.
    pub max_width: u16,
    pub max_height: u16,
    pub max_multiplier: u8,
    pub thumbnail_ids: Vec<u128>,
    pub original_file: Option<DatalithFile>,
    pub thumbnails: Vec<DatalithFile>,
    pub fallback_thumbnails: Vec<DatalithFile>,
}

/// The mathematical value of the work on an image.
pub struct ImageWorkView {
    pub image_id: u128,
    pub created_at: i64,
    pub file_stem: Seq<char>,
    pub has_alpha_channel: bool,
    pub input_width: u16,
    pub input_height: u16,
    pub image_width: u16,
    pub image_height: u16,
    pub max_width: u16,
    pub max_height: u16,
    pub max_multiplier: u8,
    pub thumbnail_ids: Seq<u128>,
    pub original_file: Option<DatalithFileView>,
    pub thumbnails: Seq<DatalithFileView>,
    pub fallback_thumbnails: Seq<DatalithFileView>,
}

impl View for ImageWork {
    type V = ImageWorkView;

    open spec fn view(&self) -> ImageWorkView {
        ImageWorkView {
            image_id: self.image_id,
            created_at: self.created_at,
            file_stem: self.file_stem@,
            has_alpha_channel: self.has_alpha_channel,
            input_width: self.input_width,
            input_height: self.input_height,
            image_width: self.image_width,
            image_height: self.image_height,
            max_width: self.max_width,
            max_height: self.max_height,
            max_multiplier: self.max_multiplier,
            thumbnail_ids: self.thumbnail_ids@,
            original_file: optional_file_view(self.original_file),
            thumbnails: files_view(self.thumbnails@),
            fallback_thumbnails: files_view(self.fallback_thumbnails@),
        }
    }
}

/// The mathematical value of the result of putting an image.
pub open spec fn put_image_result_view(r: Result<DatalithImage, DatalithImageWriteError>) -> Result<
    DatalithImageView,
    DatalithImageWriteErrorView,
> {
    match r {
        Ok(image) => Ok(image@),
        Err(e) => Err(e@),
    }
}

/// Putting an image. The image is identified and checked; its file is put
/// as it is, where that is asked for; it is cropped, where that is asked for,
/// and fitted into its bounds; for each multiplier at which it fits within
/// the image as it was put, a WebP thumbnail and a fallback thumbnail are
/// encoded and put as files; and the image and its links are recorded in one
/// transaction. Where any of this fails, the files put so far are deleted
/// again and the failure is the result.
#[derive(Debug)]
pub enum PutImage {
    /// Asked the codec what the image is.
    Identifying { request: ImageRequest },
    /// The file of the image is being put as it is.
    PuttingOriginal { request: ImageRequest, metadata: ImageMetadata, put: PutFile },
    /// Asked for the time of creation.
    ReadingClock { request: ImageRequest, metadata: ImageMetadata },
    /// Asked the codec to crop the image.
    Cropping { work: ImageWork },
    /// Asked the codec for the size at multiplier one.
    Fitting { work: ImageWork },
    /// Asked the codec to encode a thumbnail.
    Encoding { work: ImageWork, fallback: bool },
    /// A thumbnail is being put.
    PuttingThumbnail { work: ImageWork, fallback: bool, put: PutFile },
    /// Asked to open a transaction.
    Beginning { work: ImageWork, row: ImageRow },
    /// Asked to insert the row of the image.
    InsertingImage { work: ImageWork, row: ImageRow },
    /// Asked to insert the links.
    InsertingThumbnails { work: ImageWork, row: ImageRow },
    /// Asked to commit.
    Committing { work: ImageWork, row: ImageRow },
    /// Asked to abandon the transaction after a failure.
    RollingBack { ids: Vec<u128>, error: DatalithImageWriteError },
    /// Asked to unpin a file that was put, after a failure.
    Unpinning { ids: Vec<u128>, index: usize, error: DatalithImageWriteError },
    /// A file that was put is being deleted, after a failure.
    Recovering { ids: Vec<u128>, index: usize, delete: DeleteFile, error: DatalithImageWriteError },
    /// Ended.
    Finished,
}

/// The mathematical value of the state of a put of an image.
pub enum PutImageView {
    Identifying { request: ImageRequestView },
    PuttingOriginal { request: ImageRequestView, metadata: ImageMetadataView, put: PutFileView },
    ReadingClock { request: ImageRequestView, metadata: ImageMetadataView },
    Cropping { work: ImageWorkView },
    Fitting { work: ImageWorkView },
    Encoding { work: ImageWorkView, fallback: bool },
    PuttingThumbnail { work: ImageWorkView, fallback: bool, put: PutFileView },
    Beginning { work: ImageWorkView, row: ImageRecord },
    InsertingImage { work: ImageWorkView, row: ImageRecord },
    InsertingThumbnails { work: ImageWorkView, row: ImageRecord },
    Committing { work: ImageWorkView, row: ImageRecord },
    RollingBack { ids: Seq<u128>, error: DatalithImageWriteErrorView },
    Unpinning { ids: Seq<u128>, index: usize, error: DatalithImageWriteErrorView },
    Recovering {
        ids: Seq<u128>,
        index: usize,
        delete: DeleteFile,
        error: DatalithImageWriteErrorView,
    },
    Finished,
}

impl View for PutImage {
    type V = PutImageView;

    open spec fn view(&self) -> PutImageView {
        match *self {
            PutImage::Identifying { request } => PutImageView::Identifying { request: request@ },
            PutImage::PuttingOriginal { request, metadata, put } => PutImageView::PuttingOriginal {
                request: request@,
                metadata: metadata@,
                put: put@,
            },
            PutImage::ReadingClock { request, metadata } => PutImageView::ReadingClock {
                request: request@,
                metadata: metadata@,
            },
            PutImage::Cropping { work } => PutImageView::Cropping { work: work@ },
            PutImage::Fitting { work } => PutImageView::Fitting { work: work@ },
            PutImage::Encoding { work, fallback } => PutImageView::Encoding {
                work: work@,
                fallback,
            },
            PutImage::PuttingThumbnail { work, fallback, put } => PutImageView::PuttingThumbnail {
                work: work@,
                fallback,
                put: put@,
            },
            PutImage::Beginning { work, row } => PutImageView::Beginning { work: work@, row: row@ },
            PutImage::InsertingImage { work, row } => PutImageView::InsertingImage {
                work: work@,
                row: row@,
            },
            PutImage::InsertingThumbnails { work, row } => PutImageView::InsertingThumbnails {
                work: work@,
                row: row@,
            },
            PutImage::Committing { work, row } => PutImageView::Committing {
                work: work@,
                row: row@,
            },
            PutImage::RollingBack { ids, error } => PutImageView::RollingBack {
                ids: ids@,
                error: error@,
            },
            PutImage::Unpinning { ids, index, error } => PutImageView::Unpinning {
                ids: ids@,
                index,
                error: error@,
            },
            PutImage::Recovering { ids, index, delete, error } => PutImageView::Recovering {
                ids: ids@,
                index,
                delete,
                error: error@,
            },
            PutImage::Finished => PutImageView::Finished,
        }
    }
}

/// A state of a put of an image and the request it waits on, as
/// mathematical values.
pub type PutImageTurn = (
    PutImageView,
    StepView<Result<DatalithImageView, DatalithImageWriteErrorView>>,
);

/// A bound, zero where there is none.
pub open spec fn bound_of(bound: Option<u16>) -> u16 {
    match bound {
        Some(bound) => bound,
        None => 0,
    }
}

/// The request to put the file of an image as it is: under the type that
/// the codec found, used as it is.
pub open spec fn original_request(
    request: ImageRequestView,
    metadata: ImageMetadataView,
    original: OriginalFile,
) -> PutRequestView {
    PutRequestView {
        payload: request.payload,
        hash: original.hash,
        id: original.id,
        file_size: original.file_size,
        file_name: request.file_name,
        file_type: Some((metadata.file_type, FileTypeLevel::Manual)),
        temporary: false,
        lifespan: 0,
    }
}

/// The work on an image once its time of creation and its name are known.
pub open spec fn work_of(
    request: ImageRequestView,
    metadata: ImageMetadataView,
    created_at: i64,
    file_name: Seq<char>,
    original_file: Option<DatalithFileView>,
) -> ImageWorkView {
    ImageWorkView {
        image_id: request.image_id,
        created_at,
        file_stem: stem_of(file_name),
        has_alpha_channel: metadata.has_alpha_channel,
        input_width: metadata.width,
        input_height: metadata.height,
        image_width: metadata.width,
        image_height: metadata.height,
        max_width: bound_of(request.max_width),
        max_height: bound_of(request.max_height),
        max_multiplier: request.max_multiplier,
        thumbnail_ids: request.thumbnail_ids,
        original_file,
        thumbnails: Seq::empty(),
        fallback_thumbnails: Seq::empty(),
    }
}

/// The identifiers of the files that a put of an image holds: that of the
/// file of the image as it was put, where it is kept, those of the WebP
/// thumbnails, and those of the fallback thumbnails.
pub open spec fn held_ids(work: ImageWorkView) -> Seq<u128> {
    (match work.original_file {
        Some(file) => seq![file.id],
        None => Seq::empty(),
    }) + work.thumbnails.map_values(|f: DatalithFileView| f.id)
        + work.fallback_thumbnails.map_values(|f: DatalithFileView| f.id)
}

/// The row of an image.
pub open spec fn image_row_of(work: ImageWorkView) -> ImageRecord {
    ImageRecord {
        id: work.image_id,
        created_at: work.created_at,
        image_stem: image_stem_of(
            work.file_stem,
            if work.thumbnails.len() > 0 {
                Some(work.thumbnails[0].file_name)
            } else {
                None
            },
        ),
        image_width: work.image_width,
        image_height: work.image_height,
        original_file_id: match work.original_file {
            Some(file) => Some(file.id),
            None => None,
        },
        has_alpha_channel: work.has_alpha_channel,
    }
}

/// The request to put a thumbnail that has been encoded.
pub open spec fn thumbnail_request(
    work: ImageWorkView,
    fallback: bool,
    file_size: u64,
    hash: FileHash,
) -> Option<PutRequestView> {
    let done = if fallback {
        work.fallback_thumbnails.len()
    } else {
        work.thumbnails.len()
    };
    let slot = 2 * done + if fallback {
        1int
    } else {
        0int
    };
    if done < u16::MAX && slot < work.thumbnail_ids.len() {
        let format = if fallback {
            fallback_format_of(work.has_alpha_channel)
        } else {
            ImageFormat::Webp
        };
        Some(
            PutRequestView {
                payload: PayloadView::Buffer,
                hash,
                id: work.thumbnail_ids[slot],
                file_size,
                file_name: Some(thumbnail_name(work.file_stem, (done + 1) as u16, format)),
                file_type: Some((format_media_type(format), FileTypeLevel::Manual)),
                temporary: false,
                lifespan: 0,
            },
        )
    } else {
        None
    }
}

impl PutImageView {
    /// The first state and request of a put of an image.
    pub open spec fn begin(request: ImageRequestView) -> PutImageTurn {
        (PutImageView::Identifying { request }, StepView::Codec(CodecRequest::Identify))
    }

    /// After the name of the image is settled: the image is cropped, where
    /// that is asked for, and else fitted into its bounds.
    pub open spec fn shape(work: ImageWorkView, center_crop: bool) -> PutImageTurn {
        if center_crop {
            (PutImageView::Cropping { work }, StepView::Codec(CodecRequest::Crop))
        } else {
            PutImageView::fit(work)
        }
    }

    /// The request for the size of the image at multiplier one.
    pub open spec fn fit(work: ImageWorkView) -> PutImageTurn {
        (
            PutImageView::Fitting { work },
            StepView::Codec(
                CodecRequest::Fit {
                    width: work.input_width,
                    height: work.input_height,
                    max_width: work.max_width,
                    max_height: work.max_height,
                },
            ),
        )
    }

    /// The next thumbnail to encode, or, where every thumbnail is put, the
    /// beginning of the transaction that records the image. A WebP thumbnail
    /// is encoded at the next multiplier if that is within the largest
    /// multiplier, the image at it fits within the image as it was put, and an
    /// identifier is left for it; a fallback thumbnail is encoded for every
    /// WebP thumbnail.
    pub open spec fn encode(work: ImageWorkView, fallback: bool) -> PutImageTurn {
        let done = if fallback {
            work.fallback_thumbnails.len()
        } else {
            work.thumbnails.len()
        };
        let multiplier = done + 1;
        let wanted = if fallback {
            done < work.thumbnails.len()
        } else {
            2 * done + 1 < work.thumbnail_ids.len()
        };
        if wanted && multiplier <= work.max_multiplier && multiplier_fits(
            work.image_width,
            work.image_height,
            work.input_width,
            work.input_height,
            multiplier as int,
        ) {
            (
                PutImageView::Encoding { work, fallback },
                StepView::Codec(
                    CodecRequest::Encode {
                        format: if fallback {
                            fallback_format_of(work.has_alpha_channel)
                        } else {
                            ImageFormat::Webp
                        },
                        width: (work.image_width * multiplier) as u16,
                        height: (work.image_height * multiplier) as u16,
                    },
                ),
            )
        } else {
            (
                PutImageView::Beginning { work, row: image_row_of(work) },
                StepView::Query(StatementView::Begin),
            )
        }
    }

    /// The beginning of the recovery from a failure: the transaction is
    /// abandoned, where one is open; then every file that the put holds is
    /// unpinned and deleted.
    pub open spec fn recover(
        work: ImageWorkView,
        error: DatalithImageWriteErrorView,
        rollback: bool,
    ) -> PutImageTurn {
        let ids = held_ids(work);
        if rollback {
            (PutImageView::RollingBack { ids, error }, StepView::Query(StatementView::Rollback))
        } else {
            PutImageView::unpin(ids, 0, error)
        }
    }

    /// The request to unpin the file at `index`, or, where every file is
    /// unpinned, the beginning of the deletes.
    pub open spec fn unpin(
        ids: Seq<u128>,
        index: usize,
        error: DatalithImageWriteErrorView,
    ) -> PutImageTurn {
        if index < ids.len() {
            (
                PutImageView::Unpinning { ids, index, error },
                StepView::Guard(GuardRequestView::ReleaseOpen(ids[index as int])),
            )
        } else {
            PutImageView::delete(ids, 0, error)
        }
    }

    /// The beginning of the delete of the file at `index`, or, where every
    /// file is deleted, the end with the failure.
    pub open spec fn delete(
        ids: Seq<u128>,
        index: usize,
        error: DatalithImageWriteErrorView,
    ) -> PutImageTurn {
        if index < ids.len() {
            let (delete, step) = DeleteFile::begin_spec(ids[index as int]);
            (PutImageView::Recovering { ids, index, delete, error }, step.pass())
        } else {
            (PutImageView::Finished, StepView::Finish(Err(error)))
        }
    }

    /// The failure that a reply to a statement tells.
    pub open spec fn failure(reply: ReplyView) -> DatalithImageWriteErrorView {
        DatalithImageWriteErrorView::DatalithWriteError(PutFileView::failure(reply, true))
    }

    /// The state and the request that follow a state and the reply to its
    /// request.
    pub open spec fn advance(self, reply: ReplyView) -> PutImageTurn {
        let magick = DatalithImageWriteErrorView::MagickError;
        match self {
            PutImageView::Identifying { request } => match reply {
                ReplyView::Identified(identity) => match image_metadata(
                    identity,
                    request.max_image_resolution,
                ) {
                    Ok(metadata) => match request.original {
                        Some(original) => {
                            let (put, step) = PutFileView::begin(
                                original_request(request, metadata, original),
                            );
                            (PutImageView::PuttingOriginal { request, metadata, put }, step.pass())
                        },
                        None => (
                            PutImageView::ReadingClock { request, metadata },
                            StepView::Clock,
                        ),
                    },
                    Err(e) => (PutImageView::Finished, StepView::Finish(Err(e))),
                },
                _ => (
                    PutImageView::Finished,
                    StepView::Finish(Err(DatalithImageWriteErrorView::UnsupportedImageType)),
                ),
            },
            PutImageView::PuttingOriginal { request, metadata, put } => {
                let (next, step) = put.advance(reply);
                match step {
                    StepView::Finish(Ok(file)) => PutImageView::shape(
                        work_of(request, metadata, file.created_at, file.file_name, Some(file)),
                        request.center_crop,
                    ),
                    StepView::Finish(Err(e)) => (
                        PutImageView::Finished,
                        StepView::Finish(Err(DatalithImageWriteErrorView::DatalithWriteError(e))),
                    ),
                    _ => (
                        PutImageView::PuttingOriginal { request, metadata, put: next },
                        step.pass(),
                    ),
                }
            },
            PutImageView::ReadingClock { request, metadata } => match reply {
                ReplyView::Time(now) => PutImageView::shape(
                    work_of(
                        request,
                        metadata,
                        now,
                        payload_file_name(
                            request.payload,
                            request.file_name,
                            now,
                            metadata.file_type,
                        ),
                        None,
                    ),
                    request.center_crop,
                ),
                _ => (
                    PutImageView::Finished,
                    StepView::Finish(
                        Err(
                            DatalithImageWriteErrorView::DatalithWriteError(
                                PutFileView::failure(reply, false),
                            ),
                        ),
                    ),
                ),
            },
            PutImageView::Cropping { work } => match reply {
                ReplyView::Identified(identity) => if identity.width <= u16::MAX && identity.height
                    <= u16::MAX {
                    PutImageView::fit(
                        ImageWorkView {
                            input_width: identity.width as u16,
                            input_height: identity.height as u16,
                            image_width: identity.width as u16,
                            image_height: identity.height as u16,
                            ..work
                        },
                    )
                } else {
                    PutImageView::recover(
                        work,
                        DatalithImageWriteErrorView::ResolutionTooBig,
                        false,
                    )
                },
                _ => PutImageView::recover(work, magick, false),
            },
            PutImageView::Fitting { work } => match reply {
                ReplyView::Fitted(Some((width, height))) => PutImageView::encode(
                    ImageWorkView { image_width: width, image_height: height, ..work },
                    false,
                ),
                ReplyView::Fitted(None) => PutImageView::encode(work, false),
                _ => PutImageView::recover(work, magick, false),
            },
            PutImageView::Encoding { work, fallback } => match reply {
                ReplyView::Encoded { file_size, hash } => match thumbnail_request(
                    work,
                    fallback,
                    file_size,
                    hash,
                ) {
                    Some(request) => {
                        let (put, step) = PutFileView::begin(request);
                        (PutImageView::PuttingThumbnail { work, fallback, put }, step.pass())
                    },
                    None => PutImageView::recover(work, magick, false),
                },
                _ => PutImageView::recover(work, magick, false),
            },
            PutImageView::PuttingThumbnail { work, fallback, put } => {
                let (next, step) = put.advance(reply);
                match step {
                    StepView::Finish(Ok(file)) => if fallback {
                        PutImageView::encode(
                            ImageWorkView {
                                fallback_thumbnails: work.fallback_thumbnails.push(file),
                                ..work
                            },
                            false,
                        )
                    } else {
                        PutImageView::encode(
                            ImageWorkView { thumbnails: work.thumbnails.push(file), ..work },
                            true,
                        )
                    },
                    StepView::Finish(Err(e)) => PutImageView::recover(
                        work,
                        DatalithImageWriteErrorView::DatalithWriteError(e),
                        false,
                    ),
                    _ => (
                        PutImageView::PuttingThumbnail { work, fallback, put: next },
                        step.pass(),
                    ),
                }
            },
            PutImageView::Beginning { work, row } => match reply {
                ReplyView::Done => (
                    PutImageView::InsertingImage { work, row },
                    StepView::Query(StatementView::InsertImage(row)),
                ),
                _ => PutImageView::recover(work, PutImageView::failure(reply), false),
            },
            PutImageView::InsertingImage { work, row } => match reply {
                ReplyView::Affected(_) => (
                    PutImageView::InsertingThumbnails { work, row },
                    StepView::Query(
                        StatementView::InsertThumbnails(
                            thumbnail_links(
                                work.image_id,
                                work.thumbnails,
                                work.fallback_thumbnails,
                            ),
                        ),
                    ),
                ),
                _ => PutImageView::recover(work, PutImageView::failure(reply), true),
            },
            PutImageView::InsertingThumbnails { work, row } => match reply {
                ReplyView::Affected(_) => (
                    PutImageView::Committing { work, row },
                    StepView::Query(StatementView::Commit),
                ),
                _ => PutImageView::recover(work, PutImageView::failure(reply), true),
            },
            PutImageView::Committing { work, row } => match reply {
                ReplyView::Done => (
                    PutImageView::Finished,
                    StepView::Finish(
                        Ok(
                            image_of(
                                row,
                                work.original_file,
                                work.thumbnails,
                                work.fallback_thumbnails,
                            ),
                        ),
                    ),
                ),
                _ => PutImageView::recover(work, PutImageView::failure(reply), false),
            },
            PutImageView::RollingBack { ids, error } => PutImageView::unpin(ids, 0, error),
            PutImageView::Unpinning { ids, index, error } => PutImageView::unpin(
                ids,
                crate::sweep::one_more(index),
                error,
            ),
            PutImageView::Recovering { ids, index, delete, error } => {
                let (next, step) = DeleteFile::advance(delete, reply);
                match step {
                    StepView::Finish(Ok(_)) => PutImageView::delete(
                        ids,
                        crate::sweep::one_more(index),
                        error,
                    ),
                    StepView::Finish(Err(e)) => PutImageView::delete(
                        ids,
                        crate::sweep::one_more(index),
                        DatalithImageWriteErrorView::DatalithWriteError(write_error_of_read(e)),
                    ),
                    _ => (
                        PutImageView::Recovering { ids, index, delete: next, error },
                        step.pass(),
                    ),
                }
            },
            PutImageView::Finished => (
                PutImageView::Finished,
                StepView::Finish(
                    Err(
                        DatalithImageWriteErrorView::DatalithWriteError(
                            DatalithWriteErrorView::IOError(IoErrorKind::Other),
                        ),
                    ),
                ),
            ),
        }
    }
}

/// A state of a put of an image and the request it waits on.
pub type PutImageNext = (PutImage, Step<Result<DatalithImage, DatalithImageWriteError>>);

/// Whether a state and a request have the given mathematical values.
pub open spec fn put_image_turn_is(next: PutImageNext, turn: PutImageTurn) -> bool {
    &&& next.0@ == turn.0
    &&& next.1.view_with(|o| put_image_result_view(o)) == turn.1
}

fn finish(error: DatalithImageWriteError) -> (r: PutImageNext)
    ensures
        put_image_turn_is(r, (PutImageView::Finished, StepView::Finish(Err(error@)))),
{
    (PutImage::Finished, Step::Finish(Err(error)))
}

fn one_more(n: usize) -> (r: usize)
    ensures
        r == crate::sweep::one_more(n),
{
    if n < usize::MAX {
        n + 1
    } else {
        n
    }
}

fn delete(ids: Vec<u128>, index: usize, error: DatalithImageWriteError) -> (r: PutImageNext)
    ensures
        put_image_turn_is(r, PutImageView::delete(ids@, index, error@)),
{
    if index < ids.len() {
        let (delete, step) = DeleteFile::begin(ids[index]);
        match step.pass() {
            Passed::Request(step) => (PutImage::Recovering { ids, index, delete, error }, step),
            Passed::Ended(_) => finish(error),
        }
    } else {
        finish(error)
    }
}

fn unpin(ids: Vec<u128>, index: usize, error: DatalithImageWriteError) -> (r: PutImageNext)
    ensures
        put_image_turn_is(r, PutImageView::unpin(ids@, index, error@)),
{
    if index < ids.len() {
        let id = ids[index];
        (PutImage::Unpinning { ids, index, error }, Step::Guard(GuardRequest::ReleaseOpen(id)))
    } else {
        delete(ids, 0, error)
    }
}

fn collect_ids(work: ImageWork) -> (ids: Vec<u128>)
    ensures
        ids@ == held_ids(work@),
{
    let mut ids: Vec<u128> = Vec::new();
    match &work.original_file {
        Some(file) => {
            ids.push(file.id());
        },
        None => {},
    }
    let ghost first = ids@;
    let mut i: usize = 0;
    while i < work.thumbnails.len()
        invariant
            i <= work.thumbnails.len(),
            ids@ == first + files_view(work.thumbnails@).subrange(0, i as int).map_values(
                |f: DatalithFileView| f.id,
            ),
        decreases work.thumbnails.len() - i,
    {
        ids.push(work.thumbnails[i].id());
        proof {
            let all = files_view(work.thumbnails@);
            assert(all.subrange(0, i as int + 1) =~= all.subrange(0, i as int).push(all[i as int]));
            assert(ids@ =~= first + all.subrange(0, i as int + 1).map_values(
                |f: DatalithFileView| f.id,
            ));
        }
        i = i + 1;
    }
    proof {
        let all = files_view(work.thumbnails@);
        assert(all.subrange(0, i as int) =~= all);
    }
    let ghost second = ids@;
    let mut j: usize = 0;
    while j < work.fallback_thumbnails.len()
        invariant
            j <= work.fallback_thumbnails.len(),
            ids@ == second + files_view(work.fallback_thumbnails@).subrange(
                0,
                j as int,
            ).map_values(|f: DatalithFileView| f.id),
        decreases work.fallback_thumbnails.len() - j,
    {
        ids.push(work.fallback_thumbnails[j].id());
        proof {
            let all = files_view(work.fallback_thumbnails@);
            assert(all.subrange(0, j as int + 1) =~= all.subrange(0, j as int).push(all[j as int]));
            assert(ids@ =~= second + all.subrange(0, j as int + 1).map_values(
                |f: DatalithFileView| f.id,
            ));
        }
        j = j + 1;
    }
    proof {
        let all = files_view(work.fallback_thumbnails@);
        assert(all.subrange(0, j as int) =~= all);
        assert(ids@ =~= held_ids(work@));
    }
    ids
}

fn recover(work: ImageWork, error: DatalithImageWriteError, rollback: bool) -> (r: PutImageNext)
    ensures
        put_image_turn_is(r, PutImageView::recover(work@, error@, rollback)),
{
    let ids = collect_ids(work);
    if rollback {
        (PutImage::RollingBack { ids, error }, Step::Query(Statement::Rollback))
    } else {
        unpin(ids, 0, error)
    }
}

fn fit(work: ImageWork) -> (r: PutImageNext)
    ensures
        put_image_turn_is(r, PutImageView::fit(work@)),
{
    let request = CodecRequest::Fit {
        width: work.input_width,
        height: work.input_height,
        max_width: work.max_width,
        max_height: work.max_height,
    };
    (PutImage::Fitting { work }, Step::Codec(request))
}

fn shape(work: ImageWork, center_crop: bool) -> (r: PutImageNext)
    ensures
        put_image_turn_is(r, PutImageView::shape(work@, center_crop)),
{
    if center_crop {
        (PutImage::Cropping { work }, Step::Codec(CodecRequest::Crop))
    } else {
        fit(work)
    }
}

fn make_work(
    request: ImageRequest,
    metadata: ImageMetadata,
    created_at: i64,
    file_name: &String,
    original_file: Option<DatalithFile>,
) -> (work: ImageWork)
    ensures
        work@ == work_of(
            request@,
            metadata@,
            created_at,
            file_name@,
            optional_file_view(original_file),
        ),
{
    let work = ImageWork {
        image_id: request.image_id,
        created_at,
        file_stem: get_stem(file_name.as_str()),
        has_alpha_channel: metadata.has_alpha_channel,
        input_width: metadata.width,
        input_height: metadata.height,
        image_width: metadata.width,
        image_height: metadata.height,
        max_width: match request.max_width {
            Some(bound) => bound,
            None => 0,
        },
        max_height: match request.max_height {
            Some(bound) => bound,
            None => 0,
        },
        max_multiplier: request.max_multiplier,
        thumbnail_ids: request.thumbnail_ids,
        original_file,
        thumbnails: Vec::new(),
        fallback_thumbnails: Vec::new(),
    };
    proof {
        assert(files_view(work.thumbnails@) =~= Seq::<DatalithFileView>::empty());
        assert(files_view(work.fallback_thumbnails@) =~= Seq::<DatalithFileView>::empty());
    }
    work
}

fn make_row(work: &ImageWork) -> (row: ImageRow)
    ensures
        row@ == image_row_of(work@),
{
    let first: Option<&String> = if work.thumbnails.len() > 0 {
        Some(work.thumbnails[0].file_name())
    } else {
        None
    };
    ImageRow {
        id: work.image_id,
        created_at: work.created_at,
        image_stem: get_image_stem(work.file_stem.as_str(), first),
        image_width: work.image_width,
        image_height: work.image_height,
        original_file_id: match &work.original_file {
            Some(file) => Some(file.id()),
            None => None,
        },
        has_alpha_channel: work.has_alpha_channel,
    }
}

fn copy_row(row: &ImageRow) -> (r: ImageRow)
    ensures
        r@ == row@,
{
    ImageRow {
        id: row.id,
        created_at: row.created_at,
        image_stem: row.image_stem.clone(),
        image_width: row.image_width,
        image_height: row.image_height,
        original_file_id: row.original_file_id,
        has_alpha_channel: row.has_alpha_channel,
    }
}

fn encode(work: ImageWork, fallback: bool) -> (r: PutImageNext)
    ensures
        put_image_turn_is(r, PutImageView::encode(work@, fallback)),
{
    let done = if fallback {
        work.fallback_thumbnails.len()
    } else {
        work.thumbnails.len()
    };
    let wanted = if fallback {
        done < work.thumbnails.len()
    } else {
        done < usize::MAX / 2 && 2 * done + 1 < work.thumbnail_ids.len()
    };
    if wanted && done < work.max_multiplier as usize {
        let multiplier = (done + 1) as u16;
        match thumbnail_size(
            work.image_width,
            work.image_height,
            work.input_width,
            work.input_height,
            multiplier,
        ) {
            Some((width, height)) => {
                let format = if fallback {
                    fallback_format(work.has_alpha_channel)
                } else {
                    ImageFormat::Webp
                };
                return (
                    PutImage::Encoding { work, fallback },
                    Step::Codec(CodecRequest::Encode { format, width, height }),
                );
            },
            None => {},
        }
    }
    let row = make_row(&work);
    (PutImage::Beginning { work, row }, Step::Query(Statement::Begin))
}

fn make_thumbnail_request(work: &ImageWork, fallback: bool, file_size: u64, hash: FileHash) -> (r:
    Option<PutRequest>)
    ensures
        match r {
            Some(request) => thumbnail_request(work@, fallback, file_size, hash) == Some(request@),
            None => thumbnail_request(work@, fallback, file_size, hash) is None,
        },
{
    let done = if fallback {
        work.fallback_thumbnails.len()
    } else {
        work.thumbnails.len()
    };
    if done >= u16::MAX as usize {
        return None;
    }
    let slot = 2 * done + if fallback {
        1
    } else {
        0
    };
    if slot < work.thumbnail_ids.len() {
        let format = if fallback {
            fallback_format(work.has_alpha_channel)
        } else {
            ImageFormat::Webp
        };
        Some(
            PutRequest {
                payload: Payload::Buffer,
                hash,
                id: work.thumbnail_ids[slot],
                file_size,
                file_name: Some(
                    get_thumbnail_name(work.file_stem.as_str(), (done + 1) as u16, format),
                ),
                file_type: Some((media_type_of_format(format), FileTypeLevel::Manual)),
                temporary: false,
                lifespan: 0,
            },
        )
    } else {
        None
    }
}

fn statement_failure(reply: &Reply) -> (e: DatalithImageWriteError)
    ensures
        e@ == PutImageView::failure(reply@),
{
    DatalithImageWriteError::DatalithWriteError(
        match reply {
            Reply::IoFailed(kind) => DatalithWriteError::IOError(*kind),
            Reply::SqlFailed(kind) => DatalithWriteError::SQLError(*kind),
            _ => DatalithWriteError::SQLError(SqlErrorKind::Other),
        },
    )
}

fn push_file(files: Vec<DatalithFile>, file: DatalithFile) -> (r: Vec<DatalithFile>)
    ensures
        files_view(r@) == files_view(files@).push(file@),
{
    let ghost before = files@;
    let ghost added = file@;
    let mut files = files;
    files.push(file);
    proof {
        assert(files_view(files@) =~= files_view(before).push(added));
    }
    files
}

impl PutImage {
    /// Begins a put of an image.
    pub fn begin(request: ImageRequest) -> (r: PutImageNext)
        ensures
            put_image_turn_is(r, PutImageView::begin(request@)),
    {
        (PutImage::Identifying { request }, Step::Codec(CodecRequest::Identify))
    }
}

impl Operation for PutImage {
    type Output = Result<DatalithImage, DatalithImageWriteError>;

    type OutputView = Result<DatalithImageView, DatalithImageWriteErrorView>;

    open spec fn output_view(output: Self::Output) -> Self::OutputView {
        put_image_result_view(output)
    }

    open spec fn advance(state: PutImageView, reply: ReplyView) -> PutImageTurn {
        state.advance(reply)
    }

    fn resume(self, reply: Reply) -> (r: PutImageNext) {
        match self {
            PutImage::Identifying { request } => match reply {
                Reply::Identified(identity) => match read_image_metadata(
                    &identity,
                    request.max_image_resolution,
                ) {
                    Ok(metadata) => match request.original {
                        Some(original) => {
                            let put_request = PutRequest {
                                payload: request.payload.duplicate(),
                                hash: original.hash,
                                id: original.id,
                                file_size: original.file_size,
                                file_name: match &request.file_name {
                                    Some(name) => Some(name.clone()),
                                    None => None,
                                },
                                file_type: Some(
                                    (metadata.file_type.duplicate(), FileTypeLevel::Manual),
                                ),
                                temporary: false,
                                lifespan: 0,
                            };
                            let (put, step) = PutFile::begin(put_request);
                            match step.pass() {
                                Passed::Request(step) => (
                                    PutImage::PuttingOriginal { request, metadata, put },
                                    step,
                                ),
                                Passed::Ended(_) => finish(DatalithImageWriteError::MagickError),
                            }
                        },
                        None => (PutImage::ReadingClock { request, metadata }, Step::Clock),
                    },
                    Err(e) => finish(e),
                },
                _ => finish(DatalithImageWriteError::UnsupportedImageType),
            },
            PutImage::PuttingOriginal { request, metadata, put } => {
                let (next, step) = put.resume(reply);
                match step.pass() {
                    Passed::Ended(Ok(file)) => {
                        let center_crop = request.center_crop;
                        let created_at = file.created_at();
                        let file_name = file.file_name().clone();
                        let work = make_work(request, metadata, created_at, &file_name, Some(file));
                        shape(work, center_crop)
                    },
                    Passed::Ended(Err(e)) => finish(DatalithImageWriteError::DatalithWriteError(e)),
                    Passed::Request(step) => (
                        PutImage::PuttingOriginal { request, metadata, put: next },
                        step,
                    ),
                }
            },
            PutImage::ReadingClock { request, metadata } => match reply {
                Reply::Time(now) => {
                    let center_crop = request.center_crop;
                    let name = match &request.file_name {
                        Some(name) => Some(name.clone()),
                        None => None,
                    };
                    let file_name = get_payload_file_name(
                        &request.payload,
                        name,
                        now,
                        &metadata.file_type,
                    );
                    let work = make_work(request, metadata, now, &file_name, None);
                    shape(work, center_crop)
                },
                _ => finish(
                    DatalithImageWriteError::DatalithWriteError(
                        match reply {
                            Reply::IoFailed(kind) => DatalithWriteError::IOError(kind),
                            Reply::SqlFailed(kind) => DatalithWriteError::SQLError(kind),
                            _ => DatalithWriteError::IOError(IoErrorKind::Other),
                        },
                    ),
                ),
            },
            PutImage::Cropping { work } => match reply {
                Reply::Identified(identity) => {
                    if identity.width <= u16::MAX as u32 && identity.height <= u16::MAX as u32 {
                        let mut work = work;
                        work.input_width = identity.width as u16;
                        work.input_height = identity.height as u16;
                        work.image_width = identity.width as u16;
                        work.image_height = identity.height as u16;
                        fit(work)
                    } else {
                        recover(work, DatalithImageWriteError::ResolutionTooBig, false)
                    }
                },
                _ => recover(work, DatalithImageWriteError::MagickError, false),
            },
            PutImage::Fitting { work } => match reply {
                Reply::Fitted(Some((width, height))) => {
                    let mut work = work;
                    work.image_width = width;
                    work.image_height = height;
                    encode(work, false)
                },
                Reply::Fitted(None) => encode(work, false),
                _ => recover(work, DatalithImageWriteError::MagickError, false),
            },
            PutImage::Encoding { work, fallback } => match reply {
                Reply::Encoded { file_size, hash } => match make_thumbnail_request(
                    &work,
                    fallback,
                    file_size,
                    hash,
                ) {
                    Some(request) => {
                        let (put, step) = PutFile::begin(request);
                        match step.pass() {
                            Passed::Request(step) => (
                                PutImage::PuttingThumbnail { work, fallback, put },
                                step,
                            ),
                            Passed::Ended(_) => recover(
                                work,
                                DatalithImageWriteError::MagickError,
                                false,
                            ),
                        }
                    },
                    None => recover(work, DatalithImageWriteError::MagickError, false),
                },
                _ => recover(work, DatalithImageWriteError::MagickError, false),
            },
            PutImage::PuttingThumbnail { work, fallback, put } => {
                let (next, step) = put.resume(reply);
                match step.pass() {
                    Passed::Ended(Ok(file)) => {
                        let ImageWork {
                            image_id,
                            created_at,
                            file_stem,
                            has_alpha_channel,
                            input_width,
                            input_height,
                            image_width,
                            image_height,
                            max_width,
                            max_height,
                            max_multiplier,
                            thumbnail_ids,
                            original_file,
                            thumbnails,
                            fallback_thumbnails,
                        } = work;
                        let (thumbnails, fallback_thumbnails) = if fallback {
                            (thumbnails, push_file(fallback_thumbnails, file))
                        } else {
                            (push_file(thumbnails, file), fallback_thumbnails)
                        };
                        let work = ImageWork {
                            image_id,
                            created_at,
                            file_stem,
                            has_alpha_channel,
                            input_width,
                            input_height,
                            image_width,
                            image_height,
                            max_width,
                            max_height,
                            max_multiplier,
                            thumbnail_ids,
                            original_file,
                            thumbnails,
                            fallback_thumbnails,
                        };
                        encode(work, !fallback)
                    },
                    Passed::Ended(Err(e)) => recover(
                        work,
                        DatalithImageWriteError::DatalithWriteError(e),
                        false,
                    ),
                    Passed::Request(step) => (
                        PutImage::PuttingThumbnail { work, fallback, put: next },
                        step,
                    ),
                }
            },
            PutImage::Beginning { work, row } => match reply {
                Reply::Done => {
                    let copy = copy_row(&row);
                    (
                        PutImage::InsertingImage { work, row },
                        Step::Query(Statement::InsertImage(copy)),
                    )
                },
                _ => recover(work, statement_failure(&reply), false),
            },
            PutImage::InsertingImage { work, row } => match reply {
                Reply::Affected(_) => {
                    let links = get_thumbnail_links(
                        work.image_id,
                        &work.thumbnails,
                        &work.fallback_thumbnails,
                    );
                    (
                        PutImage::InsertingThumbnails { work, row },
                        Step::Query(Statement::InsertThumbnails(links)),
                    )
                },
                _ => recover(work, statement_failure(&reply), true),
            },
            PutImage::InsertingThumbnails { work, row } => match reply {
                Reply::Affected(_) => (
                    PutImage::Committing { work, row },
                    Step::Query(Statement::Commit),
                ),
                _ => recover(work, statement_failure(&reply), true),
            },
            PutImage::Committing { work, row } => match reply {
                Reply::Done => (
                    PutImage::Finished,
                    Step::Finish(
                        Ok(
                            DatalithImage::new(
                                row,
                                work.original_file,
                                work.thumbnails,
                                work.fallback_thumbnails,
                            ),
                        ),
                    ),
                ),
                _ => recover(work, statement_failure(&reply), false),
            },
            PutImage::RollingBack { ids, error } => unpin(ids, 0, error),
            PutImage::Unpinning { ids, index, error } => unpin(ids, one_more(index), error),
            PutImage::Recovering { ids, index, delete, error } => {
                let (next, step) = delete.resume(reply);
                match step.pass() {
                    Passed::Ended(Ok(_)) => self::delete(ids, one_more(index), error),
                    Passed::Ended(Err(e)) => self::delete(
                        ids,
                        one_more(index),
                        DatalithImageWriteError::DatalithWriteError(
                            DatalithWriteError::from_read_error(e),
                        ),
                    ),
                    Passed::Request(step) => (
                        PutImage::Recovering { ids, index, delete: next, error },
                        step,
                    ),
                }
            },
            PutImage::Finished => finish(
                DatalithImageWriteError::DatalithWriteError(
                    DatalithWriteError::IOError(IoErrorKind::Other),
                ),
            ),
        }
    }
}

} // verus!
