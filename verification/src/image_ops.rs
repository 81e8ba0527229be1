//! Getting and deleting images, and turning a resource into an image.

use vstd::prelude::*;
use crate::datalith_errors::write_error_of_read;
use crate::datalith_errors::DatalithImageWriteError;
use crate::datalith_errors::DatalithImageWriteErrorView;
use crate::datalith_errors::DatalithReadError;
use crate::datalith_errors::DatalithWriteError;
use crate::datalith_errors::DatalithWriteErrorView;
use crate::datalith_errors::IoErrorKind;
use crate::datalith_errors::SqlErrorKind;
use crate::datalith_file::DatalithFile;
use crate::datalith_file::DatalithFileView;
use crate::delete_file::DeleteFile;
use crate::get_file::GetFile;
use crate::guard::GuardRequest;
use crate::guard::GuardRequestView;
use crate::image_types::files_view;
use crate::image_types::image_of;
use crate::image_types::collect_pins;
use crate::image_types::optional_file_view;
use crate::image_types::pins_of;
use crate::image_types::DatalithImage;
use crate::image_types::DatalithImageView;
use crate::image_types::ImageRecord;
use crate::image_types::ImageRow;
use crate::operation::Operation;
use crate::put_image::put_image_result_view;
use crate::put_image::ImageRequest;
use crate::put_image::ImageRequestView;
use crate::put_image::PutImage;
use crate::put_image::PutImageView;
use crate::resource_ops::DeleteResource;
use crate::step::Passed;
use crate::step::Reply;
use crate::step::ReplyView;
use crate::step::Statement;
use crate::step::StatementView;
use crate::step::Step;
use crate::step::StepView;
use crate::sweep::one_more;

verus! {

fn increment(n: usize) -> (r: usize)
    ensures
        r == one_more(n),
{
    if n < usize::MAX {
        n + 1
    } else {
        n
    }
}

/// The files of an image as far as they are got.
#[derive(Debug)]
pub struct ImageFiles {
    pub row: ImageRow,
    /// The files of the thumbnails, by rising multiplier, WebP before
    /// fallback.
    pub file_ids: Vec<u128>,
    pub original_file: Option<DatalithFile>,
    pub thumbnails: Vec<DatalithFile>,
    pub fallback_thumbnails: Vec<DatalithFile>,
}

/// The mathematical value of the files of an image as far as they are got.
pub struct ImageFilesView {
    pub row: ImageRecord,
    pub file_ids: Seq<u128>,
    pub original_file: Option<DatalithFileView>,
    pub thumbnails: Seq<DatalithFileView>,
    pub fallback_thumbnails: Seq<DatalithFileView>,
}

impl View for ImageFiles {
    type V = ImageFilesView;

    open spec fn view(&self) -> ImageFilesView {
        ImageFilesView {
            row: self.row@,
            file_ids: self.file_ids@,
            original_file: optional_file_view(self.original_file),
            thumbnails: files_view(self.thumbnails@),
            fallback_thumbnails: files_view(self.fallback_thumbnails@),
        }
    }
}

/// The mathematical value of the result of getting an image.
pub open spec fn found_image_view(r: Result<Option<DatalithImage>, DatalithReadError>) -> Result<
    Option<DatalithImageView>,
    DatalithReadError,
> {
    match r {
        Ok(Some(image)) => Ok(Some(image@)),
        Ok(None) => Ok(None),
        Err(e) => Err(e),
    }
}

/// Getting an image: its links and its row are read, and its files are got
/// one after the other, the file as it was put first. An image of which a
/// thumbnail cannot be got is not found; the pins on the files got before are
/// released.
#[derive(Debug)]
pub enum GetImage {
    /// Asked for the files of the thumbnails.
    SelectingThumbnails { id: u128 },
    /// Asked for the row.
    SelectingImage { id: u128, file_ids: Vec<u128> },
    /// Asked for the time at which the next file is got.
    ReadingClock { files: ImageFiles, original: bool },
    /// A file is being got.
    Getting { files: ImageFiles, original: bool, get: GetFile },
    /// Asked to unpin a file, to end without a handle.
    Unpinning { pins: Vec<u128>, index: usize, error: Option<DatalithReadError> },
    /// Ended.
    Finished,
}

/// The mathematical value of the state of a get of an image.
pub enum GetImageView {
    SelectingThumbnails { id: u128 },
    SelectingImage { id: u128, file_ids: Seq<u128> },
    ReadingClock { files: ImageFilesView, original: bool },
    Getting { files: ImageFilesView, original: bool, get: GetFile },
    Unpinning { pins: Seq<u128>, index: usize, error: Option<DatalithReadError> },
    Finished,
}

impl View for GetImage {
    type V = GetImageView;

    open spec fn view(&self) -> GetImageView {
        match *self {
            GetImage::SelectingThumbnails { id } => GetImageView::SelectingThumbnails { id },
            GetImage::SelectingImage { id, file_ids } => GetImageView::SelectingImage {
                id,
                file_ids: file_ids@,
            },
            GetImage::ReadingClock { files, original } => GetImageView::ReadingClock {
                files: files@,
                original,
            },
            GetImage::Getting { files, original, get } => GetImageView::Getting {
                files: files@,
                original,
                get,
            },
            GetImage::Unpinning { pins, index, error } => GetImageView::Unpinning {
                pins: pins@,
                index,
                error,
            },
            GetImage::Finished => GetImageView::Finished,
        }
    }
}

/// A state of a get of an image and the request it waits on, as
/// mathematical values.
pub type GetImageTurn = (
    GetImageView,
    StepView<Result<Option<DatalithImageView>, DatalithReadError>>,
);

impl GetImageView {
    /// The first state and request of getting the image `id`.
    pub open spec fn begin(id: u128) -> GetImageTurn {
        (
            GetImageView::SelectingThumbnails { id },
            StepView::Query(StatementView::SelectThumbnailFiles { image_id: id }),
        )
    }

    /// The end of a get with the failure of a reply to a statement.
    pub open spec fn fail(reply: ReplyView) -> GetImageTurn {
        (
            GetImageView::Finished,
            StepView::Finish(
                Err(
                    match reply {
                        ReplyView::SqlFailed(kind) => DatalithReadError::SQLError(kind),
                        ReplyView::IoFailed(kind) => DatalithReadError::IOError(kind),
                        _ => DatalithReadError::SQLError(SqlErrorKind::Other),
                    },
                ),
            ),
        )
    }

    /// The number of thumbnails got so far.
    pub open spec fn got(files: ImageFilesView) -> int {
        (files.thumbnails.len() + files.fallback_thumbnails.len()) as int
    }

    /// After a file is got: the next thumbnail of a pair is got, or, where
    /// every pair is got, the get ends with the image.
    pub open spec fn next(files: ImageFilesView) -> GetImageTurn {
        let pairs = files.file_ids.len() / 2;
        if GetImageView::got(files) < 2 * pairs {
            (GetImageView::ReadingClock { files, original: false }, StepView::Clock)
        } else {
            (
                GetImageView::Finished,
                StepView::Finish(
                    Ok(
                        Some(
                            image_of(
                                files.row,
                                files.original_file,
                                files.thumbnails,
                                files.fallback_thumbnails,
                            ),
                        ),
                    ),
                ),
            )
        }
    }

    /// The request to unpin the file at `index`, or, where every file is
    /// unpinned, the end without a handle.
    pub open spec fn unpin(pins: Seq<u128>, index: usize, error: Option<DatalithReadError>) -> GetImageTurn {
        if index < pins.len() {
            (
                GetImageView::Unpinning { pins, index, error },
                StepView::Guard(GuardRequestView::ReleaseOpen(pins[index as int])),
            )
        } else {
            (
                GetImageView::Finished,
                StepView::Finish(
                    match error {
                        Some(e) => Err(e),
                        None => Ok(None),
                    },
                ),
            )
        }
    }

    /// The file to get next: the file as it was put, or the next thumbnail.
    pub open spec fn target(files: ImageFilesView, original: bool) -> Option<u128> {
        if original {
            files.row.original_file_id
        } else if GetImageView::got(files) < files.file_ids.len() {
            Some(files.file_ids[GetImageView::got(files)])
        } else {
            None
        }
    }

    /// The state and the request that follow a state and the reply to its
    /// request.
    pub open spec fn advance(self, reply: ReplyView) -> GetImageTurn {
        match self {
            GetImageView::SelectingThumbnails { id } => match reply {
                ReplyView::Ids(file_ids) => if file_ids.len() == 0 {
                    (GetImageView::Finished, StepView::Finish(Ok(None)))
                } else {
                    (
                        GetImageView::SelectingImage { id, file_ids },
                        StepView::Query(StatementView::SelectImage { id }),
                    )
                },
                _ => GetImageView::fail(reply),
            },
            GetImageView::SelectingImage { id, file_ids } => match reply {
                ReplyView::Image(Some(row)) => {
                    let files = ImageFilesView {
                        row,
                        file_ids,
                        original_file: None,
                        thumbnails: Seq::empty(),
                        fallback_thumbnails: Seq::empty(),
                    };
                    if row.original_file_id is Some {
                        (GetImageView::ReadingClock { files, original: true }, StepView::Clock)
                    } else {
                        GetImageView::next(files)
                    }
                },
                ReplyView::Image(None) => (GetImageView::Finished, StepView::Finish(Ok(None))),
                _ => GetImageView::fail(reply),
            },
            GetImageView::ReadingClock { files, original } => match (
                reply,
                GetImageView::target(files, original),
            ) {
                (ReplyView::Time(now), Some(id)) => {
                    let (get, step) = GetFile::begin_spec(id, now);
                    (GetImageView::Getting { files, original, get }, step.pass())
                },
                _ => GetImageView::unpin(
                    pins_of(files.original_file, files.thumbnails, files.fallback_thumbnails),
                    0,
                    Some(DatalithReadError::IOError(IoErrorKind::Other)),
                ),
            },
            GetImageView::Getting { files, original, get } => {
                let (next, step) = GetFile::advance(get, reply);
                let pins = pins_of(
                    files.original_file,
                    files.thumbnails,
                    files.fallback_thumbnails,
                );
                match step {
                    StepView::Finish(Ok(found)) => if original {
                        GetImageView::next(ImageFilesView { original_file: found, ..files })
                    } else {
                        match found {
                            Some(file) => if files.thumbnails.len()
                                <= files.fallback_thumbnails.len() {
                                GetImageView::next(
                                    ImageFilesView {
                                        thumbnails: files.thumbnails.push(file),
                                        ..files
                                    },
                                )
                            } else {
                                GetImageView::next(
                                    ImageFilesView {
                                        fallback_thumbnails: files.fallback_thumbnails.push(file),
                                        ..files
                                    },
                                )
                            },
                            None => GetImageView::unpin(pins, 0, None),
                        }
                    },
                    StepView::Finish(Err(e)) => GetImageView::unpin(pins, 0, Some(e)),
                    _ => (GetImageView::Getting { files, original, get: next }, step.pass()),
                }
            },
            GetImageView::Unpinning { pins, index, error } => GetImageView::unpin(
                pins,
                one_more(index),
                error,
            ),
            GetImageView::Finished => (
                GetImageView::Finished,
                StepView::Finish(Err(DatalithReadError::IOError(IoErrorKind::Other))),
            ),
        }
    }
}

/// A state of a get of an image and the request it waits on.
pub type GetImageNext = (GetImage, Step<Result<Option<DatalithImage>, DatalithReadError>>);

/// Whether a state and a request have the given mathematical values.
pub open spec fn get_image_turn_is(next: GetImageNext, turn: GetImageTurn) -> bool {
    &&& next.0@ == turn.0
    &&& next.1.view_with(|o| found_image_view(o)) == turn.1
}

fn fail_get(reply: &Reply) -> (r: GetImageNext)
    ensures
        get_image_turn_is(r, GetImageView::fail(reply@)),
{
    (
        GetImage::Finished,
        Step::Finish(
            Err(
                match reply {
                    Reply::SqlFailed(kind) => DatalithReadError::SQLError(*kind),
                    Reply::IoFailed(kind) => DatalithReadError::IOError(*kind),
                    _ => DatalithReadError::SQLError(SqlErrorKind::Other),
                },
            ),
        ),
    )
}

fn unpin(pins: Vec<u128>, index: usize, error: Option<DatalithReadError>) -> (r: GetImageNext)
    ensures
        get_image_turn_is(r, GetImageView::unpin(pins@, index, error)),
{
    if index < pins.len() {
        let id = pins[index];
        (GetImage::Unpinning { pins, index, error }, Step::Guard(GuardRequest::ReleaseOpen(id)))
    } else {
        (
            GetImage::Finished,
            Step::Finish(
                match error {
                    Some(e) => Err(e),
                    None => Ok(None),
                },
            ),
        )
    }
}

fn next_file(files: ImageFiles) -> (r: GetImageNext)
    ensures
        get_image_turn_is(r, GetImageView::next(files@)),
{
    let pairs = files.file_ids.len() / 2;
    let got: u128 = files.thumbnails.len() as u128 + files.fallback_thumbnails.len() as u128;
    if got < 2 * (pairs as u128) {
        (GetImage::ReadingClock { files, original: false }, Step::Clock)
    } else {
        (
            GetImage::Finished,
            Step::Finish(
                Ok(
                    Some(
                        DatalithImage::new(
                            files.row,
                            files.original_file,
                            files.thumbnails,
                            files.fallback_thumbnails,
                        ),
                    ),
                ),
            ),
        )
    }
}

fn target(files: &ImageFiles, original: bool) -> (r: Option<u128>)
    ensures
        r == GetImageView::target(files@, original),
{
    if original {
        files.row.original_file_id
    } else {
        let got: u128 = files.thumbnails.len() as u128 + files.fallback_thumbnails.len() as u128;
        if got < files.file_ids.len() as u128 {
            Some(files.file_ids[got as usize])
        } else {
            None
        }
    }
}

fn push_file(files: Vec<DatalithFile>, file: DatalithFile) -> (r: Vec<DatalithFile>)
    ensures
        files_view(r@) == files_view(files@).push(file@),
{
    let ghost before = files@;
    let ghost added = file@;
    let mut files = files;
    files.push(file);
    proof {
        assert(files_view(files@) =~= files_view(before).push(added));
    }
    files
}

impl GetImage {
    /// Begins to get the image `id`.
    pub fn begin(id: u128) -> (r: GetImageNext)
        ensures
            get_image_turn_is(r, GetImageView::begin(id)),
    {
        (
            GetImage::SelectingThumbnails { id },
            Step::Query(Statement::SelectThumbnailFiles { image_id: id }),
        )
    }
}

impl Operation for GetImage {
    type Output = Result<Option<DatalithImage>, DatalithReadError>;

    type OutputView = Result<Option<DatalithImageView>, DatalithReadError>;

    open spec fn output_view(output: Self::Output) -> Self::OutputView {
        found_image_view(output)
    }

    open spec fn advance(state: GetImageView, reply: ReplyView) -> GetImageTurn {
        state.advance(reply)
    }

    fn resume(self, reply: Reply) -> (r: GetImageNext) {
        match self {
            GetImage::SelectingThumbnails { id } => match reply {
                Reply::Ids(file_ids) => if file_ids.len() == 0 {
                    (GetImage::Finished, Step::Finish(Ok(None)))
                } else {
                    (
                        GetImage::SelectingImage { id, file_ids },
                        Step::Query(Statement::SelectImage { id }),
                    )
                },
                _ => fail_get(&reply),
            },
            GetImage::SelectingImage { id, file_ids } => match reply {
                Reply::Image(Some(row)) => {
                    let has_original = row.original_file_id.is_some();
                    let files = ImageFiles {
                        row,
                        file_ids,
                        original_file: None,
                        thumbnails: Vec::new(),
                        fallback_thumbnails: Vec::new(),
                    };
                    proof {
                        assert(files_view(files.thumbnails@) =~= Seq::<DatalithFileView>::empty());
                        assert(files_view(files.fallback_thumbnails@) =~= Seq::<
                            DatalithFileView,
                        >::empty());
                    }
                    if has_original {
                        (GetImage::ReadingClock { files, original: true }, Step::Clock)
                    } else {
                        next_file(files)
                    }
                },
                Reply::Image(None) => (GetImage::Finished, Step::Finish(Ok(None))),
                _ => fail_get(&reply),
            },
            GetImage::ReadingClock { files, original } => {
                let wanted = target(&files, original);
                match (reply, wanted) {
                    (Reply::Time(now), Some(id)) => {
                        let (get, step) = GetFile::begin(id, now);
                        match step.pass() {
                            Passed::Request(step) => (
                                GetImage::Getting { files, original, get },
                                step,
                            ),
                            Passed::Ended(_) => (
                                GetImage::Finished,
                                Step::Finish(
                                    Err(DatalithReadError::IOError(IoErrorKind::Other)),
                                ),
                            ),
                        }
                    },
                    _ => {
                        let pins = collect_pins(
                            &files.original_file,
                            &files.thumbnails,
                            &files.fallback_thumbnails,
                        );
                        unpin(pins, 0, Some(DatalithReadError::IOError(IoErrorKind::Other)))
                    },
                }
            },
            GetImage::Getting { files, original, get } => {
                let (next, step) = get.resume(reply);
                match step.pass() {
                    Passed::Ended(Ok(found)) => {
                        let ImageFiles {
                            row,
                            file_ids,
                            original_file,
                            thumbnails,
                            fallback_thumbnails,
                        } = files;
                        if original {
                            next_file(
                                ImageFiles {
                                    row,
                                    file_ids,
                                    original_file: found,
                                    thumbnails,
                                    fallback_thumbnails,
                                },
                            )
                        } else {
                            match found {
                                Some(file) => {
                                    let (thumbnails, fallback_thumbnails) = if thumbnails.len()
                                        <= fallback_thumbnails.len() {
                                        (push_file(thumbnails, file), fallback_thumbnails)
                                    } else {
                                        (thumbnails, push_file(fallback_thumbnails, file))
                                    };
                                    next_file(
                                        ImageFiles {
                                            row,
                                            file_ids,
                                            original_file,
                                            thumbnails,
                                            fallback_thumbnails,
                                        },
                                    )
                                },
                                None => {
                                    let pins = collect_pins(
                                        &original_file,
                                        &thumbnails,
                                        &fallback_thumbnails,
                                    );
                                    unpin(pins, 0, None)
                                },
                            }
                        }
                    },
                    Passed::Ended(Err(e)) => {
                        let pins = collect_pins(
                            &files.original_file,
                            &files.thumbnails,
                            &files.fallback_thumbnails,
                        );
                        unpin(pins, 0, Some(e))
                    },
                    Passed::Request(step) => (
                        GetImage::Getting { files, original, get: next },
                        step,
                    ),
                }
            },
            GetImage::Unpinning { pins, index, error } => unpin(pins, increment(index), error),
            GetImage::Finished => (
                GetImage::Finished,
                Step::Finish(Err(DatalithReadError::IOError(IoErrorKind::Other))),
            ),
        }
    }
}

/// A list without the later occurrences of what occurs in it more than
/// once.
pub open spec fn distinct(ids: Seq<u128>) -> Seq<u128>
    decreases ids.len(),
{
    if ids.len() == 0 {
        Seq::empty()
    } else {
        let rest = distinct(ids.drop_last());
        if rest.contains(ids.last()) {
            rest
        } else {
            rest.push(ids.last())
        }
    }
}

/// Whatever occurs in a list occurs once in its list of distinct members, and
/// nothing else occurs there.
pub proof fn lemma_distinct(ids: Seq<u128>)
    ensures
        distinct(ids).no_duplicates(),
        forall|id: u128| #[trigger] distinct(ids).contains(id) <==> ids.contains(id),
    decreases ids.len(),
{
    if ids.len() > 0 {
        let front = ids.drop_last();
        let last = ids.last();
        lemma_distinct(front);
        let rest = distinct(front);
        let all = distinct(ids);
        assert forall|id: u128| #[trigger] all.contains(id) <==> ids.contains(id) by {
            assert(rest.contains(id) <==> front.contains(id));
            if ids.contains(id) {
                let i = choose|i: int| 0 <= i < ids.len() && ids[i] == id;
                if i < front.len() {
                    assert(front[i] == id);
                    assert(front.contains(id));
                }
            }
            if front.contains(id) {
                let i = choose|i: int| 0 <= i < front.len() && front[i] == id;
                assert(ids[i] == id);
            }
            assert(ids[ids.len() - 1] == last);
            assert(ids.contains(id) <==> (front.contains(id) || id == last));
            if rest.contains(last) {
                assert(all == rest);
            } else {
                assert(all == rest.push(last));
                if rest.contains(id) {
                    let j = choose|j: int| 0 <= j < rest.len() && rest[j] == id;
                    assert(all[j] == id);
                }
                assert(all[rest.len() as int] == last);
                if all.contains(id) {
                    let j = choose|j: int| 0 <= j < all.len() && all[j] == id;
                    if j < rest.len() {
                        assert(rest[j] == id);
                    }
                }
            }
        }
    }
}

/// Lists the distinct members of a list, each at its first occurrence.
pub fn distinct_ids(ids: &Vec<u128>) -> (r: Vec<u128>)
    ensures
        r@ == distinct(ids@),
{
    let mut out: Vec<u128> = Vec::new();
    let mut i: usize = 0;
    while i < ids.len()
        invariant
            i <= ids.len(),
            out@ == distinct(ids@.subrange(0, i as int)),
        decreases ids.len() - i,
    {
        let id = ids[i];
        let mut seen = false;
        let mut j: usize = 0;
        while j < out.len()
            invariant
                j <= out.len(),
                seen <==> out@.subrange(0, j as int).contains(id),
            decreases out.len() - j,
        {
            if out[j] == id {
                seen = true;
            }
            proof {
                let before = out@.subrange(0, j as int);
                let after = out@.subrange(0, j as int + 1);
                assert(after =~= before.push(out@[j as int]));
                if before.contains(id) {
                    let k = choose|k: int| 0 <= k < before.len() && before[k] == id;
                    assert(after[k] == id);
                }
                if after.contains(id) && out@[j as int] != id {
                    let k = choose|k: int| 0 <= k < after.len() && after[k] == id;
                    assert(before[k] == id);
                }
                if out@[j as int] == id {
                    assert(after[j as int] == id);
                }
            }
            j = j + 1;
        }
        proof {
            assert(out@.subrange(0, j as int) =~= out@);
            let next = ids@.subrange(0, i as int + 1);
            assert(next.drop_last() =~= ids@.subrange(0, i as int));
            assert(next.last() == id);
        }
        if !seen {
            out.push(id);
        }
        i = i + 1;
    }
    proof {
        assert(ids@.subrange(0, i as int) =~= ids@);
    }
    out
}

/// Deleting an image. The image is got, for the list of its files, and let
/// go again. All its files are entered at once into the set of files being
/// deleted, and the readers of each are waited for. The links and the row of
/// the image are deleted in one transaction. Then every file loses the holder
/// that the image was. The result tells whether the image was there.
#[derive(Debug)]
pub enum DeleteImage {
    /// The image is being got.
    Getting { id: u128, get: GetImage },
    /// Asked to unpin a file of the image.
    Unpinning { id: u128, pins: Vec<u128>, index: usize },
    /// Asked to enter the files into the set of files being deleted.
    Acquiring { id: u128, ids: Vec<u128> },
    /// Waiting before asking again.
    PausingForGuard { id: u128, ids: Vec<u128> },
    /// Asked whether a file has more than one holder.
    CheckingShared { id: u128, ids: Vec<u128>, index: usize },
    /// Asked whether a reader pins a file.
    CheckingOpening { id: u128, ids: Vec<u128>, index: usize },
    /// Waiting before asking again.
    PausingForReaders { id: u128, ids: Vec<u128>, index: usize },
    /// Asked to open a transaction.
    Beginning { id: u128, ids: Vec<u128> },
    /// Asked to delete the links.
    DeletingLinks { id: u128, ids: Vec<u128> },
    /// Asked to delete the row.
    DeletingRow { id: u128, ids: Vec<u128> },
    /// Asked to commit.
    Committing { ids: Vec<u128> },
    /// A file is losing its holder.
    Releasing { ids: Vec<u128>, index: usize, delete: DeleteFile },
    /// Asked to abandon the transaction.
    RollingBack { ids: Vec<u128>, result: Result<bool, DatalithReadError> },
    /// Asked to take files out of the set of files being deleted.
    Unguarding { result: Result<bool, DatalithReadError> },
    /// Ended.
    Finished,
}

/// The mathematical value of the state of a delete of an image.
pub enum DeleteImageView {
    Getting { id: u128, get: GetImageView },
    Unpinning { id: u128, pins: Seq<u128>, index: usize },
    Acquiring { id: u128, ids: Seq<u128> },
    PausingForGuard { id: u128, ids: Seq<u128> },
    CheckingShared { id: u128, ids: Seq<u128>, index: usize },
    CheckingOpening { id: u128, ids: Seq<u128>, index: usize },
    PausingForReaders { id: u128, ids: Seq<u128>, index: usize },
    Beginning { id: u128, ids: Seq<u128> },
    DeletingLinks { id: u128, ids: Seq<u128> },
    DeletingRow { id: u128, ids: Seq<u128> },
    Committing { ids: Seq<u128> },
    Releasing { ids: Seq<u128>, index: usize, delete: DeleteFile },
    RollingBack { ids: Seq<u128>, result: Result<bool, DatalithReadError> },
    Unguarding { result: Result<bool, DatalithReadError> },
    Finished,
}

impl View for DeleteImage {
    type V = DeleteImageView;

    open spec fn view(&self) -> DeleteImageView {
        match *self {
            DeleteImage::Getting { id, get } => DeleteImageView::Getting { id, get: get@ },
            DeleteImage::Unpinning { id, pins, index } => DeleteImageView::Unpinning {
                id,
                pins: pins@,
                index,
            },
            DeleteImage::Acquiring { id, ids } => DeleteImageView::Acquiring { id, ids: ids@ },
            DeleteImage::PausingForGuard { id, ids } => DeleteImageView::PausingForGuard {
                id,
                ids: ids@,
            },
            DeleteImage::CheckingShared { id, ids, index } => DeleteImageView::CheckingShared {
                id,
                ids: ids@,
                index,
            },
            DeleteImage::CheckingOpening { id, ids, index } => DeleteImageView::CheckingOpening {
                id,
                ids: ids@,
                index,
            },
            DeleteImage::PausingForReaders { id, ids, index } => {
                DeleteImageView::PausingForReaders { id, ids: ids@, index }
            },
            DeleteImage::Beginning { id, ids } => DeleteImageView::Beginning { id, ids: ids@ },
            DeleteImage::DeletingLinks { id, ids } => DeleteImageView::DeletingLinks {
                id,
                ids: ids@,
            },
            DeleteImage::DeletingRow { id, ids } => DeleteImageView::DeletingRow { id, ids: ids@ },
            DeleteImage::Committing { ids } => DeleteImageView::Committing { ids: ids@ },
            DeleteImage::Releasing { ids, index, delete } => DeleteImageView::Releasing {
                ids: ids@,
                index,
                delete,
            },
            DeleteImage::RollingBack { ids, result } => DeleteImageView::RollingBack {
                ids: ids@,
                result,
            },
            DeleteImage::Unguarding { result } => DeleteImageView::Unguarding { result },
            DeleteImage::Finished => DeleteImageView::Finished,
        }
    }
}

/// A state of a delete of an image and the request it waits on, as
/// mathematical values.
pub type DeleteImageTurn = (DeleteImageView, StepView<Result<bool, DatalithReadError>>);

impl DeleteImageView {
    /// The first state and request of deleting the image `id`.
    pub open spec fn begin(id: u128) -> DeleteImageTurn {
        let (get, step) = GetImageView::begin(id);
        (DeleteImageView::Getting { id, get }, step.pass())
    }

    /// The request to unpin the file at `index`, or, where every file is
    /// unpinned, the request to guard the distinct files.
    pub open spec fn unpin(id: u128, pins: Seq<u128>, index: usize) -> DeleteImageTurn {
        if index < pins.len() {
            (
                DeleteImageView::Unpinning { id, pins, index },
                StepView::Guard(GuardRequestView::ReleaseOpen(pins[index as int])),
            )
        } else {
            DeleteImageView::acquire(id, distinct(pins))
        }
    }

    /// The request to enter the files into the set of files being deleted.
    pub open spec fn acquire(id: u128, ids: Seq<u128>) -> DeleteImageTurn {
        (
            DeleteImageView::Acquiring { id, ids },
            StepView::Guard(GuardRequestView::AcquireDeleteAll(ids)),
        )
    }

    /// The wait for the readers of the file at `index`, or, where every file
    /// is waited for, the beginning of the transaction.
    pub open spec fn wait(id: u128, ids: Seq<u128>, index: usize) -> DeleteImageTurn {
        if index < ids.len() {
            (
                DeleteImageView::CheckingShared { id, ids, index },
                StepView::Query(StatementView::SelectFileShared { id: ids[index as int] }),
            )
        } else {
            (DeleteImageView::Beginning { id, ids }, StepView::Query(StatementView::Begin))
        }
    }

    /// The state in which the guards on the files from `index` on are
    /// released before the delete ends.
    pub open spec fn unguard(
        ids: Seq<u128>,
        index: usize,
        result: Result<bool, DatalithReadError>,
    ) -> DeleteImageTurn {
        (
            DeleteImageView::Unguarding { result },
            StepView::Guard(
                GuardRequestView::ReleaseDeleteAll(
                    if index <= ids.len() {
                        ids.subrange(index as int, ids.len() as int)
                    } else {
                        Seq::empty()
                    },
                ),
            ),
        )
    }

    /// The state in which the transaction is abandoned before the guards are
    /// released.
    pub open spec fn roll_back(ids: Seq<u128>, result: Result<bool, DatalithReadError>) -> DeleteImageTurn {
        (DeleteImageView::RollingBack { ids, result }, StepView::Query(StatementView::Rollback))
    }

    /// The delete of the file at `index`, or, where every file has lost its
    /// holder, the end.
    pub open spec fn release(ids: Seq<u128>, index: usize) -> DeleteImageTurn {
        if index < ids.len() {
            let (delete, step) = DeleteFile::begin_inner_spec(ids[index as int]);
            (DeleteImageView::Releasing { ids, index, delete }, step.pass())
        } else {
            (DeleteImageView::Finished, StepView::Finish(Ok(true)))
        }
    }

    /// The failure that a reply tells; `statement` tells whether the request
    /// was a statement.
    pub open spec fn failure(reply: ReplyView, statement: bool) -> Result<bool, DatalithReadError> {
        Err(
            match reply {
                ReplyView::SqlFailed(kind) => DatalithReadError::SQLError(kind),
                ReplyView::IoFailed(kind) => DatalithReadError::IOError(kind),
                _ => if statement {
                    DatalithReadError::SQLError(SqlErrorKind::Other)
                } else {
                    DatalithReadError::IOError(IoErrorKind::Other)
                },
            },
        )
    }

    /// The state and the request that follow a state and the reply to its
    /// request.
    pub open spec fn advance(self, reply: ReplyView) -> DeleteImageTurn {
        match self {
            DeleteImageView::Getting { id, get } => {
                let (next, step) = get.advance(reply);
                match step {
                    StepView::Finish(Ok(Some(image))) => DeleteImageView::unpin(
                        id,
                        pins_of(image.original_file, image.thumbnails, image.fallback_thumbnails),
                        0,
                    ),
                    StepView::Finish(Ok(None)) => (
                        DeleteImageView::Finished,
                        StepView::Finish(Ok(false)),
                    ),
                    StepView::Finish(Err(e)) => (
                        DeleteImageView::Finished,
                        StepView::Finish(Err(e)),
                    ),
                    _ => (DeleteImageView::Getting { id, get: next }, step.pass()),
                }
            },
            DeleteImageView::Unpinning { id, pins, index } => DeleteImageView::unpin(
                id,
                pins,
                one_more(index),
            ),
            DeleteImageView::Acquiring { id, ids } => match reply {
                ReplyView::Flag(true) => DeleteImageView::wait(id, ids, 0),
                ReplyView::Flag(false) => (
                    DeleteImageView::PausingForGuard { id, ids },
                    StepView::Pause,
                ),
                _ => (
                    DeleteImageView::Finished,
                    StepView::Finish(DeleteImageView::failure(reply, false)),
                ),
            },
            DeleteImageView::PausingForGuard { id, ids } => DeleteImageView::acquire(id, ids),
            DeleteImageView::CheckingShared { id, ids, index } => match reply {
                ReplyView::Flag(true) => DeleteImageView::wait(id, ids, one_more(index)),
                ReplyView::Flag(false) => if index < ids.len() {
                    (
                        DeleteImageView::CheckingOpening { id, ids, index },
                        StepView::Guard(GuardRequestView::IsOpening(ids[index as int])),
                    )
                } else {
                    DeleteImageView::wait(id, ids, index)
                },
                _ => DeleteImageView::unguard(ids, 0, DeleteImageView::failure(reply, true)),
            },
            DeleteImageView::CheckingOpening { id, ids, index } => match reply {
                ReplyView::Flag(true) => (
                    DeleteImageView::PausingForReaders { id, ids, index },
                    StepView::Pause,
                ),
                ReplyView::Flag(false) => DeleteImageView::wait(id, ids, one_more(index)),
                _ => DeleteImageView::unguard(ids, 0, DeleteImageView::failure(reply, false)),
            },
            DeleteImageView::PausingForReaders { id, ids, index } => if index < ids.len() {
                (
                    DeleteImageView::CheckingOpening { id, ids, index },
                    StepView::Guard(GuardRequestView::IsOpening(ids[index as int])),
                )
            } else {
                DeleteImageView::wait(id, ids, index)
            },
            DeleteImageView::Beginning { id, ids } => match reply {
                ReplyView::Done => (
                    DeleteImageView::DeletingLinks { id, ids },
                    StepView::Query(StatementView::DeleteThumbnails { image_id: id }),
                ),
                _ => DeleteImageView::unguard(ids, 0, DeleteImageView::failure(reply, true)),
            },
            DeleteImageView::DeletingLinks { id, ids } => match reply {
                ReplyView::Affected(_) => (
                    DeleteImageView::DeletingRow { id, ids },
                    StepView::Query(StatementView::DeleteImage { id }),
                ),
                _ => DeleteImageView::roll_back(ids, DeleteImageView::failure(reply, true)),
            },
            DeleteImageView::DeletingRow { id, ids } => match reply {
                ReplyView::Affected(n) => if n > 0 {
                    (DeleteImageView::Committing { ids }, StepView::Query(StatementView::Commit))
                } else {
                    DeleteImageView::roll_back(ids, Ok(false))
                },
                _ => DeleteImageView::roll_back(ids, DeleteImageView::failure(reply, true)),
            },
            DeleteImageView::Committing { ids } => match reply {
                ReplyView::Done => DeleteImageView::release(ids, 0),
                _ => DeleteImageView::unguard(ids, 0, DeleteImageView::failure(reply, true)),
            },
            DeleteImageView::Releasing { ids, index, delete } => {
                let (next, step) = DeleteFile::advance(delete, reply);
                match step {
                    StepView::Finish(Ok(_)) => DeleteImageView::release(ids, one_more(index)),
                    StepView::Finish(Err(e)) => DeleteImageView::unguard(
                        ids,
                        one_more(index),
                        Err(e),
                    ),
                    _ => (DeleteImageView::Releasing { ids, index, delete: next }, step.pass()),
                }
            },
            DeleteImageView::RollingBack { ids, result } => DeleteImageView::unguard(
                ids,
                0,
                result,
            ),
            DeleteImageView::Unguarding { result } => (
                DeleteImageView::Finished,
                StepView::Finish(result),
            ),
            DeleteImageView::Finished => (
                DeleteImageView::Finished,
                StepView::Finish(Err(DatalithReadError::IOError(IoErrorKind::Other))),
            ),
        }
    }
}

/// A state of a delete of an image and the request it waits on.
pub type DeleteImageNext = (DeleteImage, Step<Result<bool, DatalithReadError>>);

/// Whether a state and a request have the given mathematical values.
pub open spec fn delete_image_turn_is(next: DeleteImageNext, turn: DeleteImageTurn) -> bool {
    &&& next.0@ == turn.0
    &&& next.1.view_with(|o| o) == turn.1
}

fn acquire(id: u128, ids: Vec<u128>) -> (r: DeleteImageNext)
    ensures
        delete_image_turn_is(r, DeleteImageView::acquire(id, ids@)),
{
    let copy = ids.clone();
    (DeleteImage::Acquiring { id, ids }, Step::Guard(GuardRequest::AcquireDeleteAll(copy)))
}

fn unpin_image(id: u128, pins: Vec<u128>, index: usize) -> (r: DeleteImageNext)
    ensures
        delete_image_turn_is(r, DeleteImageView::unpin(id, pins@, index)),
{
    if index < pins.len() {
        let pin = pins[index];
        (DeleteImage::Unpinning { id, pins, index }, Step::Guard(GuardRequest::ReleaseOpen(pin)))
    } else {
        acquire(id, distinct_ids(&pins))
    }
}

fn wait(id: u128, ids: Vec<u128>, index: usize) -> (r: DeleteImageNext)
    ensures
        delete_image_turn_is(r, DeleteImageView::wait(id, ids@, index)),
{
    if index < ids.len() {
        let file_id = ids[index];
        (
            DeleteImage::CheckingShared { id, ids, index },
            Step::Query(Statement::SelectFileShared { id: file_id }),
        )
    } else {
        (DeleteImage::Beginning { id, ids }, Step::Query(Statement::Begin))
    }
}

fn unguard(ids: Vec<u128>, index: usize, result: Result<bool, DatalithReadError>) -> (r:
    DeleteImageNext)
    ensures
        delete_image_turn_is(r, DeleteImageView::unguard(ids@, index, result)),
{
    let mut rest: Vec<u128> = Vec::new();
    if index <= ids.len() {
        let mut i: usize = index;
        while i < ids.len()
            invariant
                index <= i <= ids.len(),
                rest@ == ids@.subrange(index as int, i as int),
            decreases ids.len() - i,
        {
            rest.push(ids[i]);
            proof {
                assert(rest@ =~= ids@.subrange(index as int, i as int + 1));
            }
            i = i + 1;
        }
    } else {
        proof {
            assert(rest@ =~= Seq::<u128>::empty());
        }
    }
    (DeleteImage::Unguarding { result }, Step::Guard(GuardRequest::ReleaseDeleteAll(rest)))
}

fn roll_back(ids: Vec<u128>, result: Result<bool, DatalithReadError>) -> (r: DeleteImageNext)
    ensures
        delete_image_turn_is(r, DeleteImageView::roll_back(ids@, result)),
{
    (DeleteImage::RollingBack { ids, result }, Step::Query(Statement::Rollback))
}

fn release(ids: Vec<u128>, index: usize) -> (r: DeleteImageNext)
    ensures
        delete_image_turn_is(r, DeleteImageView::release(ids@, index)),
{
    if index < ids.len() {
        let (delete, step) = DeleteFile::begin_inner(ids[index]);
        match step.pass() {
            Passed::Request(step) => (DeleteImage::Releasing { ids, index, delete }, step),
            Passed::Ended(_) => (DeleteImage::Finished, Step::Finish(Ok(true))),
        }
    } else {
        (DeleteImage::Finished, Step::Finish(Ok(true)))
    }
}

fn read_failure(reply: &Reply, statement: bool) -> (r: Result<bool, DatalithReadError>)
    ensures
        r == DeleteImageView::failure(reply@, statement),
{
    Err(
        match reply {
            Reply::SqlFailed(kind) => DatalithReadError::SQLError(*kind),
            Reply::IoFailed(kind) => DatalithReadError::IOError(*kind),
            _ => if statement {
                DatalithReadError::SQLError(SqlErrorKind::Other)
            } else {
                DatalithReadError::IOError(IoErrorKind::Other)
            },
        },
    )
}

impl DeleteImage {
    /// Begins to delete the image `id`.
    pub fn begin(id: u128) -> (r: DeleteImageNext)
        ensures
            delete_image_turn_is(r, DeleteImageView::begin(id)),
    {
        let (get, step) = GetImage::begin(id);
        match step.pass() {
            Passed::Request(step) => (DeleteImage::Getting { id, get }, step),
            Passed::Ended(_) => (DeleteImage::Finished, Step::Finish(Ok(false))),
        }
    }
}

impl Operation for DeleteImage {
    type Output = Result<bool, DatalithReadError>;

    type OutputView = Result<bool, DatalithReadError>;

    open spec fn output_view(output: Self::Output) -> Self::OutputView {
        output
    }

    open spec fn advance(state: DeleteImageView, reply: ReplyView) -> DeleteImageTurn {
        state.advance(reply)
    }

    fn resume(self, reply: Reply) -> (r: DeleteImageNext) {
        match self {
            DeleteImage::Getting { id, get } => {
                let (next, step) = get.resume(reply);
                match step.pass() {
                    Passed::Ended(Ok(Some(image))) => {
                        let pins = image.pins();
                        unpin_image(id, pins, 0)
                    },
                    Passed::Ended(Ok(None)) => (DeleteImage::Finished, Step::Finish(Ok(false))),
                    Passed::Ended(Err(e)) => (DeleteImage::Finished, Step::Finish(Err(e))),
                    Passed::Request(step) => (DeleteImage::Getting { id, get: next }, step),
                }
            },
            DeleteImage::Unpinning { id, pins, index } => unpin_image(id, pins, increment(index)),
            DeleteImage::Acquiring { id, ids } => match reply {
                Reply::Flag(true) => wait(id, ids, 0),
                Reply::Flag(false) => (DeleteImage::PausingForGuard { id, ids }, Step::Pause),
                _ => (DeleteImage::Finished, Step::Finish(read_failure(&reply, false))),
            },
            DeleteImage::PausingForGuard { id, ids } => acquire(id, ids),
            DeleteImage::CheckingShared { id, ids, index } => match reply {
                Reply::Flag(true) => wait(id, ids, increment(index)),
                Reply::Flag(false) => if index < ids.len() {
                    let file_id = ids[index];
                    (
                        DeleteImage::CheckingOpening { id, ids, index },
                        Step::Guard(GuardRequest::IsOpening(file_id)),
                    )
                } else {
                    wait(id, ids, index)
                },
                _ => unguard(ids, 0, read_failure(&reply, true)),
            },
            DeleteImage::CheckingOpening { id, ids, index } => match reply {
                Reply::Flag(true) => (
                    DeleteImage::PausingForReaders { id, ids, index },
                    Step::Pause,
                ),
                Reply::Flag(false) => wait(id, ids, increment(index)),
                _ => unguard(ids, 0, read_failure(&reply, false)),
            },
            DeleteImage::PausingForReaders { id, ids, index } => if index < ids.len() {
                let file_id = ids[index];
                (
                    DeleteImage::CheckingOpening { id, ids, index },
                    Step::Guard(GuardRequest::IsOpening(file_id)),
                )
            } else {
                wait(id, ids, index)
            },
            DeleteImage::Beginning { id, ids } => match reply {
                Reply::Done => (
                    DeleteImage::DeletingLinks { id, ids },
                    Step::Query(Statement::DeleteThumbnails { image_id: id }),
                ),
                _ => unguard(ids, 0, read_failure(&reply, true)),
            },
            DeleteImage::DeletingLinks { id, ids } => match reply {
                Reply::Affected(_) => (
                    DeleteImage::DeletingRow { id, ids },
                    Step::Query(Statement::DeleteImage { id }),
                ),
                _ => roll_back(ids, read_failure(&reply, true)),
            },
            DeleteImage::DeletingRow { id, ids } => match reply {
                Reply::Affected(n) => if n > 0 {
                    (DeleteImage::Committing { ids }, Step::Query(Statement::Commit))
                } else {
                    roll_back(ids, Ok(false))
                },
                _ => roll_back(ids, read_failure(&reply, true)),
            },
            DeleteImage::Committing { ids } => match reply {
                Reply::Done => release(ids, 0),
                _ => unguard(ids, 0, read_failure(&reply, true)),
            },
            DeleteImage::Releasing { ids, index, delete } => {
                let (next, step) = delete.resume(reply);
                match step.pass() {
                    Passed::Ended(Ok(_)) => release(ids, increment(index)),
                    Passed::Ended(Err(e)) => unguard(ids, increment(index), Err(e)),
                    Passed::Request(step) => (
                        DeleteImage::Releasing { ids, index, delete: next },
                        step,
                    ),
                }
            },
            DeleteImage::RollingBack { ids, result } => unguard(ids, 0, result),
            DeleteImage::Unguarding { result } => (DeleteImage::Finished, Step::Finish(result)),
            DeleteImage::Finished => (
                DeleteImage::Finished,
                Step::Finish(Err(DatalithReadError::IOError(IoErrorKind::Other))),
            ),
        }
    }
}

/// Turning a resource into an image. The image is put from the file of the
/// resource, which is kept as the file of the image as it was put; then the
/// resource is let go and deleted. Where the resource cannot be deleted, the
/// image is deleted again and the failure is the result.
#[derive(Debug)]
pub enum ConvertResource {
    /// The image is being put.
    Putting { put: PutImage, resource_id: u128, file_id: u128 },
    /// Asked to unpin the file of the resource, the image being put.
    LettingGo { image: DatalithImage, resource_id: u128 },
    /// Asked to unpin the file of the resource, the put having failed.
    GivingUp { error: DatalithImageWriteError },
    /// The resource is being deleted.
    Deleting { image: DatalithImage, delete: DeleteResource },
    /// Asked to unpin a file of the image, the resource not being deleted.
    Unpinning { image_id: u128, pins: Vec<u128>, index: usize, cause: DatalithReadError },
    /// The image is being deleted again.
    Undoing { undo: DeleteImage, cause: DatalithReadError },
    /// Ended.
    Finished,
}

/// The mathematical value of the state of turning a resource into an image.
pub enum ConvertResourceView {
    Putting { put: PutImageView, resource_id: u128, file_id: u128 },
    LettingGo { image: DatalithImageView, resource_id: u128 },
    GivingUp { error: DatalithImageWriteErrorView },
    Deleting { image: DatalithImageView, delete: DeleteResource },
    Unpinning { image_id: u128, pins: Seq<u128>, index: usize, cause: DatalithReadError },
    Undoing { undo: DeleteImageView, cause: DatalithReadError },
    Finished,
}

impl View for ConvertResource {
    type V = ConvertResourceView;

    open spec fn view(&self) -> ConvertResourceView {
        match *self {
            ConvertResource::Putting { put, resource_id, file_id } => ConvertResourceView::Putting {
                put: put@,
                resource_id,
                file_id,
            },
            ConvertResource::LettingGo { image, resource_id } => ConvertResourceView::LettingGo {
                image: image@,
                resource_id,
            },
            ConvertResource::GivingUp { error } => ConvertResourceView::GivingUp { error: error@ },
            ConvertResource::Deleting { image, delete } => ConvertResourceView::Deleting {
                image: image@,
                delete,
            },
            ConvertResource::Unpinning { image_id, pins, index, cause } => {
                ConvertResourceView::Unpinning { image_id, pins: pins@, index, cause }
            },
            ConvertResource::Undoing { undo, cause } => ConvertResourceView::Undoing {
                undo: undo@,
                cause,
            },
            ConvertResource::Finished => ConvertResourceView::Finished,
        }
    }
}

/// A state of turning a resource into an image and the request it waits on,
/// as mathematical values.
pub type ConvertTurn = (
    ConvertResourceView,
    StepView<Result<DatalithImageView, DatalithImageWriteErrorView>>,
);

/// The failure of a read as the failure of a put of an image.
pub open spec fn image_error_of_read(e: DatalithReadError) -> DatalithImageWriteErrorView {
    DatalithImageWriteErrorView::DatalithWriteError(write_error_of_read(e))
}

impl ConvertResourceView {
    /// The first state and request of turning the resource `resource_id` on
    /// the file `file_id` into an image.
    pub open spec fn begin(request: ImageRequestView, resource_id: u128, file_id: u128) -> ConvertTurn {
        let (put, step) = PutImageView::begin(request);
        (ConvertResourceView::Putting { put, resource_id, file_id }, step.pass())
    }

    /// The request to unpin the file of the image at `index`, or, where every
    /// file is unpinned, the beginning of the delete of the image.
    pub open spec fn unpin(
        image_id: u128,
        pins: Seq<u128>,
        index: usize,
        error: DatalithReadError,
    ) -> ConvertTurn {
        if index < pins.len() {
            (
                ConvertResourceView::Unpinning { image_id, pins, index, cause: error },
                StepView::Guard(GuardRequestView::ReleaseOpen(pins[index as int])),
            )
        } else {
            let (delete, step) = DeleteImageView::begin(image_id);
            (ConvertResourceView::Undoing { undo: delete, cause: error }, step.pass())
        }
    }

    /// The state and the request that follow a state and the reply to its
    /// request.
    pub open spec fn advance(self, reply: ReplyView) -> ConvertTurn {
        match self {
            ConvertResourceView::Putting { put, resource_id, file_id } => {
                let (next, step) = put.advance(reply);
                match step {
                    StepView::Finish(Ok(image)) => (
                        ConvertResourceView::LettingGo { image, resource_id },
                        StepView::Guard(GuardRequestView::ReleaseOpen(file_id)),
                    ),
                    StepView::Finish(Err(error)) => (
                        ConvertResourceView::GivingUp { error },
                        StepView::Guard(GuardRequestView::ReleaseOpen(file_id)),
                    ),
                    _ => (
                        ConvertResourceView::Putting { put: next, resource_id, file_id },
                        step.pass(),
                    ),
                }
            },
            ConvertResourceView::LettingGo { image, resource_id } => {
                let (delete, step) = DeleteResource::begin_spec(resource_id);
                (ConvertResourceView::Deleting { image, delete }, step.pass())
            },
            ConvertResourceView::GivingUp { error } => (
                ConvertResourceView::Finished,
                StepView::Finish(Err(error)),
            ),
            ConvertResourceView::Deleting { image, delete } => {
                let (next, step) = delete.advance_spec(reply);
                match step {
                    StepView::Finish(Ok(_)) => (
                        ConvertResourceView::Finished,
                        StepView::Finish(Ok(image)),
                    ),
                    StepView::Finish(Err(error)) => ConvertResourceView::unpin(
                        image.id,
                        pins_of(image.original_file, image.thumbnails, image.fallback_thumbnails),
                        0,
                        error,
                    ),
                    _ => (ConvertResourceView::Deleting { image, delete: next }, step.pass()),
                }
            },
            ConvertResourceView::Unpinning { image_id, pins, index, cause } => {
                ConvertResourceView::unpin(image_id, pins, one_more(index), cause)
            },
            ConvertResourceView::Undoing { undo, cause } => {
                let (next, step) = undo.advance(reply);
                match step {
                    StepView::Finish(_) => (
                        ConvertResourceView::Finished,
                        StepView::Finish(Err(image_error_of_read(cause))),
                    ),
                    _ => (ConvertResourceView::Undoing { undo: next, cause }, step.pass()),
                }
            },
            ConvertResourceView::Finished => (
                ConvertResourceView::Finished,
                StepView::Finish(
                    Err(
                        DatalithImageWriteErrorView::DatalithWriteError(
                            DatalithWriteErrorView::IOError(IoErrorKind::Other),
                        ),
                    ),
                ),
            ),
        }
    }
}

/// A state of turning a resource into an image and the request it waits
/// on.
pub type ConvertNext = (ConvertResource, Step<Result<DatalithImage, DatalithImageWriteError>>);

/// Whether a state and a request have the given mathematical values.
pub open spec fn convert_turn_is(next: ConvertNext, turn: ConvertTurn) -> bool {
    &&& next.0@ == turn.0
    &&& next.1.view_with(|o| put_image_result_view(o)) == turn.1
}

fn end_convert(error: DatalithImageWriteError) -> (r: ConvertNext)
    ensures
        convert_turn_is(r, (ConvertResourceView::Finished, StepView::Finish(Err(error@)))),
{
    (ConvertResource::Finished, Step::Finish(Err(error)))
}

fn image_error(e: DatalithReadError) -> (r: DatalithImageWriteError)
    ensures
        r@ == image_error_of_read(e),
{
    DatalithImageWriteError::DatalithWriteError(DatalithWriteError::from_read_error(e))
}

fn unpin_converted(image_id: u128, pins: Vec<u128>, index: usize, error: DatalithReadError) -> (r:
    ConvertNext)
    ensures
        convert_turn_is(r, ConvertResourceView::unpin(image_id, pins@, index, error)),
{
    if index < pins.len() {
        let pin = pins[index];
        (
            ConvertResource::Unpinning { image_id, pins, index, cause: error },
            Step::Guard(GuardRequest::ReleaseOpen(pin)),
        )
    } else {
        let (delete, step) = DeleteImage::begin(image_id);
        match step.pass() {
            Passed::Request(step) => (ConvertResource::Undoing { undo: delete, cause: error }, step),
            Passed::Ended(_) => end_convert(image_error(error)),
        }
    }
}

impl ConvertResource {
    /// Begins to turn the resource `resource_id` on the file `file_id` into
    /// an image.
    pub fn begin(request: ImageRequest, resource_id: u128, file_id: u128) -> (r: ConvertNext)
        ensures
            convert_turn_is(r, ConvertResourceView::begin(request@, resource_id, file_id)),
    {
        let (put, step) = PutImage::begin(request);
        match step.pass() {
            Passed::Request(step) => (ConvertResource::Putting { put, resource_id, file_id }, step),
            Passed::Ended(_) => end_convert(DatalithImageWriteError::MagickError),
        }
    }
}

impl Operation for ConvertResource {
    type Output = Result<DatalithImage, DatalithImageWriteError>;

    type OutputView = Result<DatalithImageView, DatalithImageWriteErrorView>;

    open spec fn output_view(output: Self::Output) -> Self::OutputView {
        put_image_result_view(output)
    }

    open spec fn advance(state: ConvertResourceView, reply: ReplyView) -> ConvertTurn {
        state.advance(reply)
    }

    fn resume(self, reply: Reply) -> (r: ConvertNext) {
        match self {
            ConvertResource::Putting { put, resource_id, file_id } => {
                let (next, step) = put.resume(reply);
                match step.pass() {
                    Passed::Ended(Ok(image)) => (
                        ConvertResource::LettingGo { image, resource_id },
                        Step::Guard(GuardRequest::ReleaseOpen(file_id)),
                    ),
                    Passed::Ended(Err(error)) => (
                        ConvertResource::GivingUp { error },
                        Step::Guard(GuardRequest::ReleaseOpen(file_id)),
                    ),
                    Passed::Request(step) => (
                        ConvertResource::Putting { put: next, resource_id, file_id },
                        step,
                    ),
                }
            },
            ConvertResource::LettingGo { image, resource_id } => {
                let (delete, step) = DeleteResource::begin(resource_id);
                match step.pass() {
                    Passed::Request(step) => (ConvertResource::Deleting { image, delete }, step),
                    Passed::Ended(_) => (ConvertResource::Finished, Step::Finish(Ok(image))),
                }
            },
            ConvertResource::GivingUp { error } => end_convert(error),
            ConvertResource::Deleting { image, delete } => {
                let (next, step) = delete.resume(reply);
                match step.pass() {
                    Passed::Ended(Ok(_)) => (ConvertResource::Finished, Step::Finish(Ok(image))),
                    Passed::Ended(Err(error)) => {
                        let pins = image.pins();
                        unpin_converted(image.id(), pins, 0, error)
                    },
                    Passed::Request(step) => (
                        ConvertResource::Deleting { image, delete: next },
                        step,
                    ),
                }
            },
            ConvertResource::Unpinning { image_id, pins, index, cause } => unpin_converted(
                image_id,
                pins,
                increment(index),
                cause,
            ),
            ConvertResource::Undoing { undo, cause } => {
                let (next, step) = undo.resume(reply);
                match step.pass() {
                    Passed::Ended(_) => end_convert(image_error(cause)),
                    Passed::Request(step) => (ConvertResource::Undoing { undo: next, cause }, step),
                }
            },
            ConvertResource::Finished => end_convert(
                DatalithImageWriteError::DatalithWriteError(
                    DatalithWriteError::IOError(IoErrorKind::Other),
                ),
            ),
        }
    }
}

} // verus!
