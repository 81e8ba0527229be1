//! What the HTTP service of the store decides: how requests are read and
//! what is answered.

use vstd::prelude::*;
use crate::datalith_errors::DatalithImageWriteError;
use crate::datalith_errors::DatalithImageWriteErrorView;
use crate::datalith_errors::DatalithReadError;
use crate::datalith_errors::DatalithWriteError;
use crate::datalith_errors::DatalithWriteErrorView;
use crate::datalith_errors::IoErrorKind;
use crate::datalith_file::DatalithFile;
use crate::datalith_file::DatalithFileView;
use crate::engine::FileLabel;
use crate::functions::declared_view;
use crate::functions::get_image_extension;
use crate::functions::image_extension;
use crate::guard::GuardRequest;
use crate::guard::GuardRequestView;
use crate::image::ascii_lower;
use crate::image::fallback_format;
use crate::image::fallback_format_of;
use crate::image::format_extension;
use crate::image::format_media_type;
use crate::image::media_type_of_format;
use crate::image::to_ascii_lowercase;
use crate::image_ops::GetImage;
use crate::image_ops::GetImageView;
use crate::image_types::files_view;
use crate::image_types::DatalithImage;
use crate::image_types::DatalithImageView;
use crate::media_type::mime_parse;
use crate::media_type::FileTypeLevel;
use crate::media_type::MediaType;
use crate::media_type::MediaTypeView;
use crate::operation::Operation;
use crate::put_file::text_view;
use crate::resource_ops::GetResource;
use crate::resource_ops::GetResourceView;
use crate::resources::DatalithResourceView;
use crate::step::ImageFormat;
use crate::step::Passed;
use crate::step::Reply;
use crate::step::ReplyView;
use crate::step::Step;
use crate::step::StepView;
use crate::sweep::one_more;
use crate::text::decimal;
use crate::text::decimal_string;
use crate::text::file_extension;
use crate::text::hex32;
use crate::text::hex_digits;
use crate::text::parse_unsigned;
use crate::text::path_extension;
use crate::text::push_char;
use crate::text::unsigned_of_text;

verus! {

/// The status `200 OK`.
pub const STATUS_OK: u16 = 200;

/// The status `304 Not Modified`.
pub const STATUS_NOT_MODIFIED: u16 = 304;

/// The status `400 Bad Request`.
pub const STATUS_BAD_REQUEST: u16 = 400;

/// The status `404 Not Found`.
pub const STATUS_NOT_FOUND: u16 = 404;

/// The status `413 Payload Too Large`.
pub const STATUS_PAYLOAD_TOO_LARGE: u16 = 413;

/// The status `500 Internal Server Error`.
pub const STATUS_INTERNAL_SERVER_ERROR: u16 = 500;

/// Whether a text is the given one, whatever the case of its ASCII
/// letters.
pub open spec fn reads_as(text: Seq<char>, word: Seq<char>) -> bool {
    ascii_lower(text) == word
}

/// The truth value that a text names: `y`, `yes`, `t`, `true`, `1` and
/// `on` name true; `n`, `no`, `f`, `false`, `0` and `off` name false; the
/// case of the letters does not matter. Any other text names none.
pub open spec fn boolean_of_text(text: Seq<char>) -> Option<bool> {
    if reads_as(text, "y"@) || reads_as(text, "yes"@) || reads_as(text, "t"@) || reads_as(
        text,
        "true"@,
    ) || reads_as(text, "1"@) || reads_as(text, "on"@) {
        Some(true)
    } else if reads_as(text, "n"@) || reads_as(text, "no"@) || reads_as(text, "f"@) || reads_as(
        text,
        "false"@,
    ) || reads_as(text, "0"@) || reads_as(text, "off"@) {
        Some(false)
    } else {
        None
    }
}

fn is_word(lower: &String, word: &str) -> (r: bool)
    ensures
        r == (lower@ == word@),
{
    let other = word.to_owned();
    *lower == other
}

/// Reads a truth value.
pub fn parse_boolean(text: &str) -> (r: Option<bool>)
    ensures
        r == boolean_of_text(text@),
{
    let lower = to_ascii_lowercase(text);
    if is_word(&lower, "y") || is_word(&lower, "yes") || is_word(&lower, "t") || is_word(
        &lower,
        "true",
    ) || is_word(&lower, "1") || is_word(&lower, "on") {
        Some(true)
    } else if is_word(&lower, "n") || is_word(&lower, "no") || is_word(&lower, "f") || is_word(
        &lower,
        "false",
    ) || is_word(&lower, "0") || is_word(&lower, "off") {
        Some(false)
    } else {
        None
    }
}

/// The length that a request declares for its body.
#[derive(Clone, Copy, Debug, Default, PartialEq, Eq, Structural)]
pub struct ContentLength(pub u64);

impl ContentLength {
    /// The length in bytes.
    pub fn to_u64(&self) -> (r: u64)
        ensures
            r == self.0,
    {
        self.0
    }

    /// What the header `content-length` declares: a number that 64 bits
    /// hold.
    pub open spec fn of_header(value: Seq<char>) -> Option<ContentLength> {
        match unsigned_of_text(value, u64::MAX) {
            Some(length) => Some(ContentLength(length)),
            None => None,
        }
    }

    /// Reads the header `content-length`.
    pub fn parse(value: &str) -> (r: Option<ContentLength>)
        ensures
            r == ContentLength::of_header(value@),
    {
        match parse_unsigned(value, u64::MAX) {
            Some(length) => Some(ContentLength(length)),
            None => None,
        }
    }
}

/// What a declared length comes to against the largest size of a file: a
/// length above it is refused as too large.
pub open spec fn content_length_check(max_file_size: u64, content_length: Option<ContentLength>) -> Result<
    Option<u64>,
    u16,
> {
    match content_length {
        Some(length) => if length.0 > max_file_size {
            Err(STATUS_PAYLOAD_TOO_LARGE)
        } else {
            Ok(Some(length.0))
        },
        None => Ok(None),
    }
}

/// Checks the declared length of a body against the largest size of a
/// file.
pub fn validate_content_length(max_file_size: u64, content_length: Option<ContentLength>) -> (r:
    Result<Option<u64>, u16>)
    ensures
        r == content_length_check(max_file_size, content_length),
{
    match content_length {
        Some(length) => if length.to_u64() > max_file_size {
            Err(STATUS_PAYLOAD_TOO_LARGE)
        } else {
            Ok(Some(length.to_u64()))
        },
        None => Ok(None),
    }
}

/// Which form of an image is asked for.
#[derive(Clone, Copy, Debug, PartialEq, Eq, Structural)]
pub enum ResolutionType {
    /// The image as it was put.
    Original,
    /// The image at a multiplier.
    Multiplier(u8),
}

/// The form of an image that a text names: `original`, whatever the case
/// of its letters, or a multiplier followed by `x`.
pub open spec fn resolution_of_text(value: Seq<char>) -> Option<ResolutionType> {
    if reads_as(value, "original"@) {
        Some(ResolutionType::Original)
    } else if value.len() > 0 && value.last() == 'x' {
        match unsigned_of_text(value.drop_last(), 255) {
            Some(multiplier) => Some(ResolutionType::Multiplier(multiplier as u8)),
            None => None,
        }
    } else {
        None
    }
}

impl ResolutionType {
    /// Reads the form of an image that is asked for.
    pub fn from_value(value: &str) -> (r: Option<ResolutionType>)
        ensures
            r == resolution_of_text(value@),
    {
        let lower = to_ascii_lowercase(value);
        if is_word(&lower, "original") {
            return Some(ResolutionType::Original);
        }
        let n = value.unicode_len();
        if n > 0 && value.get_char(n - 1) == 'x' {
            let number = value.substring_char(0, n - 1);
            proof {
                assert(number@ =~= value@.drop_last());
            }
            match parse_unsigned(number, 255) {
                Some(multiplier) => Some(ResolutionType::Multiplier(multiplier as u8)),
                None => None,
            }
        } else {
            None
        }
    }
}

/// The entity tags of the header `if-none-match` of a request, without the
/// marks of weakness: the header as a whole may be `*`, which any tag
/// matches.
#[derive(Debug)]
pub struct EtagIfNoneMatch {
    pub any: bool,
    pub etags: Vec<String>,
}

/// Whether one of the tags is the given one.
pub open spec fn has_tag(etags: Seq<String>, tag: Seq<char>) -> bool {
    exists|i: int| 0 <= i < etags.len() && (#[trigger] etags[i])@ == tag
}

impl EtagIfNoneMatch {
    /// Whether the header matches a tag under the weak comparison: the
    /// header is `*`, or one of its tags has the same text.
    pub open spec fn weak_matches(&self, tag: Seq<char>) -> bool {
        self.any || has_tag(self.etags@, tag)
    }

    /// Compares the header with a tag, weakly.
    pub fn weak_eq(&self, tag: &String) -> (r: bool)
        ensures
            r == self.weak_matches(tag@),
    {
        if self.any {
            return true;
        }
        let mut i: usize = 0;
        while i < self.etags.len()
            invariant
                i <= self.etags.len(),
                forall|j: int| 0 <= j < i ==> (#[trigger] self.etags@[j])@ != tag@,
            decreases self.etags.len() - i,
        {
            if self.etags[i] == *tag {
                return true;
            }
            i = i + 1;
        }
        false
    }
}

/// The text of the entity tag of a resource or an image: the 32
/// hexadecimal digits of its identifier.
pub fn etag_of(id: u128) -> (r: String)
    ensures
        r@ == hex_digits(id as int, 32),
{
    hex32(id)
}

/// What is needed to answer a request for a file.
#[derive(Debug)]
pub struct ResponseData {
    /// The text of the entity tag.
    pub etag: String,
    pub file: DatalithFile,
    /// Whether the file is offered for download and not for display.
    pub download: bool,
    pub file_name: String,
    pub file_type: MediaType,
    /// The size of the image, for a thumbnail.
    pub image_size: Option<(u32, u32)>,
}

/// The mathematical value of what is needed to answer a request for a
/// file.
pub struct ResponseDataView {
    pub etag: Seq<char>,
    pub file: DatalithFileView,
    pub download: bool,
    pub file_name: Seq<char>,
    pub file_type: MediaTypeView,
    pub image_size: Option<(u32, u32)>,
}

impl View for ResponseData {
    type V = ResponseDataView;

    open spec fn view(&self) -> ResponseDataView {
        ResponseDataView {
            etag: self.etag@,
            file: self.file@,
            download: self.download,
            file_name: self.file_name@,
            file_type: self.file_type@,
            image_size: self.image_size,
        }
    }
}

/// The answer to a request for a file: the file, or, without data, the
/// notice that the client has it.
#[derive(Debug)]
pub struct DatalithResponse {
    pub data: Option<ResponseData>,
}

/// The mathematical value of an answer.
pub struct DatalithResponseView {
    pub data: Option<ResponseDataView>,
}

impl View for DatalithResponse {
    type V = DatalithResponseView;

    open spec fn view(&self) -> DatalithResponseView {
        DatalithResponseView {
            data: match self.data {
                Some(data) => Some(data@),
                None => None,
            },
        }
    }
}

impl DatalithResponse {
    /// Whether the file of the answer is temporary.
    pub fn is_temporary(&self) -> (r: bool)
        ensures
            r == match self@.data {
                Some(data) => data.file.is_temporary,
                None => false,
            },
    {
        match &self.data {
            Some(data) => data.file.is_temporary(),
            None => false,
        }
    }
}

/// The mathematical value of the result of fetching.
pub open spec fn fetched_view(r: Result<Option<DatalithResponse>, DatalithReadError>) -> Result<
    Option<DatalithResponseView>,
    DatalithReadError,
> {
    match r {
        Ok(Some(response)) => Ok(Some(response@)),
        Ok(None) => Ok(None),
        Err(e) => Err(e),
    }
}

/// The result of fetching, and the request that a fetch waits on, as
/// mathematical values.
pub type FetchStep = StepView<Result<Option<DatalithResponseView>, DatalithReadError>>;

/// The answer that the client has the file.
pub open spec fn not_modified() -> FetchStep {
    StepView::Finish(Ok(Some(DatalithResponseView { data: None })))
}

/// The answer with a resource.
pub open spec fn resource_response(
    resource: DatalithResourceView,
    etag: Seq<char>,
    download: bool,
) -> DatalithResponseView {
    DatalithResponseView {
        data: Some(
            ResponseDataView {
                etag,
                file: resource.file,
                download,
                file_name: resource.file_name,
                file_type: resource.file_type,
                image_size: None,
            },
        ),
    }
}

/// Fetching a resource for a request. A request that names the entity tag
/// of the resource is told that the client has the file, and nothing is
/// looked up; any other request gets the resource.
#[derive(Debug)]
pub enum FetchResource {
    /// The resource is being got.
    Getting { get: GetResource, etag: String, download: bool },
    /// Ended.
    Finished,
}

/// The mathematical value of the state of a fetch of a resource.
pub enum FetchResourceView {
    Getting { get: GetResourceView, etag: Seq<char>, download: bool },
    Finished,
}

impl View for FetchResource {
    type V = FetchResourceView;

    open spec fn view(&self) -> FetchResourceView {
        match *self {
            FetchResource::Getting { get, etag, download } => FetchResourceView::Getting {
                get: get@,
                etag: etag@,
                download,
            },
            FetchResource::Finished => FetchResourceView::Finished,
        }
    }
}

impl FetchResourceView {
    /// The first state and request of fetching the resource `id` at `now`.
    pub open spec fn begin(id: u128, matches: bool, download: bool, now: i64) -> (
        FetchResourceView,
        FetchStep,
    ) {
        if matches {
            (FetchResourceView::Finished, not_modified())
        } else {
            let (get, step) = GetResourceView::begin(id, now);
            (
                FetchResourceView::Getting { get, etag: hex_digits(id as int, 32), download },
                step.pass(),
            )
        }
    }

    /// The state and the request that follow a state and the reply to its
    /// request.
    pub open spec fn advance(self, reply: ReplyView) -> (FetchResourceView, FetchStep) {
        match self {
            FetchResourceView::Getting { get, etag, download } => {
                let (next, step) = get.advance(reply);
                match step {
                    StepView::Finish(Ok(Some(resource))) => (
                        FetchResourceView::Finished,
                        StepView::Finish(Ok(Some(resource_response(resource, etag, download)))),
                    ),
                    StepView::Finish(Ok(None)) => (
                        FetchResourceView::Finished,
                        StepView::Finish(Ok(None)),
                    ),
                    StepView::Finish(Err(e)) => (
                        FetchResourceView::Finished,
                        StepView::Finish(Err(e)),
                    ),
                    _ => (FetchResourceView::Getting { get: next, etag, download }, step.pass()),
                }
            },
            FetchResourceView::Finished => (
                FetchResourceView::Finished,
                StepView::Finish(Err(DatalithReadError::IOError(IoErrorKind::Other))),
            ),
        }
    }
}

/// A state of a fetch of a resource and the request it waits on.
pub type FetchResourceNext = (
    FetchResource,
    Step<Result<Option<DatalithResponse>, DatalithReadError>>,
);

impl FetchResource {
    /// Begins to fetch the resource `id` at `now` for a request with the
    /// given header `if-none-match`.
    pub fn from_resource_id(
        etag_if_none_match: &EtagIfNoneMatch,
        id: u128,
        download: bool,
        now: i64,
    ) -> (r: FetchResourceNext)
        ensures
            r.0@ == FetchResourceView::begin(
                id,
                etag_if_none_match.weak_matches(hex_digits(id as int, 32)),
                download,
                now,
            ).0,
            r.1.view_with(|o| fetched_view(o)) == FetchResourceView::begin(
                id,
                etag_if_none_match.weak_matches(hex_digits(id as int, 32)),
                download,
                now,
            ).1,
    {
        let etag = etag_of(id);
        if etag_if_none_match.weak_eq(&etag) {
            (FetchResource::Finished, Step::Finish(Ok(Some(DatalithResponse { data: None }))))
        } else {
            let (get, step) = GetResource::begin(id, now);
            match step.pass() {
                Passed::Request(step) => (FetchResource::Getting { get, etag, download }, step),
                Passed::Ended(_) => (FetchResource::Finished, Step::Finish(Ok(None))),
            }
        }
    }
}

impl Operation for FetchResource {
    type Output = Result<Option<DatalithResponse>, DatalithReadError>;

    type OutputView = Result<Option<DatalithResponseView>, DatalithReadError>;

    open spec fn output_view(output: Self::Output) -> Self::OutputView {
        fetched_view(output)
    }

    open spec fn advance(state: FetchResourceView, reply: ReplyView) -> (
        FetchResourceView,
        FetchStep,
    ) {
        state.advance(reply)
    }

    fn resume(self, reply: Reply) -> (r: FetchResourceNext) {
        match self {
            FetchResource::Getting { get, etag, download } => {
                let (next, step) = get.resume(reply);
                match step.pass() {
                    Passed::Ended(Ok(Some(resource))) => {
                        let file_name = resource.file_name().clone();
                        let file_type = resource.file_type().duplicate();
                        let file = resource.into_file();
                        (
                            FetchResource::Finished,
                            Step::Finish(
                                Ok(
                                    Some(
                                        DatalithResponse {
                                            data: Some(
                                                ResponseData {
                                                    etag,
                                                    file,
                                                    download,
                                                    file_name,
                                                    file_type,
                                                    image_size: None,
                                                },
                                            ),
                                        },
                                    ),
                                ),
                            ),
                        )
                    },
                    Passed::Ended(Ok(None)) => (FetchResource::Finished, Step::Finish(Ok(None))),
                    Passed::Ended(Err(e)) => (FetchResource::Finished, Step::Finish(Err(e))),
                    Passed::Request(step) => (
                        FetchResource::Getting { get: next, etag, download },
                        step,
                    ),
                }
            },
            FetchResource::Finished => (
                FetchResource::Finished,
                Step::Finish(Err(DatalithReadError::IOError(IoErrorKind::Other))),
            ),
        }
    }
}

/// Which file of an image answers a request.
#[derive(Clone, Copy, Debug, PartialEq, Eq, Structural)]
pub enum Pick {
    /// The file of the image as it was put.
    Original,
    /// The thumbnail at a place in the list of the WebP thumbnails or, for
    /// the fallback format, of the fallback thumbnails.
    Thumbnail { index: usize },
}

/// The file of an image that answers a request, and the multiplier that the
/// answer is marked with; the multiplier of the file as it was put is zero.
///
/// The image as it was put is answered by that file where it was kept, and
/// else by the largest thumbnail. The image at a multiplier is answered by
/// the thumbnail at the multiplier, brought into the range of the
/// multipliers that the image has. An image without thumbnails has no
/// answer to a request for a thumbnail.
pub open spec fn picked(
    image: DatalithImageView,
    resolution: ResolutionType,
    fallback: bool,
) -> Option<(Pick, usize)> {
    let list = if fallback {
        image.fallback_thumbnails
    } else {
        image.thumbnails
    };
    match resolution {
        ResolutionType::Original => if image.original_file is Some {
            Some((Pick::Original, 0))
        } else if list.len() > 0 {
            Some((Pick::Thumbnail { index: (list.len() - 1) as usize }, list.len() as usize))
        } else {
            None
        },
        ResolutionType::Multiplier(multiplier) => {
            let count = image.thumbnails.len();
            let m = if multiplier < 1 {
                1
            } else if multiplier > count {
                count as int
            } else {
                multiplier as int
            };
            if count > 0 && m <= list.len() {
                Some((Pick::Thumbnail { index: (m - 1) as usize }, m as usize))
            } else {
                None
            }
        },
    }
}

/// The text with the mark of a multiplier and the extension of a format at
/// its end.
pub open spec fn marked_name(stem: Seq<char>, multiplier: usize, format: ImageFormat) -> Seq<char> {
    stem + seq!['@'] + decimal(multiplier as int) + seq!['x', '.'] + format_extension(format)
}

/// The answer with the file of an image as it was put: under the stem of
/// the image, with the extension of its type or, where the type has none
/// that the store writes, that of its name.
pub open spec fn original_response(
    image: DatalithImageView,
    file: DatalithFileView,
    etag: Seq<char>,
    download: bool,
) -> ResponseDataView {
    let ext = match image_extension(file.file_type) {
        Some(ext) => Some(ext),
        None => path_extension(file.file_name),
    };
    ResponseDataView {
        etag,
        file,
        download,
        file_name: match ext {
            Some(ext) => image.image_stem + seq!['.'] + ext,
            None => image.image_stem,
        },
        file_type: file.file_type,
        image_size: None,
    }
}

/// The answer with a thumbnail of an image: under the stem of the image
/// with the mark of the multiplier, of the type of its format, and with the
/// size of the image at the multiplier.
pub open spec fn thumbnail_response(
    image: DatalithImageView,
    file: DatalithFileView,
    multiplier: usize,
    fallback: bool,
    etag: Seq<char>,
    download: bool,
) -> ResponseDataView {
    let format = if fallback {
        fallback_format_of(image.has_alpha_channel)
    } else {
        ImageFormat::Webp
    };
    ResponseDataView {
        etag,
        file,
        download,
        file_name: marked_name(image.image_stem, multiplier, format),
        file_type: format_media_type(format),
        image_size: Some(
            (
                scaled(image.image_width, multiplier),
                scaled(image.image_height, multiplier),
            ),
        ),
    }
}

/// A length at a multiplier, as far as 32 bits hold it.
pub open spec fn scaled(length: u16, multiplier: usize) -> u32 {
    if length * multiplier > u32::MAX {
        u32::MAX
    } else {
        (length * multiplier) as u32
    }
}

fn scale(length: u16, multiplier: usize) -> (r: u32)
    ensures
        r == scaled(length, multiplier),
{
    let a: u128 = length as u128;
    let b: u128 = multiplier as u128;
    assert(a * b <= 0xffff * 0xffff_ffff_ffff_ffff) by (nonlinear_arith)
        requires
            a <= 0xffff,
            b <= 0xffff_ffff_ffff_ffff,
    ;
    let product: u128 = a * b;
    if product > u32::MAX as u128 {
        u32::MAX
    } else {
        product as u32
    }
}

/// The identifiers of files, in their order.
pub open spec fn ids_of(files: Seq<DatalithFileView>) -> Seq<u128> {
    files.map_values(|f: DatalithFileView| f.id)
}

/// The pins that are released when a file of an image has been picked: those
/// on all its other files, the WebP thumbnails first, then the fallback
/// thumbnails, then the file as it was put.
pub open spec fn unpicked(image: DatalithImageView, pick: Option<Pick>, fallback: bool) -> Seq<u128> {
    let original = match image.original_file {
        Some(file) => seq![file.id],
        None => Seq::empty(),
    };
    match pick {
        Some(Pick::Original) => ids_of(image.thumbnails) + ids_of(image.fallback_thumbnails),
        Some(Pick::Thumbnail { index }) => if fallback {
            ids_of(image.thumbnails) + ids_of(image.fallback_thumbnails.remove(index as int))
                + original
        } else {
            ids_of(image.thumbnails.remove(index as int)) + ids_of(image.fallback_thumbnails)
                + original
        },
        None => ids_of(image.thumbnails) + ids_of(image.fallback_thumbnails) + original,
    }
}

/// The answer to a request for an image that has been got, and the pins to
/// release.
pub open spec fn image_response(
    image: DatalithImageView,
    resolution: ResolutionType,
    fallback: bool,
    etag: Seq<char>,
    download: bool,
) -> (Option<DatalithResponseView>, Seq<u128>) {
    match picked(image, resolution, fallback) {
        Some((Pick::Original, multiplier)) => (
            Some(
                DatalithResponseView {
                    data: Some(
                        original_response(image, image.original_file.unwrap(), etag, download),
                    ),
                },
            ),
            unpicked(image, Some(Pick::Original), fallback),
        ),
        Some((Pick::Thumbnail { index }, multiplier)) => {
            let list = if fallback {
                image.fallback_thumbnails
            } else {
                image.thumbnails
            };
            (
                Some(
                    DatalithResponseView {
                        data: Some(
                            thumbnail_response(
                                image,
                                list[index as int],
                                multiplier,
                                fallback,
                                etag,
                                download,
                            ),
                        ),
                    },
                ),
                unpicked(image, Some(Pick::Thumbnail { index }), fallback),
            )
        },
        None => (None, unpicked(image, None, fallback)),
    }
}

fn pick(image: &DatalithImage, resolution: ResolutionType, fallback: bool) -> (r: Option<
    (Pick, usize),
>)
    ensures
        r == picked(image@, resolution, fallback),
{
    let list_len = if fallback {
        image.fallback_thumbnails().len()
    } else {
        image.thumbnails().len()
    };
    match resolution {
        ResolutionType::Original => if image.original_file().is_some() {
            Some((Pick::Original, 0))
        } else if list_len > 0 {
            Some((Pick::Thumbnail { index: list_len - 1 }, list_len))
        } else {
            None
        },
        ResolutionType::Multiplier(multiplier) => {
            let count = image.thumbnails().len();
            let m: usize = if multiplier < 1 {
                1
            } else if multiplier as usize > count {
                count
            } else {
                multiplier as usize
            };
            if count > 0 && m <= list_len {
                Some((Pick::Thumbnail { index: m - 1 }, m))
            } else {
                None
            }
        },
    }
}

fn file_ids(files: &Vec<DatalithFile>) -> (ids: Vec<u128>)
    ensures
        ids@ == ids_of(files_view(files@)),
{
    let mut ids: Vec<u128> = Vec::new();
    let mut i: usize = 0;
    while i < files.len()
        invariant
            i <= files.len(),
            ids@ == ids_of(files_view(files@).subrange(0, i as int)),
        decreases files.len() - i,
    {
        ids.push(files[i].id());
        proof {
            let all = files_view(files@);
            assert(all.subrange(0, i as int + 1) =~= all.subrange(0, i as int).push(all[i as int]));
            assert(ids@ =~= ids_of(all.subrange(0, i as int + 1)));
        }
        i = i + 1;
    }
    proof {
        assert(files_view(files@).subrange(0, i as int) =~= files_view(files@));
    }
    ids
}

fn append_ids(ids: &mut Vec<u128>, more: &Vec<u128>)
    ensures
        final(ids)@ == old(ids)@ + more@,
{
    let mut i: usize = 0;
    while i < more.len()
        invariant
            i <= more.len(),
            ids@ == old(ids)@ + more@.subrange(0, i as int),
        decreases more.len() - i,
    {
        ids.push(more[i]);
        proof {
            assert(ids@ =~= old(ids)@ + more@.subrange(0, i as int + 1));
        }
        i = i + 1;
    }
    proof {
        assert(more@.subrange(0, i as int) =~= more@);
    }
}

fn take_file(files: Vec<DatalithFile>, index: usize) -> (r: (DatalithFile, Vec<u128>))
    requires
        index < files.len(),
    ensures
        r.0@ == files_view(files@)[index as int],
        r.1@ == ids_of(files_view(files@).remove(index as int)),
{
    let ghost before = files_view(files@);
    let mut files = files;
    let file = files.remove(index);
    proof {
        assert(files_view(files@) =~= before.remove(index as int));
    }
    let ids = file_ids(&files);
    (file, ids)
}

fn marked(stem: &String, multiplier: usize, format: ImageFormat) -> (r: String)
    ensures
        r@ == marked_name(stem@, multiplier, format),
{
    let mut name = stem.clone();
    push_char(&mut name, '@');
    let digits = decimal_of_u64(multiplier as u64);
    name.append(digits.as_str());
    push_char(&mut name, 'x');
    push_char(&mut name, '.');
    match format {
        ImageFormat::Webp => name.append("webp"),
        ImageFormat::Png => name.append("png"),
        ImageFormat::Jpeg => name.append("jpg"),
    }
    proof {
        assert(name@ =~= marked_name(stem@, multiplier, format));
    }
    name
}

/// Works out the answer to a request for an image that has been got, and the
/// pins to release.
pub fn respond_with_image(
    image: DatalithImage,
    resolution: ResolutionType,
    fallback: bool,
    etag: String,
    download: bool,
) -> (r: (Option<DatalithResponse>, Vec<u128>))
    ensures
        match r.0 {
            Some(response) => image_response(image@, resolution, fallback, etag@, download).0
                == Some(response@),
            None => image_response(image@, resolution, fallback, etag@, download).0 is None,
        },
        r.1@ == image_response(image@, resolution, fallback, etag@, download).1,
{
    let choice = pick(&image, resolution, fallback);
    let stem = image.image_stem().clone();
    let image_width = image.image_width();
    let image_height = image.image_height();
    let has_alpha_channel = image.has_alpha_channel();
    let (original_file, thumbnails, fallback_thumbnails) = image.into_files();
    match choice {
        Some((Pick::Original, _)) => {
            let mut pins = file_ids(&thumbnails);
            let more = file_ids(&fallback_thumbnails);
            append_ids(&mut pins, &more);
            match original_file {
                Some(file) => {
                    let ext = match get_image_extension(file.file_type()) {
                        Some(ext) => Some(ext),
                        None => file_extension(file.file_name().as_str()),
                    };
                    let mut file_name = stem;
                    match ext {
                        Some(ext) => {
                            push_char(&mut file_name, '.');
                            file_name.append(ext.as_str());
                            proof {
                                assert(file_name@ =~= image@.image_stem + seq!['.'] + ext@);
                            }
                        },
                        None => {},
                    }
                    let file_type = file.file_type().duplicate();
                    (
                        Some(
                            DatalithResponse {
                                data: Some(
                                    ResponseData {
                                        etag,
                                        file,
                                        download,
                                        file_name,
                                        file_type,
                                        image_size: None,
                                    },
                                ),
                            },
                        ),
                        pins,
                    )
                },
                None => (None, pins),
            }
        },
        Some((Pick::Thumbnail { index }, multiplier)) => {
            let format = if fallback {
                fallback_format(has_alpha_channel)
            } else {
                ImageFormat::Webp
            };
            let (file, pins) = if fallback {
                let mut pins = file_ids(&thumbnails);
                let (file, more) = take_file(fallback_thumbnails, index);
                append_ids(&mut pins, &more);
                (file, pins)
            } else {
                let (file, mut pins) = take_file(thumbnails, index);
                let more = file_ids(&fallback_thumbnails);
                append_ids(&mut pins, &more);
                (file, pins)
            };
            let mut pins = pins;
            match original_file {
                Some(original) => {
                    pins.push(original.id());
                },
                None => {},
            }
            proof {
                assert(pins@ =~= unpicked(image@, Some(Pick::Thumbnail { index }), fallback));
            }
            (
                Some(
                    DatalithResponse {
                        data: Some(
                            ResponseData {
                                etag,
                                file,
                                download,
                                file_name: marked(&stem, multiplier, format),
                                file_type: media_type_of_format(format),
                                image_size: Some(
                                    (scale(image_width, multiplier), scale(image_height, multiplier)),
                                ),
                            },
                        ),
                    },
                ),
                pins,
            )
        },
        None => {
            let mut pins = file_ids(&thumbnails);
            let more = file_ids(&fallback_thumbnails);
            append_ids(&mut pins, &more);
            match original_file {
                Some(original) => {
                    pins.push(original.id());
                },
                None => {},
            }
            proof {
                assert(pins@ =~= unpicked(image@, None, fallback));
            }
            (None, pins)
        },
    }
}

/// Fetching an image for a request. A request that names the entity tag of
/// the image is told that the client has the file, and nothing is looked up.
/// For any other request the image is got, the file that answers the request
/// is picked, and the pins on its other files are released.
#[derive(Debug)]
pub enum FetchImage {
    /// The image is being got.
    Getting { get: GetImage, etag: String, resolution: ResolutionType, fallback: bool, download: bool },
    /// Asked to unpin a file that is not picked.
    Unpinning { pins: Vec<u128>, index: usize, response: Option<DatalithResponse> },
    /// Ended.
    Finished,
}

/// The mathematical value of the state of a fetch of an image.
pub enum FetchImageView {
    Getting {
        get: GetImageView,
        etag: Seq<char>,
        resolution: ResolutionType,
        fallback: bool,
        download: bool,
    },
    Unpinning { pins: Seq<u128>, index: usize, response: Option<DatalithResponseView> },
    Finished,
}

/// The mathematical value of an answer that may be absent.
pub open spec fn optional_response_view(response: Option<DatalithResponse>) -> Option<
    DatalithResponseView,
> {
    match response {
        Some(response) => Some(response@),
        None => None,
    }
}

impl View for FetchImage {
    type V = FetchImageView;

    open spec fn view(&self) -> FetchImageView {
        match *self {
            FetchImage::Getting { get, etag, resolution, fallback, download } => {
                FetchImageView::Getting { get: get@, etag: etag@, resolution, fallback, download }
            },
            FetchImage::Unpinning { pins, index, response } => FetchImageView::Unpinning {
                pins: pins@,
                index,
                response: optional_response_view(response),
            },
            FetchImage::Finished => FetchImageView::Finished,
        }
    }
}

/// The form of an image that a request asks for: the image at multiplier
/// one, unless another is named.
pub open spec fn resolution_or_default(resolution: Option<ResolutionType>) -> ResolutionType {
    match resolution {
        Some(resolution) => resolution,
        None => ResolutionType::Multiplier(1),
    }
}

impl FetchImageView {
    /// The first state and request of fetching the image `id`.
    pub open spec fn begin(
        id: u128,
        matches: bool,
        resolution: Option<ResolutionType>,
        fallback: bool,
        download: bool,
    ) -> (FetchImageView, FetchStep) {
        if matches {
            (FetchImageView::Finished, not_modified())
        } else {
            let (get, step) = GetImageView::begin(id);
            (
                FetchImageView::Getting {
                    get,
                    etag: hex_digits(id as int, 32),
                    resolution: resolution_or_default(resolution),
                    fallback,
                    download,
                },
                step.pass(),
            )
        }
    }

    /// The request to unpin the file at `index`, or, where every file is
    /// unpinned, the end with the answer.
    pub open spec fn unpin(
        pins: Seq<u128>,
        index: usize,
        response: Option<DatalithResponseView>,
    ) -> (FetchImageView, FetchStep) {
        if index < pins.len() {
            (
                FetchImageView::Unpinning { pins, index, response },
                StepView::Guard(GuardRequestView::ReleaseOpen(pins[index as int])),
            )
        } else {
            (FetchImageView::Finished, StepView::Finish(Ok(response)))
        }
    }

    /// The state and the request that follow a state and the reply to its
    /// request.
    pub open spec fn advance(self, reply: ReplyView) -> (FetchImageView, FetchStep) {
        match self {
            FetchImageView::Getting { get, etag, resolution, fallback, download } => {
                let (next, step) = get.advance(reply);
                match step {
                    StepView::Finish(Ok(Some(image))) => {
                        let (response, pins) = image_response(
                            image,
                            resolution,
                            fallback,
                            etag,
                            download,
                        );
                        FetchImageView::unpin(pins, 0, response)
                    },
                    StepView::Finish(Ok(None)) => (
                        FetchImageView::Finished,
                        StepView::Finish(Ok(None)),
                    ),
                    StepView::Finish(Err(e)) => (
                        FetchImageView::Finished,
                        StepView::Finish(Err(e)),
                    ),
                    _ => (
                        FetchImageView::Getting {
                            get: next,
                            etag,
                            resolution,
                            fallback,
                            download,
                        },
                        step.pass(),
                    ),
                }
            },
            FetchImageView::Unpinning { pins, index, response } => FetchImageView::unpin(
                pins,
                one_more(index),
                response,
            ),
            FetchImageView::Finished => (
                FetchImageView::Finished,
                StepView::Finish(Err(DatalithReadError::IOError(IoErrorKind::Other))),
            ),
        }
    }
}

/// A state of a fetch of an image and the request it waits on.
pub type FetchImageNext = (FetchImage, Step<Result<Option<DatalithResponse>, DatalithReadError>>);

fn unpin_unpicked(pins: Vec<u128>, index: usize, response: Option<DatalithResponse>) -> (r:
    FetchImageNext)
    ensures
        r.0@ == FetchImageView::unpin(pins@, index, optional_response_view(response)).0,
        r.1.view_with(|o| fetched_view(o)) == FetchImageView::unpin(
            pins@,
            index,
            optional_response_view(response),
        ).1,
{
    if index < pins.len() {
        let pin = pins[index];
        (
            FetchImage::Unpinning { pins, index, response },
            Step::Guard(GuardRequest::ReleaseOpen(pin)),
        )
    } else {
        (FetchImage::Finished, Step::Finish(Ok(response)))
    }
}

impl FetchImage {
    /// Begins to fetch the image `id` for a request with the given header
    /// `if-none-match`.
    pub fn from_image_id(
        etag_if_none_match: &EtagIfNoneMatch,
        id: u128,
        resolution_type: Option<ResolutionType>,
        fallback: bool,
        download: bool,
    ) -> (r: FetchImageNext)
        ensures
            r.0@ == FetchImageView::begin(
                id,
                etag_if_none_match.weak_matches(hex_digits(id as int, 32)),
                resolution_type,
                fallback,
                download,
            ).0,
            r.1.view_with(|o| fetched_view(o)) == FetchImageView::begin(
                id,
                etag_if_none_match.weak_matches(hex_digits(id as int, 32)),
                resolution_type,
                fallback,
                download,
            ).1,
    {
        let etag = etag_of(id);
        if etag_if_none_match.weak_eq(&etag) {
            (FetchImage::Finished, Step::Finish(Ok(Some(DatalithResponse { data: None }))))
        } else {
            let resolution = match resolution_type {
                Some(resolution) => resolution,
                None => ResolutionType::Multiplier(1),
            };
            let (get, step) = GetImage::begin(id);
            match step.pass() {
                Passed::Request(step) => (
                    FetchImage::Getting { get, etag, resolution, fallback, download },
                    step,
                ),
                Passed::Ended(_) => (FetchImage::Finished, Step::Finish(Ok(None))),
            }
        }
    }
}

impl Operation for FetchImage {
    type Output = Result<Option<DatalithResponse>, DatalithReadError>;

    type OutputView = Result<Option<DatalithResponseView>, DatalithReadError>;

    open spec fn output_view(output: Self::Output) -> Self::OutputView {
        fetched_view(output)
    }

    open spec fn advance(state: FetchImageView, reply: ReplyView) -> (FetchImageView, FetchStep) {
        state.advance(reply)
    }

    fn resume(self, reply: Reply) -> (r: FetchImageNext) {
        match self {
            FetchImage::Getting { get, etag, resolution, fallback, download } => {
                let (next, step) = get.resume(reply);
                match step.pass() {
                    Passed::Ended(Ok(Some(image))) => {
                        let (response, pins) = respond_with_image(
                            image,
                            resolution,
                            fallback,
                            etag,
                            download,
                        );
                        unpin_unpicked(pins, 0, response)
                    },
                    Passed::Ended(Ok(None)) => (FetchImage::Finished, Step::Finish(Ok(None))),
                    Passed::Ended(Err(e)) => (FetchImage::Finished, Step::Finish(Err(e))),
                    Passed::Request(step) => (
                        FetchImage::Getting { get: next, etag, resolution, fallback, download },
                        step,
                    ),
                }
            },
            FetchImage::Unpinning { pins, index, response } => unpin_unpicked(
                pins,
                if index < usize::MAX {
                    index + 1
                } else {
                    index
                },
                response,
            ),
            FetchImage::Finished => (
                FetchImage::Finished,
                Step::Finish(Err(DatalithReadError::IOError(IoErrorKind::Other))),
            ),
        }
    }
}

/// A header of an answer.
#[derive(Debug)]
pub struct Header {
    pub name: String,
    pub value: String,
}

/// How an answer may be cached.
#[derive(Clone, Copy, Debug, PartialEq, Eq, Structural)]
pub enum CachePolicy {
    /// The answer is not stored.
    NoStore,
    /// The answer is checked with the service before it is used again.
    NoCache,
}

/// How the answer with a file may be cached: a temporary file is not
/// stored.
pub fn cache_policy(is_temporary: bool) -> (r: CachePolicy)
    ensures
        r == if is_temporary {
            CachePolicy::NoStore
        } else {
            CachePolicy::NoCache
        },
{
    if is_temporary {
        CachePolicy::NoStore
    } else {
        CachePolicy::NoCache
    }
}

/// A text as `url_escape::encode_component` encodes it.
pub uninterp spec fn component_encoded(text: Seq<char>) -> Seq<char>;

/// Encodes a text as a component of a URL.
///
/// Trusted: wraps `url_escape::encode_component_to_string`. The result is a
/// function of the text alone.
#[verifier::external_body]
pub(crate) fn encode_component(text: &str) -> (r: String)
    ensures
        r@ == component_encoded(text@),
{
    let mut out = String::new();
    url_escape::encode_component_to_string(text, &mut out);
    out
}

/// The value of the header `etag` for a tag: the tag, marked as weak.
pub open spec fn etag_header(tag: Seq<char>) -> Seq<char> {
    seq!['W', '/', '"'] + tag + seq!['"']
}

/// The value of the header `content-disposition`.
pub open spec fn content_disposition(download: bool, file_name: Seq<char>) -> Seq<char> {
    (if download {
        "attachment"@
    } else {
        "inline"@
    }) + "; filename*=UTF-8''"@ + component_encoded(file_name)
}

/// The status of an answer: the file, or the notice that the client has it.
pub open spec fn response_status(response: DatalithResponseView) -> u16 {
    if response.data is Some {
        STATUS_OK
    } else {
        STATUS_NOT_MODIFIED
    }
}

/// The values of the headers of an answer with a file, in their order:
/// `etag`, unless the file is temporary, `content-disposition`,
/// `content-type` and `content-length`, and, for a thumbnail,
/// `x-image-width` and `x-image-height`.
pub open spec fn header_values(data: ResponseDataView) -> Seq<(Seq<char>, Seq<char>)> {
    (if data.file.is_temporary {
        Seq::empty()
    } else {
        seq![("etag"@, etag_header(data.etag))]
    }) + seq![
        ("content-disposition"@, content_disposition(data.download, data.file_name)),
        ("content-type"@, data.file_type.text),
        ("content-length"@, decimal(data.file.file_size as int)),
    ] + (match data.image_size {
        Some((width, height)) => seq![
            ("x-image-width"@, decimal(width as int)),
            ("x-image-height"@, decimal(height as int)),
        ],
        None => Seq::empty(),
    })
}

/// The names and values of a list of headers.
pub open spec fn headers_view(headers: Seq<Header>) -> Seq<(Seq<char>, Seq<char>)> {
    Seq::new(headers.len(), |i: int| (headers[i].name@, headers[i].value@))
}

fn push_header(headers: &mut Vec<Header>, name: &str, value: String)
    ensures
        headers_view(final(headers)@) == headers_view(old(headers)@).push((name@, value@)),
{
    headers.push(Header { name: name.to_owned(), value });
    proof {
        assert(headers_view(headers@) =~= headers_view(old(headers)@).push((name@, value@)));
    }
}

fn decimal_of_u64(n: u64) -> (r: String)
    ensures
        r@ == decimal(n as int),
{
    if n <= i64::MAX as u64 {
        decimal_string(n as i64)
    } else {
        // The digits of the quotient by ten, then the last digit.
        let mut s = decimal_string((n / 10) as i64);
        push_char(&mut s, ((('0' as u8) + (n % 10) as u8)) as char);
        proof {
            assert(decimal(n as int) == crate::text::decimal_digits(n as nat));
            assert(decimal((n / 10) as int) == crate::text::decimal_digits((n / 10) as nat));
        }
        s
    }
}

/// Works out the headers of an answer with a file.
pub fn response_headers(data: &ResponseData) -> (headers: Vec<Header>)
    ensures
        headers_view(headers@) == header_values(data@),
{
    let mut headers: Vec<Header> = Vec::new();
    proof {
        assert(headers_view(headers@) =~= Seq::<(Seq<char>, Seq<char>)>::empty());
    }
    if !data.file.is_temporary() {
        let mut value = String::new();
        push_char(&mut value, 'W');
        push_char(&mut value, '/');
        push_char(&mut value, '"');
        value.append(data.etag.as_str());
        push_char(&mut value, '"');
        proof {
            assert(value@ =~= etag_header(data.etag@));
        }
        push_header(&mut headers, "etag", value);
    }
    let mut disposition = if data.download {
        "attachment".to_owned()
    } else {
        "inline".to_owned()
    };
    disposition.append("; filename*=UTF-8''");
    let encoded = encode_component(data.file_name.as_str());
    disposition.append(encoded.as_str());
    push_header(&mut headers, "content-disposition", disposition);
    push_header(&mut headers, "content-type", data.file_type.text.clone());
    push_header(&mut headers, "content-length", decimal_of_u64(data.file.file_size()));
    match data.image_size {
        Some((width, height)) => {
            push_header(&mut headers, "x-image-width", decimal_string(width as i64));
            push_header(&mut headers, "x-image-height", decimal_string(height as i64));
        },
        None => {},
    }
    proof {
        assert(headers_view(headers@) =~= header_values(data@));
    }
    headers
}

/// The status of the answer to a fetch: the file or the notice that the
/// client has it; not found, where there is none; and a failure of the
/// service where the fetch failed.
pub open spec fn fetch_status_of(r: Result<Option<DatalithResponseView>, DatalithReadError>) -> u16 {
    match r {
        Ok(Some(response)) => response_status(response),
        Ok(None) => STATUS_NOT_FOUND,
        Err(_) => STATUS_INTERNAL_SERVER_ERROR,
    }
}

/// Works out the status of the answer to a fetch.
pub fn fetch_status(r: &Result<Option<DatalithResponse>, DatalithReadError>) -> (status: u16)
    ensures
        status == fetch_status_of(fetched_view(*r)),
{
    match r {
        Ok(Some(response)) => if response.data.is_some() {
            STATUS_OK
        } else {
            STATUS_NOT_MODIFIED
        },
        Ok(None) => STATUS_NOT_FOUND,
        Err(_) => STATUS_INTERNAL_SERVER_ERROR,
    }
}

/// The status of the answer to a delete: done, where something was
/// deleted; not found, where there was nothing; and a failure of the service
/// where the delete failed.
pub fn delete_status(r: &Result<bool, DatalithReadError>) -> (status: u16)
    ensures
        status == match *r {
            Ok(true) => STATUS_OK,
            Ok(false) => STATUS_NOT_FOUND,
            Err(_) => STATUS_INTERNAL_SERVER_ERROR,
        },
{
    match r {
        Ok(true) => STATUS_OK,
        Ok(false) => STATUS_NOT_FOUND,
        Err(_) => STATUS_INTERNAL_SERVER_ERROR,
    }
}

/// The status of the answer to an upload that failed: a request whose body
/// could not be read is a bad request; anything else is a failure of the
/// service.
pub fn upload_failure_status(error: &DatalithWriteError) -> (status: u16)
    ensures
        status == match error@ {
            DatalithWriteErrorView::IOError(IoErrorKind::Other) => STATUS_BAD_REQUEST,
            DatalithWriteErrorView::FileLengthTooLarge { .. } => STATUS_PAYLOAD_TOO_LARGE,
            _ => STATUS_INTERNAL_SERVER_ERROR,
        },
{
    match error {
        DatalithWriteError::IOError(IoErrorKind::Other) => STATUS_BAD_REQUEST,
        DatalithWriteError::FileLengthTooLarge { .. } => STATUS_PAYLOAD_TOO_LARGE,
        _ => STATUS_INTERNAL_SERVER_ERROR,
    }
}

/// The status of the answer to an upload of an image that failed: a payload
/// longer than declared is too large; a payload that is no image the store
/// supports is a bad request; anything else is a failure of the service.
pub fn image_upload_failure_status(error: &DatalithImageWriteError) -> (status: u16)
    ensures
        status == match error@ {
            DatalithImageWriteErrorView::DatalithWriteError(
                DatalithWriteErrorView::FileLengthTooLarge { .. },
            ) => STATUS_PAYLOAD_TOO_LARGE,
            DatalithImageWriteErrorView::UnsupportedImageType => STATUS_BAD_REQUEST,
            _ => STATUS_INTERNAL_SERVER_ERROR,
        },
{
    match error {
        DatalithImageWriteError::DatalithWriteError(
            DatalithWriteError::FileLengthTooLarge { .. },
        ) => STATUS_PAYLOAD_TOO_LARGE,
        DatalithImageWriteError::UnsupportedImageType => STATUS_BAD_REQUEST,
        _ => STATUS_INTERNAL_SERVER_ERROR,
    }
}

/// The status of the answer to a form that could not be read: too large a
/// payload where the field of the file was too large, and else a bad
/// request.
pub fn form_failure_status(too_large_field: Option<&str>) -> (status: u16)
    ensures
        status == match too_large_field {
            Some(field) if field@ == "file"@ => STATUS_PAYLOAD_TOO_LARGE,
            _ => STATUS_BAD_REQUEST,
        },
{
    match too_large_field {
        Some(field) => {
            let name = field.to_owned();
            if is_word(&name, "file") {
                STATUS_PAYLOAD_TOO_LARGE
            } else {
                STATUS_BAD_REQUEST
            }
        },
        None => STATUS_BAD_REQUEST,
    }
}

/// The fields of the form with which a resource is uploaded.
#[derive(Debug)]
pub struct UploadForm {
    /// The field `file_name`.
    pub file_name: Option<String>,
    /// The name that the part of the file declares.
    pub part_file_name: Option<String>,
    /// The field `file_type`.
    pub file_type: Option<String>,
    /// The type that the part of the file declares.
    pub part_content_type: Option<String>,
    /// The field `temporary`.
    pub temporary: Option<String>,
}

/// What an upload of a resource is to do.
#[derive(Debug)]
pub struct UploadPlan {
    pub label: FileLabel,
    pub temporary: bool,
}

/// The media type that a text names, where it names one.
pub open spec fn media_type_of_text(text: Seq<char>) -> Option<MediaTypeView> {
    match mime_parse(text) {
        Some((text, essence, subtype)) => Some(MediaTypeView { text, essence, subtype }),
        None => None,
    }
}

/// What the form of an upload comes to. The name is that of the field, and
/// else that of the part. The type of the field is used as it is; the type of
/// the part only where detection finds none. A field `file_type` that names no
/// media type, or a field `temporary` that names no truth value, makes a bad
/// request.
pub open spec fn upload_plan(
    file_name: Option<Seq<char>>,
    part_file_name: Option<Seq<char>>,
    file_type: Option<Seq<char>>,
    part_content_type: Option<Seq<char>>,
    temporary: Option<Seq<char>>,
) -> Result<(Option<Seq<char>>, Option<(MediaTypeView, FileTypeLevel)>, bool), u16> {
    let name = match file_name {
        Some(name) => Some(name),
        None => part_file_name,
    };
    let declared = match file_type {
        Some(text) => match media_type_of_text(text) {
            Some(t) => Ok(Some((t, FileTypeLevel::Manual))),
            None => Err(STATUS_BAD_REQUEST),
        },
        None => match part_content_type {
            Some(text) => match media_type_of_text(text) {
                Some(t) => Ok(Some((t, FileTypeLevel::Fallback))),
                None => Ok(None),
            },
            None => Ok(None),
        },
    };
    let flag = match temporary {
        Some(text) => match boolean_of_text(text) {
            Some(flag) => Ok(flag),
            None => Err(STATUS_BAD_REQUEST),
        },
        None => Ok(false),
    };
    match (declared, flag) {
        (Ok(declared), Ok(flag)) => Ok((name, declared, flag)),
        _ => Err(STATUS_BAD_REQUEST),
    }
}

/// The mathematical value of the plan of an upload.
pub open spec fn upload_plan_view(r: Result<UploadPlan, u16>) -> Result<
    (Option<Seq<char>>, Option<(MediaTypeView, FileTypeLevel)>, bool),
    u16,
> {
    match r {
        Ok(plan) => Ok(
            (text_view(plan.label.file_name), declared_view(plan.label.file_type), plan.temporary),
        ),
        Err(status) => Err(status),
    }
}

/// Works out what an upload of a resource is to do.
pub fn plan_upload(form: UploadForm) -> (r: Result<UploadPlan, u16>)
    ensures
        upload_plan_view(r) == upload_plan(
            text_view(form.file_name),
            text_view(form.part_file_name),
            text_view(form.file_type),
            text_view(form.part_content_type),
            text_view(form.temporary),
        ),
{
    let UploadForm { file_name, part_file_name, file_type, part_content_type, temporary } = form;
    let name = match file_name {
        Some(name) => Some(name),
        None => part_file_name,
    };
    let declared = match file_type {
        Some(text) => match MediaType::parse(text.as_str()) {
            Some(t) => Some((t, FileTypeLevel::Manual)),
            None => {
                return Err(STATUS_BAD_REQUEST);
            },
        },
        None => match part_content_type {
            Some(text) => match MediaType::parse(text.as_str()) {
                Some(t) => Some((t, FileTypeLevel::Fallback)),
                None => None,
            },
            None => None,
        },
    };
    let flag = match temporary {
        Some(text) => match parse_boolean(text.as_str()) {
            Some(flag) => flag,
            None => {
                return Err(STATUS_BAD_REQUEST);
            },
        },
        None => false,
    };
    Ok(UploadPlan { label: FileLabel { file_name: name, file_type: declared }, temporary: flag })
}

/// What the upload of a stream comes to: its type is that of the query, and
/// else that of the header `content-type`, used as it is; a text that names
/// no media type makes a bad request, and a declared length above the largest
/// size of a file is too large.
pub open spec fn stream_plan(
    file_type: Option<Seq<char>>,
    content_type: Option<Seq<char>>,
    content_length: Option<ContentLength>,
    max_file_size: u64,
) -> Result<(Option<(MediaTypeView, FileTypeLevel)>, Option<u64>), u16> {
    let text = match file_type {
        Some(text) => Some(text),
        None => content_type,
    };
    match text {
        Some(text) => match media_type_of_text(text) {
            Some(t) => match content_length_check(max_file_size, content_length) {
                Ok(length) => Ok((Some((t, FileTypeLevel::Manual)), length)),
                Err(status) => Err(status),
            },
            None => Err(STATUS_BAD_REQUEST),
        },
        None => match content_length_check(max_file_size, content_length) {
            Ok(length) => Ok((None, length)),
            Err(status) => Err(status),
        },
    }
}

/// What the upload of a stream is to do.
#[derive(Debug)]
pub struct StreamPlan {
    pub file_type: Option<(MediaType, FileTypeLevel)>,
    pub expected_length: Option<u64>,
}

/// Works out what the upload of a stream is to do.
pub fn plan_stream_upload(
    file_type: Option<String>,
    content_type: Option<String>,
    content_length: Option<ContentLength>,
    max_file_size: u64,
) -> (r: Result<StreamPlan, u16>)
    ensures
        match r {
            Ok(plan) => stream_plan(
                text_view(file_type),
                text_view(content_type),
                content_length,
                max_file_size,
            ) == Ok::<(Option<(MediaTypeView, FileTypeLevel)>, Option<u64>), u16>(
                (declared_view(plan.file_type), plan.expected_length),
            ),
            Err(status) => stream_plan(
                text_view(file_type),
                text_view(content_type),
                content_length,
                max_file_size,
            ) == Err::<(Option<(MediaTypeView, FileTypeLevel)>, Option<u64>), u16>(status),
        },
{
    let text = match file_type {
        Some(text) => Some(text),
        None => content_type,
    };
    let declared = match text {
        Some(text) => match MediaType::parse(text.as_str()) {
            Some(t) => Some((t, FileTypeLevel::Manual)),
            None => {
                return Err(STATUS_BAD_REQUEST);
            },
        },
        None => None,
    };
    match validate_content_length(max_file_size, content_length) {
        Ok(expected_length) => Ok(StreamPlan { file_type: declared, expected_length }),
        Err(status) => Err(status),
    }
}

/// A bound of an image that a text names: a number that 16 bits hold.
pub open spec fn bound_of_text(text: Option<Seq<char>>) -> Result<Option<u16>, u16> {
    match text {
        Some(text) => match unsigned_of_text(text, 65535) {
            Some(bound) => Ok(Some(bound as u16)),
            None => Err(STATUS_BAD_REQUEST),
        },
        None => Ok(None),
    }
}

/// Reads a bound of an image.
pub fn parse_bound(text: Option<&str>) -> (r: Result<Option<u16>, u16>)
    ensures
        r == bound_of_text(
            match text {
                Some(text) => Some(text@),
                None => None,
            },
        ),
{
    match text {
        Some(text) => match parse_unsigned(text, 65535) {
            Some(bound) => Ok(Some(bound as u16)),
            None => Err(STATUS_BAD_REQUEST),
        },
        None => Ok(None),
    }
}

/// Whether the file of an image is kept as it was put: as the field says,
/// and kept where the field is absent.
pub open spec fn keeps_original(text: Option<Seq<char>>) -> Result<bool, u16> {
    match text {
        Some(text) => match boolean_of_text(text) {
            Some(flag) => Ok(flag),
            None => Err(STATUS_BAD_REQUEST),
        },
        None => Ok(true),
    }
}

/// Reads whether the file of an image is kept as it was put.
pub fn parse_save_original_file(text: Option<&str>) -> (r: Result<bool, u16>)
    ensures
        r == keeps_original(
            match text {
                Some(text) => Some(text@),
                None => None,
            },
        ),
{
    match text {
        Some(text) => match parse_boolean(text) {
            Some(flag) => Ok(flag),
            None => Err(STATUS_BAD_REQUEST),
        },
        None => Ok(true),
    }
}

} // verus!
