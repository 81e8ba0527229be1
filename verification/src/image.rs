//! What the store works out about images: whether an image is taken, at
//! which multipliers thumbnails are written, and how they are named.

use vstd::prelude::*;
use crate::datalith_errors::DatalithImageWriteError;
use crate::datalith_errors::DatalithImageWriteErrorView;
use crate::datalith_file::DatalithFile;
use crate::datalith_file::DatalithFileView;
use crate::image_types::files_view;
use crate::image_types::ThumbnailLink;
use crate::media_type::mime_parse;
use crate::media_type::MediaType;
use crate::media_type::MediaTypeView;
use crate::step::ImageFormat;
use crate::step::ImageIdentity;
use crate::step::ImageIdentityView;
use crate::text::decimal;
use crate::text::decimal_string;
use crate::text::file_stem;
use crate::text::path_file_stem;
use crate::text::push_char;
use crate::text::trim_in_place;
use crate::text::trimmed;

verus! {

/// What is known of an image that the store takes.
#[derive(Debug)]
pub struct ImageMetadata {
    pub width: u16,
    pub height: u16,
    pub file_type: MediaType,
    pub has_alpha_channel: bool,
}

/// The mathematical value of what is known of an image.
pub struct ImageMetadataView {
    pub width: u16,
    pub height: u16,
    pub file_type: MediaTypeView,
    pub has_alpha_channel: bool,
}

impl View for ImageMetadata {
    type V = ImageMetadataView;

    open spec fn view(&self) -> ImageMetadataView {
        ImageMetadataView {
            width: self.width,
            height: self.height,
            file_type: self.file_type@,
            has_alpha_channel: self.has_alpha_channel,
        }
    }
}

/// The lowercase form of an ASCII letter, and any other character as it is.
pub open spec fn ascii_lower_char(c: char) -> char {
    if 'A' <= c && c <= 'Z' {
        ((c as u8) + 32) as char
    } else {
        c
    }
}

/// A text with its ASCII letters in lowercase.
pub open spec fn ascii_lower(s: Seq<char>) -> Seq<char> {
    Seq::new(s.len(), |i: int| ascii_lower_char(s[i]))
}

/// Turns the ASCII letters of a text into lowercase.
pub fn to_ascii_lowercase(s: &str) -> (r: String)
    ensures
        r@ == ascii_lower(s@),
{
    let mut r = String::new();
    let n = s.unicode_len();
    let mut i: usize = 0;
    while i < n
        invariant
            i <= n,
            n == s@.len(),
            r@ == ascii_lower(s@.subrange(0, i as int)),
        decreases n - i,
    {
        let c = s.get_char(i);
        let lower = if 'A' <= c && c <= 'Z' {
            ((c as u8) + 32) as char
        } else {
            c
        };
        push_char(&mut r, lower);
        proof {
            assert(r@ =~= ascii_lower(s@.subrange(0, i as int + 1)));
        }
        i = i + 1;
    }
    proof {
        assert(s@.subrange(0, n as int) =~= s@);
    }
    r
}

/// The media type of an image of a format: `image/` and the name of the
/// format in lowercase.
pub open spec fn image_mime_text(format: Seq<char>) -> Seq<char> {
    "image/"@ + ascii_lower(format)
}

/// What the store makes of an image as the codec found it. An image that is
/// wider or higher than 65535 pixels, or that has more pixels than the store
/// takes, is too big; an image whose format names no media type is not
/// supported.
pub open spec fn image_metadata(identity: ImageIdentityView, max_image_resolution: u32) -> Result<
    ImageMetadataView,
    DatalithImageWriteErrorView,
> {
    if identity.width > u16::MAX || identity.height > u16::MAX {
        Err(DatalithImageWriteErrorView::ResolutionTooBig)
    } else if identity.width * identity.height > max_image_resolution {
        Err(DatalithImageWriteErrorView::ResolutionTooBig)
    } else {
        match mime_parse(image_mime_text(identity.format)) {
            Some((text, essence, subtype)) => Ok(
                ImageMetadataView {
                    width: identity.width as u16,
                    height: identity.height as u16,
                    file_type: MediaTypeView { text, essence, subtype },
                    has_alpha_channel: identity.has_alpha_channel,
                },
            ),
            None => Err(DatalithImageWriteErrorView::UnsupportedImageType),
        }
    }
}

/// The mathematical value of the result of reading the metadata of an
/// image.
pub open spec fn metadata_result_view(r: Result<ImageMetadata, DatalithImageWriteError>) -> Result<
    ImageMetadataView,
    DatalithImageWriteErrorView,
> {
    match r {
        Ok(m) => Ok(m@),
        Err(e) => Err(e@),
    }
}

/// Checks an image as the codec found it against what the store takes.
pub fn read_image_metadata(identity: &ImageIdentity, max_image_resolution: u32) -> (r: Result<
    ImageMetadata,
    DatalithImageWriteError,
>)
    ensures
        metadata_result_view(r) == image_metadata(identity@, max_image_resolution),
{
    if identity.width > u16::MAX as u32 || identity.height > u16::MAX as u32 {
        return Err(DatalithImageWriteError::ResolutionTooBig);
    }
    let w: u64 = identity.width as u64;
    let h: u64 = identity.height as u64;
    assert(w * h <= 65535 * 65535) by (nonlinear_arith)
        requires
            w <= 65535,
            h <= 65535,
    ;
    let pixels: u64 = w * h;
    if pixels > max_image_resolution as u64 {
        return Err(DatalithImageWriteError::ResolutionTooBig);
    }
    let mut text = "image/".to_owned();
    let lower = to_ascii_lowercase(identity.format.as_str());
    text.append(lower.as_str());
    match MediaType::parse(text.as_str()) {
        Some(file_type) => Ok(
            ImageMetadata {
                width: identity.width as u16,
                height: identity.height as u16,
                file_type,
                has_alpha_channel: identity.has_alpha_channel,
            },
        ),
        None => Err(DatalithImageWriteError::UnsupportedImageType),
    }
}

/// Whether the image at a multiplier fits within the image as it was put.
pub open spec fn multiplier_fits(
    image_width: u16,
    image_height: u16,
    input_width: u16,
    input_height: u16,
    multiplier: int,
) -> bool {
    image_width * multiplier <= input_width && image_height * multiplier <= input_height
}

/// The size of the image at a multiplier, if it fits within the image as it
/// was put.
pub fn thumbnail_size(
    image_width: u16,
    image_height: u16,
    input_width: u16,
    input_height: u16,
    multiplier: u16,
) -> (r: Option<(u16, u16)>)
    ensures
        match r {
            Some((width, height)) => {
                &&& multiplier_fits(
                    image_width,
                    image_height,
                    input_width,
                    input_height,
                    multiplier as int,
                )
                &&& width == image_width * multiplier
                &&& height == image_height * multiplier
            },
            None => !multiplier_fits(
                image_width,
                image_height,
                input_width,
                input_height,
                multiplier as int,
            ),
        },
{
    let w: u32 = image_width as u32;
    let h: u32 = image_height as u32;
    let m: u32 = multiplier as u32;
    assert(w * m <= 65535 * 65535 && h * m <= 65535 * 65535) by (nonlinear_arith)
        requires
            w <= 65535,
            h <= 65535,
            m <= 65535,
    ;
    let width: u32 = w * m;
    let height: u32 = h * m;
    if width > input_width as u32 || height > input_height as u32 {
        None
    } else {
        Some((width as u16, height as u16))
    }
}

/// The number of multipliers at which thumbnails are written: the
/// multipliers from one up to this number fit, and the next does not or is
/// beyond the largest multiplier.
pub open spec fn thumbnail_count(
    image_width: u16,
    image_height: u16,
    input_width: u16,
    input_height: u16,
    max_multiplier: u8,
) -> int
    decreases max_multiplier,
{
    if max_multiplier == 0 {
        0
    } else {
        let below = thumbnail_count(
            image_width,
            image_height,
            input_width,
            input_height,
            (max_multiplier - 1) as u8,
        );
        if below == max_multiplier - 1 && multiplier_fits(
            image_width,
            image_height,
            input_width,
            input_height,
            max_multiplier as int,
        ) {
            max_multiplier as int
        } else {
            below
        }
    }
}

/// The thumbnails at every multiplier up to the count fit within the image
/// as it was put, and the image at the next multiplier does not fit unless
/// the count is the largest multiplier.
pub proof fn lemma_thumbnail_count(
    image_width: u16,
    image_height: u16,
    input_width: u16,
    input_height: u16,
    max_multiplier: u8,
)
    ensures
        ({
            let n = thumbnail_count(
                image_width,
                image_height,
                input_width,
                input_height,
                max_multiplier,
            );
            &&& 0 <= n <= max_multiplier
            &&& forall|k: int|
                1 <= k <= n ==> multiplier_fits(
                    image_width,
                    image_height,
                    input_width,
                    input_height,
                    k,
                )
            &&& n < max_multiplier ==> !multiplier_fits(
                image_width,
                image_height,
                input_width,
                input_height,
                n + 1,
            )
        }),
    decreases max_multiplier,
{
    if max_multiplier > 0 {
        lemma_thumbnail_count(
            image_width,
            image_height,
            input_width,
            input_height,
            (max_multiplier - 1) as u8,
        );
    }
}

/// Counts the multipliers at which thumbnails are written.
pub fn count_thumbnails(
    image_width: u16,
    image_height: u16,
    input_width: u16,
    input_height: u16,
    max_multiplier: u8,
) -> (n: u8)
    ensures
        n == thumbnail_count(image_width, image_height, input_width, input_height, max_multiplier),
{
    let mut n: u8 = 0;
    let mut stopped = false;
    let mut k: u8 = 0;
    while k < max_multiplier
        invariant
            k <= max_multiplier,
            n <= k,
            !stopped ==> n == k,
            stopped ==> n < k,
            n == thumbnail_count(image_width, image_height, input_width, input_height, k),
        decreases max_multiplier - k,
    {
        k = k + 1;
        if !stopped {
            match thumbnail_size(image_width, image_height, input_width, input_height, k as u16) {
                Some(_) => {
                    n = k;
                },
                None => {
                    stopped = true;
                },
            }
        }
    }
    n
}

/// The format of the fallback thumbnails of an image: PNG where the image
/// has an alpha channel, and JPEG where it has none.
pub open spec fn fallback_format_of(has_alpha_channel: bool) -> ImageFormat {
    if has_alpha_channel {
        ImageFormat::Png
    } else {
        ImageFormat::Jpeg
    }
}

/// Chooses the format of the fallback thumbnails of an image.
pub fn fallback_format(has_alpha_channel: bool) -> (r: ImageFormat)
    ensures
        r == fallback_format_of(has_alpha_channel),
{
    if has_alpha_channel {
        ImageFormat::Png
    } else {
        ImageFormat::Jpeg
    }
}

/// The extension of the files of a format.
pub open spec fn format_extension(format: ImageFormat) -> Seq<char> {
    match format {
        ImageFormat::Webp => "webp"@,
        ImageFormat::Png => "png"@,
        ImageFormat::Jpeg => "jpg"@,
    }
}

/// The media type of the files of a format.
pub open spec fn format_media_type(format: ImageFormat) -> MediaTypeView {
    match format {
        ImageFormat::Webp => crate::media_type::mime_webp(),
        ImageFormat::Png => crate::media_type::mime_png(),
        ImageFormat::Jpeg => crate::media_type::mime_jpeg(),
    }
}

/// The media type of the files of a format.
pub fn media_type_of_format(format: ImageFormat) -> (r: MediaType)
    ensures
        r@ == format_media_type(format),
{
    match format {
        ImageFormat::Webp => MediaType::webp(),
        ImageFormat::Png => MediaType::png(),
        ImageFormat::Jpeg => MediaType::jpeg(),
    }
}

/// The name of a thumbnail: the stem, `@` before the multiplier of a WebP
/// thumbnail and `_` before that of a fallback thumbnail, `x`, a dot, and the
/// extension of the format.
pub open spec fn thumbnail_name(stem: Seq<char>, multiplier: u16, format: ImageFormat) -> Seq<char> {
    let mark = if format == ImageFormat::Webp {
        '@'
    } else {
        '_'
    };
    stem + seq![mark] + decimal(multiplier as int) + seq!['x', '.'] + format_extension(format)
}

/// Names a thumbnail.
pub fn get_thumbnail_name(stem: &str, multiplier: u16, format: ImageFormat) -> (r: String)
    ensures
        r@ == thumbnail_name(stem@, multiplier, format),
{
    let mut name = stem.to_owned();
    let mark = match format {
        ImageFormat::Webp => '@',
        _ => '_',
    };
    push_char(&mut name, mark);
    let digits = decimal_string(multiplier as i64);
    name.append(digits.as_str());
    push_char(&mut name, 'x');
    push_char(&mut name, '.');
    match format {
        ImageFormat::Webp => name.append("webp"),
        ImageFormat::Png => name.append("png"),
        ImageFormat::Jpeg => name.append("jpg"),
    }
    proof {
        assert(name@ =~= thumbnail_name(stem@, multiplier, format));
    }
    name
}

/// Whether a character is a decimal digit.
pub open spec fn is_digit(c: char) -> bool {
    '0' <= c && c <= '9'
}

/// Whether a text is the mark of a multiplier: `@`, one or more digits, and
/// `x`.
pub open spec fn is_multiplier_mark(s: Seq<char>) -> bool {
    &&& s.len() >= 3
    &&& s[0] == '@'
    &&& s.last() == 'x'
    &&& forall|i: int| 1 <= i < s.len() - 1 ==> is_digit(#[trigger] s[i])
}

/// Whether a text ends with the mark of a multiplier that begins at
/// `start`.
pub open spec fn mark_starts_at(s: Seq<char>, start: int) -> bool {
    0 <= start <= s.len() && is_multiplier_mark(s.subrange(start, s.len() as int))
}

/// A stem without the mark of a multiplier at its end, if it has one.
pub open spec fn without_multiplier(s: Seq<char>) -> Seq<char> {
    if exists|start: int| mark_starts_at(s, start) {
        s.subrange(0, choose|start: int| mark_starts_at(s, start))
    } else {
        s
    }
}

/// Strips the mark of a multiplier from the end of a stem.
pub fn strip_multiplier(stem: &str) -> (r: String)
    ensures
        r@ == without_multiplier(stem@),
{
    let n = stem.unicode_len();
    if n >= 3 && stem.get_char(n - 1) == 'x' {
        // Walk back over the digits before the final `x`.
        let mut i: usize = n - 1;
        while i > 0 && is_digit_char(stem.get_char(i - 1))
            invariant
                i <= n - 1,
                n == stem@.len(),
                stem@[n - 1] == 'x',
                forall|j: int| i <= j < n - 1 ==> is_digit(#[trigger] stem@[j]),
            decreases i,
        {
            i = i - 1;
        }
        if i > 0 && i < n - 1 && stem.get_char(i - 1) == '@' {
            let start = i - 1;
            proof {
                let mark = stem@.subrange(start as int, n as int);
                assert(mark[0] == '@');
                assert(mark.last() == 'x');
                assert forall|j: int| 1 <= j < mark.len() - 1 implies is_digit(
                    #[trigger] mark[j],
                ) by {
                    assert(mark[j] == stem@[start + j]);
                }
                assert(mark_starts_at(stem@, start as int));
                lemma_mark_is_unique(stem@, start as int);
            }
            return stem.substring_char(0, start).to_owned();
        }
        proof {
            assert forall|start: int| !mark_starts_at(stem@, start) by {
                if mark_starts_at(stem@, start) {
                    let mark = stem@.subrange(start, n as int);
                    assert(mark[0] == stem@[start]);
                    assert(stem@[start] == '@');
                    // Every character between the mark's `@` and the final `x` is a digit.
                    assert forall|j: int| start < j < n - 1 implies is_digit(stem@[j]) by {
                        assert(mark[j - start] == stem@[j]);
                    }
                    if start < i - 1 {
                        assert(is_digit(stem@[i - 1]));
                    } else if start >= i {
                        assert(is_digit(stem@[start]));
                    }
                }
            }
        }
    } else {
        proof {
            assert forall|start: int| !mark_starts_at(stem@, start) by {
                if mark_starts_at(stem@, start) {
                    let mark = stem@.subrange(start, n as int);
                    assert(mark.last() == stem@[n - 1]);
                }
            }
        }
    }
    stem.to_owned()
}

fn is_digit_char(c: char) -> (r: bool)
    ensures
        r == is_digit(c),
{
    '0' <= c && c <= '9'
}

proof fn lemma_mark_is_unique(s: Seq<char>, start: int)
    requires
        mark_starts_at(s, start),
    ensures
        forall|other: int| mark_starts_at(s, other) ==> other == start,
{
    assert forall|other: int| mark_starts_at(s, other) implies other == start by {
        let a = s.subrange(start, s.len() as int);
        let b = s.subrange(other, s.len() as int);
        assert(a[0] == s[start]);
        assert(b[0] == s[other]);
        if other < start {
            assert(b[start - other] == s[start]);
            assert(is_digit(b[start - other]));
        } else if start < other {
            assert(a[other - start] == s[other]);
            assert(is_digit(a[other - start]));
        }
    }
}

/// The stem of a file name: what `std::path::Path::file_stem` finds, and
/// the empty text where it finds none.
pub open spec fn stem_of(name: Seq<char>) -> Seq<char> {
    match path_file_stem(name) {
        Some(stem) => stem,
        None => Seq::empty(),
    }
}

/// The stem of a file name, empty where the name has none.
pub fn get_stem(name: &str) -> (r: String)
    ensures
        r@ == stem_of(name@),
{
    match file_stem(name) {
        Some(stem) => stem,
        None => String::new(),
    }
}

/// The stem of an image: the stem of its file name, trimmed, and, where that
/// is empty, the stem of the name of its first thumbnail without the mark of
/// the multiplier.
pub open spec fn image_stem_of(file_stem: Seq<char>, first_thumbnail: Option<Seq<char>>) -> Seq<char> {
    if trimmed(file_stem).len() > 0 {
        trimmed(file_stem)
    } else {
        match first_thumbnail {
            Some(name) => without_multiplier(stem_of(name)),
            None => Seq::empty(),
        }
    }
}

/// Derives the stem of an image.
pub fn get_image_stem(file_stem: &str, first_thumbnail: Option<&String>) -> (r: String)
    ensures
        r@ == image_stem_of(
            file_stem@,
            match first_thumbnail {
                Some(name) => Some(name@),
                None => None,
            },
        ),
{
    let mut stem = file_stem.to_owned();
    trim_in_place(&mut stem);
    if stem.as_str().unicode_len() > 0 {
        stem
    } else {
        match first_thumbnail {
            Some(name) => {
                let thumbnail_stem = get_stem(name.as_str());
                strip_multiplier(thumbnail_stem.as_str())
            },
            None => String::new(),
        }
    }
}

/// The links of an image to its thumbnails: for each multiplier, from one,
/// the link to the WebP thumbnail and then the link to the fallback.
pub open spec fn thumbnail_links(
    image_id: u128,
    thumbnails: Seq<DatalithFileView>,
    fallback_thumbnails: Seq<DatalithFileView>,
) -> Seq<ThumbnailLink> {
    let pairs = if thumbnails.len() <= fallback_thumbnails.len() {
        thumbnails.len()
    } else {
        fallback_thumbnails.len()
    };
    Seq::new(
        2 * pairs,
        |j: int|
            ThumbnailLink {
                image_id,
                multiplier: if j / 2 + 1 > u32::MAX {
                    u32::MAX
                } else {
                    (j / 2 + 1) as u32
                },
                fallback: j % 2 == 1,
                file_id: if j % 2 == 1 {
                    fallback_thumbnails[j / 2].id
                } else {
                    thumbnails[j / 2].id
                },
            },
    )
}

/// Makes the links of an image to its thumbnails.
pub fn get_thumbnail_links(
    image_id: u128,
    thumbnails: &Vec<DatalithFile>,
    fallback_thumbnails: &Vec<DatalithFile>,
) -> (links: Vec<ThumbnailLink>)
    ensures
        links@ == thumbnail_links(
            image_id,
            files_view(thumbnails@),
            files_view(fallback_thumbnails@),
        ),
{
    let pairs = if thumbnails.len() <= fallback_thumbnails.len() {
        thumbnails.len()
    } else {
        fallback_thumbnails.len()
    };
    let mut links: Vec<ThumbnailLink> = Vec::new();
    let mut i: usize = 0;
    while i < pairs
        invariant
            i <= pairs,
            pairs <= thumbnails.len(),
            pairs <= fallback_thumbnails.len(),
            links@.len() == 2 * i,
            forall|j: int|
                0 <= j < 2 * i ==> #[trigger] links@[j] == thumbnail_links(
                    image_id,
                    files_view(thumbnails@),
                    files_view(fallback_thumbnails@),
                )[j],
        decreases pairs - i,
    {
        let multiplier: u32 = if i >= u32::MAX as usize {
            u32::MAX
        } else {
            (i + 1) as u32
        };
        links.push(
            ThumbnailLink { image_id, multiplier, fallback: false, file_id: thumbnails[i].id() },
        );
        links.push(
            ThumbnailLink {
                image_id,
                multiplier,
                fallback: true,
                file_id: fallback_thumbnails[i].id(),
            },
        );
        i = i + 1;
    }
    proof {
        assert(links@ =~= thumbnail_links(
            image_id,
            files_view(thumbnails@),
            files_view(fallback_thumbnails@),
        ));
    }
    links
}

} // verus!
