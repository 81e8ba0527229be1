//! Media types, as far as the store reads them: the text of the type, its
//! essence (`type/subtype`, without parameters) and its subtype.

use vstd::prelude::*;
use std::str::FromStr;
use mime::Mime;

verus! {

/// A media type.
#[derive(Debug)]
pub struct MediaType {
    /// The whole type in its normal form, parameters included.
    pub text: String,
    /// The type without its parameters.
    pub essence: String,
    /// The subtype, without a `+suffix`.
    pub subtype: String,
}

/// The mathematical value of a media type.
pub struct MediaTypeView {
    pub text: Seq<char>,
    pub essence: Seq<char>,
    pub subtype: Seq<char>,
}

impl View for MediaType {
    type V = MediaTypeView;

    open spec fn view(&self) -> MediaTypeView {
        MediaTypeView { text: self.text@, essence: self.essence@, subtype: self.subtype@ }
    }
}

/// How a declared media type is weighed against a detected one when a file
/// is put.
#[derive(Clone, Copy, Debug, PartialEq, Eq, Structural)]
pub enum FileTypeLevel {
    /// The detected type must equal the declared one.
    ExactMatch,
    /// Detection is skipped and the declared type is used as it is.
    Manual,
    /// The detected type is preferred; the declared one is used when
    /// detection finds nothing.
    Fallback,
}

/// What `mime::Mime::from_str` makes of a text: nothing where it is no media
/// type, else the parsed type's own text, its essence and its subtype.
pub uninterp spec fn mime_parse(s: Seq<char>) -> Option<(Seq<char>, Seq<char>, Seq<char>)>;

/// Whether `mime::Mime` holds the media types parsed from two texts equal.
pub uninterp spec fn mime_eq(a: Seq<char>, b: Seq<char>) -> bool;

/// The first file extension that the registry of `mime_guess` lists for the
/// media type parsed from a text.
pub uninterp spec fn registry_extension(text: Seq<char>) -> Option<Seq<char>>;

/// The media type that the registry of `mime_guess` lists first for a file
/// extension, as its text, essence and subtype; `application/octet-stream`
/// where it lists none.
pub uninterp spec fn extension_media_type(ext: Seq<char>) -> (Seq<char>, Seq<char>, Seq<char>);

/// The view of a parsed media type as the three texts it is made of.
pub open spec fn media_type_parts(m: MediaTypeView) -> (Seq<char>, Seq<char>, Seq<char>) {
    (m.text, m.essence, m.subtype)
}

/// Whether the media types that two texts name are equal.
///
/// Trusted: wraps `mime::Mime::from_str` on both texts and the `==` of
/// `mime::Mime` on the results; texts that name no media type are unequal.
#[verifier::external_body]
fn mime_texts_equal(a: &str, b: &str) -> (r: bool)
    ensures
        r == mime_eq(a@, b@),
{
    match (Mime::from_str(a), Mime::from_str(b)) {
        (Ok(a), Ok(b)) => a == b,
        _ => false,
    }
}

/// The first extension known for a media type.
///
/// Trusted: wraps `mime_guess::get_mime_extensions` on the media type parsed
/// from `text` and takes the first entry of the list it returns. The result is
/// a function of the text alone.
#[verifier::external_body]
pub(crate) fn first_registry_extension(text: &str) -> (r: Option<String>)
    ensures
        match r {
            Some(e) => registry_extension(text@) == Some(e@),
            None => registry_extension(text@) is None,
        },
{
    let mime = Mime::from_str(text).ok()?;
    mime_guess::get_mime_extensions(&mime).and_then(|e| e.first()).map(|e| e.to_string())
}

impl MediaType {
    /// Reads a media type from a text.
    ///
    /// Trusted: wraps `mime::Mime::from_str`; the three fields are what
    /// `as_ref`, `essence_str` and `subtype` return of the parsed type.
    #[verifier::external_body]
    pub(crate) fn parse(s: &str) -> (r: Option<MediaType>)
        ensures
            match r {
                Some(m) => mime_parse(s@) == Some(media_type_parts(m@)),
                None => mime_parse(s@) is None,
            },
    {
        Mime::from_str(s).ok().map(
            |m| MediaType {
                text: m.as_ref().to_string(),
                essence: m.essence_str().to_string(),
                subtype: m.subtype().as_str().to_string(),
            },
        )
    }

    /// The media type listed first for a file extension, or
    /// `application/octet-stream` where none is listed.
    ///
    /// Trusted: wraps `mime_guess::from_ext` followed by
    /// `first_or_octet_stream`; the three fields are read from the result as in
    /// `parse`.
    #[verifier::external_body]
    pub(crate) fn from_extension(ext: &str) -> (r: MediaType)
        ensures
            media_type_parts(r@) == extension_media_type(ext@),
    {
        let m = mime_guess::from_ext(ext).first_or_octet_stream();
        MediaType {
            text: m.as_ref().to_string(),
            essence: m.essence_str().to_string(),
            subtype: m.subtype().as_str().to_string(),
        }
    }

    /// Reads a media type from a text, where the text names one.
    pub fn from_text(text: &str) -> (r: Option<MediaType>)
        ensures
            match r {
                Some(m) => mime_parse(text@) == Some(media_type_parts(m@)),
                None => mime_parse(text@) is None,
            },
    {
        MediaType::parse(text)
    }

    /// The media type listed first for the extension of a file name, where
    /// the name has an extension.
    pub fn from_file_name(name: &str) -> (r: Option<MediaType>)
        ensures
            match r {
                Some(m) => crate::text::path_extension(name@) matches Some(ext)
                    && media_type_parts(m@) == extension_media_type(ext),
                None => crate::text::path_extension(name@) is None,
            },
    {
        match crate::text::file_extension(name) {
            Some(ext) => Some(MediaType::from_extension(ext.as_str())),
            None => None,
        }
    }

    /// Whether two media types are equal, as `mime::Mime` compares them.
    pub fn same_as(&self, other: &MediaType) -> (r: bool)
        ensures
            r == mime_eq(self.text@, other.text@),
    {
        mime_texts_equal(self.text.as_str(), other.text.as_str())
    }

    /// A copy of this media type.
    pub fn duplicate(&self) -> (r: MediaType)
        ensures
            r@ == self@,
    {
        MediaType {
            text: self.text.clone(),
            essence: self.essence.clone(),
            subtype: self.subtype.clone(),
        }
    }

    /// The media type of data of no known type: `application/octet-stream`.
    pub fn octet_stream() -> (r: MediaType)
        ensures
            r@ == default_mime_type(),
    {
        MediaType {
            text: "application/octet-stream".to_owned(),
            essence: "application/octet-stream".to_owned(),
            subtype: "octet-stream".to_owned(),
        }
    }

    /// The media type of WebP images.
    pub fn webp() -> (r: MediaType)
        ensures
            r@ == mime_webp(),
    {
        MediaType {
            text: "image/webp".to_owned(),
            essence: "image/webp".to_owned(),
            subtype: "webp".to_owned(),
        }
    }

    /// The media type of PNG images.
    pub fn png() -> (r: MediaType)
        ensures
            r@ == mime_png(),
    {
        MediaType {
            text: "image/png".to_owned(),
            essence: "image/png".to_owned(),
            subtype: "png".to_owned(),
        }
    }

    /// The media type of JPEG images.
    pub fn jpeg() -> (r: MediaType)
        ensures
            r@ == mime_jpeg(),
    {
        MediaType {
            text: "image/jpeg".to_owned(),
            essence: "image/jpeg".to_owned(),
            subtype: "jpeg".to_owned(),
        }
    }
}

/// The default media type.
pub open spec fn default_mime_type() -> MediaTypeView {
    MediaTypeView {
        text: "application/octet-stream"@,
        essence: "application/octet-stream"@,
        subtype: "octet-stream"@,
    }
}

/// `image/webp`.
pub open spec fn mime_webp() -> MediaTypeView {
    MediaTypeView { text: "image/webp"@, essence: "image/webp"@, subtype: "webp"@ }
}

/// `image/png`.
pub open spec fn mime_png() -> MediaTypeView {
    MediaTypeView { text: "image/png"@, essence: "image/png"@, subtype: "png"@ }
}

/// `image/jpeg`.
pub open spec fn mime_jpeg() -> MediaTypeView {
    MediaTypeView { text: "image/jpeg"@, essence: "image/jpeg"@, subtype: "jpeg"@ }
}

} // verus!
