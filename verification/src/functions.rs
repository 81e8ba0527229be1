//! Hashing, type resolution and file-name derivation.

use vstd::prelude::*;
use sha2::Digest;
use sha2::Sha256;
use rand::TryRngCore;
use crate::datalith_errors::DatalithWriteError;
use crate::datalith_errors::DatalithWriteErrorView;
use crate::datalith_errors::IoErrorKind;
use crate::media_type::default_mime_type;
use crate::media_type::mime_eq;
use crate::media_type::registry_extension;
use crate::media_type::first_registry_extension;
use crate::media_type::FileTypeLevel;
use crate::media_type::MediaType;
use crate::media_type::MediaTypeView;
use crate::text::decimal;
use crate::text::decimal_string;
use crate::text::file_extension;
use crate::text::path_extension;
use crate::text::trim_in_place;
use crate::text::trimmed;

verus! {

/// The 32 bytes by which a payload is recognised.
pub type FileHash = [u8; 32];

/// The largest buffer used when a file is read: 64 KiB.
pub const BUFFER_SIZE: usize = 65536;

/// The SHA-256 digest of a sequence of bytes, as the crate `sha2` computes it.
pub uninterp spec fn sha256(data: Seq<u8>) -> Seq<u8>;

/// The size of the buffer for a payload of an expected length: the length
/// itself, but no less than 64 bytes and no more than `BUFFER_SIZE`.
pub open spec fn buffer_size_for(expected_length: u64) -> int {
    if expected_length < 64 {
        64
    } else if expected_length > BUFFER_SIZE {
        BUFFER_SIZE as int
    } else {
        expected_length as int
    }
}

/// Chooses the size of the read buffer for a payload of an expected length.
pub fn calculate_buffer_size(expected_length: u64) -> (size: usize)
    ensures
        size == buffer_size_for(expected_length),
        64 <= size <= BUFFER_SIZE,
{
    if expected_length < 64 {
        64
    } else if expected_length > BUFFER_SIZE as u64 {
        BUFFER_SIZE
    } else {
        expected_length as usize
    }
}

/// What removing a file system entry came to, where an entry that is already
/// gone counts as removed.
pub open spec fn not_found_allowed(result: Result<(), IoErrorKind>) -> Result<(), IoErrorKind> {
    match result {
        Err(IoErrorKind::NotFound) => Ok(()),
        other => other,
    }
}

/// Turns the failure "not found" into success and keeps every other result.
pub fn allow_not_found_error(result: Result<(), IoErrorKind>) -> (r: Result<(), IoErrorKind>)
    ensures
        r == not_found_allowed(result),
{
    match result {
        Err(IoErrorKind::NotFound) => Ok(()),
        other => other,
    }
}

/// What the clock reads now: the milliseconds that have passed since the
/// Unix epoch, or nothing where the clock is set before the epoch.
///
/// Trusted: wraps `std::time::SystemTime::now`, `duration_since` the epoch
/// and `Duration::as_millis`. Nothing is promised of the reading.
#[verifier::external_body]
fn system_time_millis() -> Option<u128> {
    match std::time::SystemTime::now().duration_since(std::time::UNIX_EPOCH) {
        Ok(passed) => Some(passed.as_millis()),
        Err(_) => None,
    }
}

/// The time now, in milliseconds since the Unix epoch: what the clock
/// reads, as `timestamp_of` takes it. Nothing is known of the reading
/// beforehand; whatever it is, the time does not lie before the epoch.
pub fn get_current_timestamp() -> (r: i64)
    ensures
        r >= 0,
{
    timestamp_of(system_time_millis())
}

/// The timestamp that stands for a reading of the clock: the milliseconds
/// that have passed since the Unix epoch; zero where the clock is set before
/// the epoch, and the largest timestamp where they are more than that.
pub open spec fn timestamp_of_reading(reading: Option<u128>) -> i64 {
    match reading {
        Some(millis) => if millis > i64::MAX {
            i64::MAX
        } else {
            millis as i64
        },
        None => 0,
    }
}

/// Gives the timestamp that stands for a reading of the clock.
pub fn timestamp_of(reading: Option<u128>) -> (r: i64)
    ensures
        r == timestamp_of_reading(reading),
{
    match reading {
        Some(millis) => if millis > i64::MAX as u128 {
            i64::MAX
        } else {
            millis as i64
        },
        None => 0,
    }
}

/// The SHA-256 digest of a buffer.
///
/// Trusted: wraps `sha2::Sha256` (`new`, one `update` with the whole buffer,
/// `finalize`), whose result is the SHA-256 digest of the bytes given.
#[verifier::external_body]
fn sha256_digest(buffer: &[u8]) -> (hash: FileHash)
    ensures
        hash@ == sha256(buffer@),
{
    let mut hasher = Sha256::new();
    hasher.update(buffer);
    hasher.finalize().into()
}

/// The hash of a payload in a buffer: its SHA-256 digest.
pub fn get_hash_by_buffer(buffer: &[u8]) -> (hash: FileHash)
    ensures
        hash@ == sha256(buffer@),
{
    sha256_digest(buffer)
}

/// Thirty-two random bytes, in place of a digest, for a file that must never
/// be taken for another.
///
/// Trusted: wraps `rand::rngs::OsRng::try_fill_bytes`, which fills the array
/// from the operating system's generator. Nothing is promised of the bytes;
/// where the generator fails they are all zero.
#[verifier::external_body]
fn random_bytes() -> FileHash {
    let mut data = [0u8; 32];
    let _ = rand::rngs::OsRng.try_fill_bytes(&mut data);
    data
}

/// The hash of a temporary file: random bytes in place of a digest, so that
/// the file is never taken for another. Nothing is known of them
/// beforehand.
pub fn get_random_hash() -> FileHash {
    random_bytes()
}

/// The bits that mark an identifier as random: the version and the variant.
pub open spec fn is_random_id(id: u128) -> bool {
    id & 0x0000_0000_0000_f000_c000_0000_0000_0000 == 0x0000_0000_0000_4000_8000_0000_0000_0000
}

/// A fresh random 128-bit identifier.
///
/// Trusted: wraps `uuid::Uuid::new_v4`, which takes 128 random bits and sets
/// the version to 4 and the variant to RFC 4122.
#[verifier::external_body]
fn random_uuid() -> (id: u128)
    ensures
        is_random_id(id),
{
    uuid::Uuid::new_v4().as_u128()
}

/// A fresh identifier for a file, a resource or an image: random, and marked
/// as such.
pub fn new_id() -> (id: u128)
    ensures
        is_random_id(id),
{
    random_uuid()
}

fn text_is(s: &String, literal: &str) -> (r: bool)
    ensures
        r == (s@ == literal@),
{
    let other = literal.to_owned();
    *s == other
}

/// The extension for files of a media type: a short table, and beyond it the
/// first extension that the registry lists for the type.
pub open spec fn mime_extension(m: MediaTypeView) -> Option<Seq<char>> {
    if m.subtype == "jpeg"@ {
        Some("jpg"@)
    } else if m.subtype == "gif"@ {
        Some("gif"@)
    } else if m.subtype == "png"@ {
        Some("png"@)
    } else if m.subtype == "bmp"@ {
        Some("bmp"@)
    } else if m.subtype == "svg"@ {
        Some("svg"@)
    } else if m.subtype == "octet-stream"@ {
        Some("bin"@)
    } else if m.essence == "image/webp"@ {
        Some("webp"@)
    } else if m.essence == "image/heic"@ {
        Some("heic"@)
    } else {
        registry_extension(m.text)
    }
}

/// The extension for files of a media type, if one is known.
pub fn get_mime_extension(mime_type: &MediaType) -> (r: Option<String>)
    ensures
        match r {
            Some(e) => mime_extension(mime_type@) == Some(e@),
            None => mime_extension(mime_type@) is None,
        },
{
    if text_is(&mime_type.subtype, "jpeg") {
        Some("jpg".to_owned())
    } else if text_is(&mime_type.subtype, "gif") {
        Some("gif".to_owned())
    } else if text_is(&mime_type.subtype, "png") {
        Some("png".to_owned())
    } else if text_is(&mime_type.subtype, "bmp") {
        Some("bmp".to_owned())
    } else if text_is(&mime_type.subtype, "svg") {
        Some("svg".to_owned())
    } else if text_is(&mime_type.subtype, "octet-stream") {
        Some("bin".to_owned())
    } else if text_is(&mime_type.essence, "image/webp") {
        Some("webp".to_owned())
    } else if text_is(&mime_type.essence, "image/heic") {
        Some("heic".to_owned())
    } else {
        first_registry_extension(mime_type.text.as_str())
    }
}

/// The extension of an image of a media type that the store itself writes.
pub open spec fn image_extension(m: MediaTypeView) -> Option<Seq<char>> {
    if m.subtype == "jpeg"@ {
        Some("jpg"@)
    } else if m.subtype == "png"@ {
        Some("png"@)
    } else if m.essence == "image/webp"@ {
        Some("webp"@)
    } else {
        None
    }
}

/// The extension of an image of a media type: `jpg`, `png` or `webp`, and
/// nothing for any other type.
pub fn get_image_extension(mime_type: &MediaType) -> (r: Option<String>)
    ensures
        match r {
            Some(e) => image_extension(mime_type@) == Some(e@),
            None => image_extension(mime_type@) is None,
        },
{
    if text_is(&mime_type.subtype, "jpeg") {
        Some("jpg".to_owned())
    } else if text_is(&mime_type.subtype, "png") {
        Some("png".to_owned())
    } else if text_is(&mime_type.essence, "image/webp") {
        Some("webp".to_owned())
    } else {
        None
    }
}

/// The mathematical value of a declared media type with its level.
pub open spec fn declared_view(declared: Option<(MediaType, FileTypeLevel)>) -> Option<
    (MediaTypeView, FileTypeLevel),
> {
    match declared {
        Some((t, level)) => Some((t@, level)),
        None => None,
    }
}

/// The mathematical value of a media type that may be absent.
pub open spec fn optional_type_view(t: Option<MediaType>) -> Option<MediaTypeView> {
    match t {
        Some(t) => Some(t@),
        None => None,
    }
}

/// Whether a put with this declaration looks at the payload to detect its
/// type. Only a declaration at level `Manual` does not.
pub open spec fn detection_wanted(declared: Option<(MediaTypeView, FileTypeLevel)>) -> bool {
    !(declared matches Some((_, level)) && level == FileTypeLevel::Manual)
}

/// The media type that a file is stored under, from the declared type, if
/// any, and the detected one, if any.
pub open spec fn resolved_file_type(
    declared: Option<(MediaTypeView, FileTypeLevel)>,
    detected: Option<MediaTypeView>,
) -> Result<MediaTypeView, DatalithWriteErrorView> {
    match declared {
        Some((t, FileTypeLevel::Manual)) => Ok(t),
        Some((t, FileTypeLevel::ExactMatch)) => match detected {
            Some(d) => if mime_eq(t.text, d.text) {
                Ok(t)
            } else {
                Err(
                    DatalithWriteErrorView::FileTypeInvalid {
                        file_type: d,
                        expected_file_type: t,
                    },
                )
            },
            None => Ok(t),
        },
        Some((t, FileTypeLevel::Fallback)) => match detected {
            Some(d) => Ok(d),
            None => Ok(t),
        },
        None => match detected {
            Some(d) => Ok(d),
            None => Ok(default_mime_type()),
        },
    }
}

/// The mathematical value of the result of a type resolution.
pub open spec fn resolution_view(r: Result<MediaType, DatalithWriteError>) -> Result<
    MediaTypeView,
    DatalithWriteErrorView,
> {
    match r {
        Ok(t) => Ok(t@),
        Err(e) => Err(e@),
    }
}

/// Whether the payload is to be looked at to detect its type.
pub fn needs_detection(declared: &Option<(MediaType, FileTypeLevel)>) -> (r: bool)
    ensures
        r == detection_wanted(declared_view(*declared)),
{
    match declared {
        Some((_, FileTypeLevel::Manual)) => false,
        _ => true,
    }
}

/// Resolves the media type of a file that is put. An exact match that fails
/// is the error `FileTypeInvalid`; nothing else fails.
pub fn handle_file_type(
    file_type: Option<(MediaType, FileTypeLevel)>,
    detected_file_type: Option<MediaType>,
) -> (r: Result<MediaType, DatalithWriteError>)
    ensures
        resolution_view(r) == resolved_file_type(
            declared_view(file_type),
            optional_type_view(detected_file_type),
        ),
{
    match file_type {
        Some((file_type, level)) => match level {
            FileTypeLevel::ExactMatch => match detected_file_type {
                Some(detected) => {
                    if file_type.same_as(&detected) {
                        Ok(file_type)
                    } else {
                        Err(
                            DatalithWriteError::FileTypeInvalid {
                                file_type: detected,
                                expected_file_type: file_type,
                            },
                        )
                    }
                },
                None => Ok(file_type),
            },
            FileTypeLevel::Manual => Ok(file_type),
            FileTypeLevel::Fallback => match detected_file_type {
                Some(detected) => Ok(detected),
                None => Ok(file_type),
            },
        },
        None => match detected_file_type {
            Some(detected) => Ok(detected),
            None => Ok(MediaType::octet_stream()),
        },
    }
}

/// The text of a name that may be absent: the empty text where it is.
pub open spec fn optional_text(name: Option<String>) -> Seq<char> {
    match name {
        Some(name) => name@,
        None => Seq::empty(),
    }
}

/// The name under which a file is stored.
///
/// The given name is trimmed. An empty name becomes the creation time in
/// milliseconds, with the extension of the media type where one is known. A
/// name without an extension gets that of the media type where one is known.
pub open spec fn derived_file_name(name: Seq<char>, created_at: i64, mime_type: MediaTypeView) -> Seq<
    char,
> {
    let name = trimmed(name);
    let ext = mime_extension(mime_type);
    if name.len() == 0 {
        match ext {
            Some(ext) => decimal(created_at as int) + seq!['.'] + ext,
            None => decimal(created_at as int),
        }
    } else if path_extension(name) is None && ext is Some {
        name + seq!['.'] + ext.unwrap()
    } else {
        name
    }
}

/// Derives the name under which a file is stored from the name given, the
/// creation time in milliseconds and the media type.
pub fn get_file_name(file_name: Option<String>, created_at: i64, mime_type: &MediaType) -> (r:
    String)
    ensures
        r@ == derived_file_name(optional_text(file_name), created_at, mime_type@),
{
    let mut file_name = match file_name {
        Some(file_name) => file_name,
        None => String::new(),
    };
    proof {
        assert(trimmed(Seq::<char>::empty()) =~= Seq::<char>::empty());
    }
    trim_in_place(&mut file_name);
    let ext = get_mime_extension(mime_type);
    if file_name.as_str().unicode_len() == 0 {
        let mut name = decimal_string(created_at);
        match ext {
            Some(ext) => {
                name.append(".");
                name.append(ext.as_str());
                proof {
                    reveal_strlit(".");
                    assert("."@ =~= seq!['.']);
                }
                name
            },
            None => name,
        }
    } else {
        let has_extension = file_extension(file_name.as_str()).is_some();
        match ext {
            Some(ext) => {
                if !has_extension {
                    file_name.append(".");
                    file_name.append(ext.as_str());
                    proof {
                        reveal_strlit(".");
                        assert("."@ =~= seq!['.']);
                    }
                }
                file_name
            },
            None => file_name,
        }
    }
}

} // verus!
