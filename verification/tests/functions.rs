//! What the store works out without asking anything.

use datalith::cli::parse_duration_sec;
use datalith::cli::seconds_to_millis;
use datalith::datalith::initial_with_migration;
use datalith::datalith::Datalith;
use datalith::datalith::Opened;
use datalith::datalith_errors::DatalithCreateError;
use datalith::datalith_errors::DatalithReadError;
use datalith::datalith_errors::DatalithWriteError;
use datalith::datalith_errors::IoErrorKind;
use datalith::datalith_errors::SqlErrorKind;
use datalith::functions::allow_not_found_error;
use datalith::functions::calculate_buffer_size;
use datalith::functions::get_current_timestamp;
use datalith::functions::get_file_name;
use datalith::functions::get_hash_by_buffer;
use datalith::functions::timestamp_of;
use datalith::functions::get_image_extension;
use datalith::functions::get_mime_extension;
use datalith::functions::get_random_hash;
use datalith::functions::handle_file_type;
use datalith::functions::needs_detection;
use datalith::functions::new_id;
use datalith::guard::GuardRegistry;
use datalith::guard::GuardRequest;
use datalith::guard::TemporaryFileGuard;
use datalith::image::count_thumbnails;
use datalith::image::get_image_stem;
use datalith::image::get_thumbnail_name;
use datalith::image::read_image_metadata;
use datalith::image::strip_multiplier;
use datalith::image::thumbnail_size;
use datalith::image_ops::distinct_ids;
use datalith::ingest::Ingest;
use datalith::ingest::IngestEvent;
use datalith::ingest::IngestStep;
use datalith::listing::ListIds;
use datalith::listing::DatalithFileOrderBy;
use datalith::listing::DatalithImageOrderBy;
use datalith::listing::DatalithResourceOrderBy;
use datalith::listing::PaginationOptions;
use datalith::manager::DatalithManager;
use datalith::manager::Schedule;
use datalith::manager::Sweep;
use datalith::manager::SweepReport;
use datalith::media_type::FileTypeLevel;
use datalith::media_type::MediaType;
use datalith::operation::Operation;
use datalith::put_file::get_expired_timestamp;
use datalith::step::ImageFormat;
use datalith::step::ImageIdentity;
use datalith::step::ListOrder;
use datalith::step::Reply;
use datalith::step::Statement;
use datalith::step::Step;
use datalith::text::decimal_string;
use datalith::text::parse_unsigned;

fn media_type(text: &str) -> MediaType {
    MediaType::from_text(text).unwrap()
}

fn hex(bytes: &[u8]) -> String {
    let mut s = String::new();
    for b in bytes {
        s.push_str(&format!("{b:02x}"));
    }
    s
}

#[test]
fn buffer_size_is_clamped() {
    assert_eq!(calculate_buffer_size(0), 64);
    assert_eq!(calculate_buffer_size(63), 64);
    assert_eq!(calculate_buffer_size(64), 64);
    assert_eq!(calculate_buffer_size(11_658), 11_658);
    assert_eq!(calculate_buffer_size(65_536), 65_536);
    assert_eq!(calculate_buffer_size(65_537), 65_536);
    assert_eq!(calculate_buffer_size(u64::MAX), 65_536);
}

#[test]
fn not_found_counts_as_removed() {
    assert_eq!(allow_not_found_error(Ok(())), Ok(()));
    assert_eq!(allow_not_found_error(Err(IoErrorKind::NotFound)), Ok(()));
    assert_eq!(allow_not_found_error(Err(IoErrorKind::Other)), Err(IoErrorKind::Other));
    assert_eq!(allow_not_found_error(Err(IoErrorKind::WouldBlock)), Err(IoErrorKind::WouldBlock));
}

#[test]
fn a_reading_of_the_clock_becomes_a_timestamp_from_the_epoch_on() {
    assert_eq!(timestamp_of(Some(1_700_000_000_123)), 1_700_000_000_123);
    assert_eq!(timestamp_of(Some(0)), 0);
    assert_eq!(timestamp_of(None), 0);
    assert_eq!(timestamp_of(Some(i64::MAX as u128)), i64::MAX);
    assert_eq!(timestamp_of(Some(i64::MAX as u128 + 1)), i64::MAX);
    assert_eq!(timestamp_of(Some(u128::MAX)), i64::MAX);
    let first = get_current_timestamp();
    let second = get_current_timestamp();
    assert!(first >= 0);
    // The clock of the machine that runs this is set after the year 2001.
    assert!(first > 1_000_000_000_000);
    assert!(second >= first - 60_000);
}

#[test]
fn the_hash_of_a_buffer_is_its_sha256_digest() {
    assert_eq!(
        hex(&get_hash_by_buffer(b"Hello world!")),
        "c0535e4be2b79ffd93291305436bf889314e4a3faec05ecffcbb7df31ad9e51a"
    );
    assert_eq!(
        hex(&get_hash_by_buffer(b"")),
        "e3b0c44298fc1c149afbf4c8996fb92427ae41e4649b934ca495991b7852b855"
    );
}

#[test]
fn identifiers_and_random_hashes_differ_from_call_to_call() {
    let a = new_id();
    let b = new_id();
    assert_ne!(a, b);
    // The version is four and the variant is that of RFC 4122.
    assert_eq!((a >> 76) & 0xf, 4);
    assert_eq!((a >> 62) & 0x3, 2);
    assert_ne!(get_random_hash(), get_random_hash());
    assert!(get_current_timestamp() > 1_600_000_000_000);
}

#[test]
fn decimal_rendering() {
    assert_eq!(decimal_string(0), "0");
    assert_eq!(decimal_string(7), "7");
    assert_eq!(decimal_string(1_700_000_000_123), "1700000000123");
    assert_eq!(decimal_string(-45), "-45");
    assert_eq!(decimal_string(i64::MIN), "-9223372036854775808");
    assert_eq!(decimal_string(i64::MAX), "9223372036854775807");
}

#[test]
fn decimal_parsing() {
    assert_eq!(parse_unsigned("0", 255), Some(0));
    assert_eq!(parse_unsigned("255", 255), Some(255));
    assert_eq!(parse_unsigned("256", 255), None);
    assert_eq!(parse_unsigned("+12", 255), Some(12));
    assert_eq!(parse_unsigned("007", 255), Some(7));
    assert_eq!(parse_unsigned("", 255), None);
    assert_eq!(parse_unsigned("+", 255), None);
    assert_eq!(parse_unsigned("-1", 255), None);
    assert_eq!(parse_unsigned("1 ", 255), None);
    assert_eq!(parse_unsigned("18446744073709551615", u64::MAX), Some(u64::MAX));
    assert_eq!(parse_unsigned("18446744073709551616", u64::MAX), None);
    assert_eq!(parse_unsigned("99999999999999999999999", u64::MAX), None);
}

#[test]
fn media_types_are_read_by_the_mime_crate() {
    let t = media_type("IMAGE/PNG");
    assert_eq!(t.text, "image/png");
    assert_eq!(t.essence, "image/png");
    assert_eq!(t.subtype, "png");
    let t = media_type("text/plain; charset=utf-8");
    assert_eq!(t.essence, "text/plain");
    assert_eq!(t.subtype, "plain");
    assert_eq!(t.text, "text/plain; charset=utf-8");
    let t = media_type("image/svg+xml");
    assert_eq!(t.subtype, "svg");
    assert!(MediaType::from_text("no media type").is_none());
    assert!(MediaType::from_text("").is_none());
    assert!(media_type("image/png").same_as(&media_type("IMAGE/PNG")));
    assert!(!media_type("image/png").same_as(&media_type("image/jpeg")));
    assert!(!media_type("text/plain").same_as(&media_type("text/plain; charset=utf-8")));
    assert_eq!(MediaType::octet_stream().essence, "application/octet-stream");
    assert_eq!(MediaType::from_file_name("a.PNG").unwrap().essence, "image/png");
    assert_eq!(
        MediaType::from_file_name("a.unknown-extension").unwrap().essence,
        "application/octet-stream"
    );
    assert!(MediaType::from_file_name("name").is_none());
}

#[test]
fn extensions_of_media_types() {
    assert_eq!(get_mime_extension(&media_type("image/jpeg")), Some("jpg".to_string()));
    assert_eq!(get_mime_extension(&media_type("image/png")), Some("png".to_string()));
    assert_eq!(get_mime_extension(&media_type("image/gif")), Some("gif".to_string()));
    assert_eq!(get_mime_extension(&media_type("image/bmp")), Some("bmp".to_string()));
    assert_eq!(get_mime_extension(&media_type("image/svg+xml")), Some("svg".to_string()));
    assert_eq!(get_mime_extension(&media_type("image/webp")), Some("webp".to_string()));
    assert_eq!(get_mime_extension(&media_type("image/heic")), Some("heic".to_string()));
    assert_eq!(
        get_mime_extension(&media_type("application/octet-stream")),
        Some("bin".to_string())
    );
    // Beyond the table, the first extension that the registry lists.
    assert_eq!(get_mime_extension(&media_type("application/pdf")), Some("pdf".to_string()));
    assert_eq!(get_mime_extension(&media_type("application/x-no-such-type")), None);

    assert_eq!(get_image_extension(&media_type("image/jpeg")), Some("jpg".to_string()));
    assert_eq!(get_image_extension(&media_type("image/png")), Some("png".to_string()));
    assert_eq!(get_image_extension(&media_type("image/webp")), Some("webp".to_string()));
    assert_eq!(get_image_extension(&media_type("image/gif")), None);
}

#[test]
fn file_name_derivation() {
    let png = media_type("image/png");
    let unknown = media_type("application/x-no-such-type");
    // Empty trimmed name: the time in milliseconds, with the extension where
    // one is known.
    assert_eq!(get_file_name(None, 1_700_000_000_123, &png), "1700000000123.png");
    assert_eq!(get_file_name(Some("".to_string()), 1_700_000_000_123, &png), "1700000000123.png");
    assert_eq!(
        get_file_name(Some(" \t\n ".to_string()), 1_700_000_000_123, &png),
        "1700000000123.png"
    );
    assert_eq!(get_file_name(None, 1_700_000_000_123, &unknown), "1700000000123");
    assert_eq!(get_file_name(None, -5, &unknown), "-5");
    // A name without an extension gets that of the media type.
    assert_eq!(get_file_name(Some("MagicLen".to_string()), 0, &png), "MagicLen.png");
    assert_eq!(get_file_name(Some("  MagicLen  ".to_string()), 0, &png), "MagicLen.png");
    assert_eq!(get_file_name(Some("MagicLen".to_string()), 0, &unknown), "MagicLen");
    assert_eq!(
        get_file_name(Some("MagicLen".to_string()), 0, &MediaType::octet_stream()),
        "MagicLen.bin"
    );
    // A name with an extension is kept.
    assert_eq!(get_file_name(Some("image.jpeg".to_string()), 0, &png), "image.jpeg");
    assert_eq!(get_file_name(Some(" plain.txt\u{3000}".to_string()), 0, &png), "plain.txt");
    // A name that begins with a dot has no extension.
    assert_eq!(get_file_name(Some(".hidden".to_string()), 0, &png), ".hidden.png");
}

#[test]
fn file_type_resolution() {
    let png = || media_type("image/png");
    let jpeg = || media_type("image/jpeg");
    let essence = |r: Result<MediaType, DatalithWriteError>| r.unwrap().essence;

    assert_eq!(essence(handle_file_type(None, None)), "application/octet-stream");
    assert_eq!(essence(handle_file_type(None, Some(png()))), "image/png");
    for level in [FileTypeLevel::Manual, FileTypeLevel::ExactMatch, FileTypeLevel::Fallback] {
        assert_eq!(essence(handle_file_type(Some((jpeg(), level)), None)), "image/jpeg");
    }
    assert_eq!(
        essence(handle_file_type(Some((jpeg(), FileTypeLevel::Manual)), Some(png()))),
        "image/jpeg"
    );
    assert_eq!(
        essence(handle_file_type(Some((jpeg(), FileTypeLevel::Fallback)), Some(png()))),
        "image/png"
    );
    assert_eq!(
        essence(handle_file_type(Some((png(), FileTypeLevel::ExactMatch)), Some(png()))),
        "image/png"
    );
    match handle_file_type(Some((jpeg(), FileTypeLevel::ExactMatch)), Some(png())) {
        Err(DatalithWriteError::FileTypeInvalid { file_type, expected_file_type }) => {
            assert_eq!(file_type.essence, "image/png");
            assert_eq!(expected_file_type.essence, "image/jpeg");
        },
        other => panic!("{other:?}"),
    }
    assert!(!needs_detection(&Some((png(), FileTypeLevel::Manual))));
    assert!(needs_detection(&Some((png(), FileTypeLevel::ExactMatch))));
    assert!(needs_detection(&Some((png(), FileTypeLevel::Fallback))));
    assert!(needs_detection(&None));
}

#[test]
fn expiry_of_a_temporary_file() {
    assert_eq!(get_expired_timestamp(1_000, 60_000), 61_000);
    assert_eq!(get_expired_timestamp(-500, 100), -400);
    assert_eq!(get_expired_timestamp(i64::MAX - 5, 100), i64::MAX);
    assert_eq!(get_expired_timestamp(-10, u64::MAX), i64::MAX);
    assert_eq!(get_expired_timestamp(i64::MIN, 1 << 63), 0);
}

#[test]
fn settings_are_clamped() {
    let mut settings = Datalith::new("env".to_string(), Opened { version: 1, create_time: 5 });
    assert_eq!(settings.get_environment(), "env");
    assert_eq!(settings.get_file_read_buffer_size(), 64 * 1024);
    assert_eq!(settings.get_temporary_file_lifespan(), 60_000);
    assert_eq!(settings.get_max_image_resolution(), 50_000_000);
    assert_eq!(settings.get_max_image_resolution_multiplier(), 3);

    settings.set_file_read_buffer_size(0);
    assert_eq!(settings.get_file_read_buffer_size(), 512 * 1024);
    settings.set_file_read_buffer_size(1024 * 1024);
    assert_eq!(settings.get_file_read_buffer_size(), 1024 * 1024);
    settings.set_file_read_buffer_size(usize::MAX);
    assert_eq!(settings.get_file_read_buffer_size(), 64 * 1024 * 1024);

    settings.set_temporary_file_lifespan(1);
    assert_eq!(settings.get_temporary_file_lifespan(), 100);
    settings.set_temporary_file_lifespan(2_000);
    assert_eq!(settings.get_temporary_file_lifespan(), 2_000);
    settings.set_temporary_file_lifespan(u64::MAX);
    assert_eq!(settings.get_temporary_file_lifespan(), 10_000 * 60 * 60 * 1_000);

    settings.set_max_image_resolution(0);
    assert_eq!(settings.get_max_image_resolution(), 1);
    settings.set_max_image_resolution(7);
    assert_eq!(settings.get_max_image_resolution(), 7);
    settings.set_max_image_resolution_multiplier(0);
    assert_eq!(settings.get_max_image_resolution_multiplier(), 1);
    settings.set_max_image_resolution_multiplier(5);
    assert_eq!(settings.get_max_image_resolution_multiplier(), 5);
}

#[test]
fn schema_version_boundary() {
    assert_eq!(initial_with_migration(1, 1), Ok(()));
    assert_eq!(
        initial_with_migration(1, 2),
        Err(DatalithCreateError::DatabaseTooNewError { app_db_version: 1, current_db_version: 2 })
    );
    assert_eq!(
        initial_with_migration(1, 0),
        Err(DatalithCreateError::DatabaseTooOldError { app_db_version: 1, current_db_version: 0 })
    );
    assert_eq!(initial_with_migration(2, 1), Ok(()));
    assert_eq!(
        initial_with_migration(3, 1),
        Err(DatalithCreateError::DatabaseTooOldError { app_db_version: 3, current_db_version: 1 })
    );
    assert_eq!(
        initial_with_migration(0, u32::MAX),
        Err(DatalithCreateError::DatabaseTooNewError {
            app_db_version: 0,
            current_db_version: u32::MAX
        })
    );
}

#[test]
fn guard_registry() {
    let mut registry = GuardRegistry::new();
    let hash = [7u8; 32];
    let other = [8u8; 32];
    assert!(registry.perform(&GuardRequest::AcquirePut(hash)));
    assert!(!registry.perform(&GuardRequest::AcquirePut(hash)));
    assert!(registry.perform(&GuardRequest::AcquirePut(other)));
    assert!(registry.perform(&GuardRequest::ReleasePut(hash)));
    assert!(registry.perform(&GuardRequest::AcquirePut(hash)));

    assert!(!registry.perform(&GuardRequest::IsOpening(1)));
    assert!(registry.perform(&GuardRequest::AcquireOpen(1)));
    assert!(registry.perform(&GuardRequest::AcquireOpen(1)));
    assert!(registry.is_opening(1));
    registry.perform(&GuardRequest::ReleaseOpen(1));
    assert!(registry.perform(&GuardRequest::IsOpening(1)));
    registry.perform(&GuardRequest::ReleaseOpen(1));
    assert!(!registry.perform(&GuardRequest::IsOpening(1)));
    // Releasing what is not held changes nothing.
    registry.perform(&GuardRequest::ReleaseOpen(1));
    assert!(!registry.is_opening(1));

    assert!(registry.perform(&GuardRequest::AcquireDelete(2)));
    assert!(registry.perform(&GuardRequest::IsDeleting(2)));
    assert!(!registry.perform(&GuardRequest::AcquireDelete(2)));
    // All or nothing: 2 is being deleted, so 3 is not entered either.
    assert!(!registry.perform(&GuardRequest::AcquireDeleteAll(vec![3, 2])));
    assert!(!registry.perform(&GuardRequest::IsDeleting(3)));
    registry.perform(&GuardRequest::ReleaseDelete(2));
    assert!(registry.perform(&GuardRequest::AcquireDeleteAll(vec![3, 2])));
    assert!(registry.perform(&GuardRequest::IsDeleting(3)));
    assert!(registry.perform(&GuardRequest::IsDeleting(2)));
    registry.perform(&GuardRequest::ReleaseDeleteAll(vec![2]));
    assert!(!registry.perform(&GuardRequest::IsDeleting(2)));
    assert!(registry.perform(&GuardRequest::IsDeleting(3)));
}

#[test]
fn temporary_file_guard() {
    let guard = TemporaryFileGuard::new("/tmp/staged".to_string());
    assert_eq!(guard.release(), Some("/tmp/staged".to_string()));
    let mut guard = TemporaryFileGuard::new("/tmp/staged".to_string());
    guard.set_moved();
    assert_eq!(guard.release(), None);
}

fn feed(intake: (Ingest, IngestStep), events: Vec<IngestEvent<'_>>) -> (Vec<String>, IngestStep) {
    let (mut state, mut step) = intake;
    let mut steps = vec![format!("{step:?}")];
    for event in events {
        let next = state.resume(event);
        state = next.0;
        step = next.1;
        steps.push(format!("{step:?}"));
    }
    (steps, step)
}

#[test]
fn an_intake_counts_and_hashes_what_it_reads() {
    let (steps, last) = feed(
        Ingest::begin(Some(12), true, true),
        vec![
            IngestEvent::Done,
            IngestEvent::Chunk(b"Hello "),
            IngestEvent::Done,
            IngestEvent::Failed(IoErrorKind::Interrupted),
            IngestEvent::Chunk(b"world!"),
            IngestEvent::Done,
            IngestEvent::End,
        ],
    );
    assert_eq!(steps[0], "Create");
    assert_eq!(steps[1], "Read { buffer_size: 64 }");
    assert_eq!(steps[2], "Write");
    assert_eq!(steps[3], "Read { buffer_size: 64 }");
    assert_eq!(steps[4], "Read { buffer_size: 64 }");
    assert_eq!(steps[5], "Write");
    match last {
        IngestStep::Finish(Ok(report)) => {
            assert_eq!(report.file_size, 12);
            assert_eq!(
                hex(&report.hash.unwrap()),
                "c0535e4be2b79ffd93291305436bf889314e4a3faec05ecffcbb7df31ad9e51a"
            );
        },
        other => panic!("{other:?}"),
    }

    // Without a digest, and without a staged file.
    let (steps, last) = feed(
        Ingest::begin(None, false, false),
        vec![IngestEvent::Chunk(b"abc"), IngestEvent::Chunk(b"de"), IngestEvent::End],
    );
    assert_eq!(steps[0], "Read { buffer_size: 65536 }");
    assert_eq!(steps[1], "Read { buffer_size: 65536 }");
    match last {
        IngestStep::Finish(Ok(report)) => {
            assert_eq!(report.file_size, 5);
            assert!(report.hash.is_none());
        },
        other => panic!("{other:?}"),
    }
}

#[test]
fn an_intake_refuses_a_payload_longer_than_expected() {
    let (steps, last) = feed(
        Ingest::begin(Some(4), true, true),
        vec![
            IngestEvent::Done,
            IngestEvent::Chunk(b"abc"),
            IngestEvent::Done,
            IngestEvent::Chunk(b"def"),
            IngestEvent::Done,
            IngestEvent::Done,
            IngestEvent::Chunk(b"ghij"),
            IngestEvent::End,
        ],
    );
    // The staged file is removed as soon as the payload is too long, and the
    // rest of the payload is read only to count it.
    assert_eq!(steps[5], "Remove");
    assert_eq!(steps[6], "Read { buffer_size: 64 }");
    assert_eq!(steps[7], "Read { buffer_size: 64 }");
    match last {
        IngestStep::Finish(Err(DatalithWriteError::FileLengthTooLarge {
            expected_file_length,
            actual_file_length,
        })) => {
            assert_eq!(expected_file_length, 4);
            assert_eq!(actual_file_length, 10);
        },
        other => panic!("{other:?}"),
    }
}

#[test]
fn an_intake_tries_an_interrupted_read_five_times() {
    let interrupted = || IngestEvent::Failed(IoErrorKind::Interrupted);
    let (_, last) = feed(
        Ingest::begin(None, false, true),
        vec![
            IngestEvent::Done,
            interrupted(),
            interrupted(),
            interrupted(),
            interrupted(),
            interrupted(),
        ],
    );
    assert!(matches!(last, IngestStep::Read { .. }));
    let (_, last) = feed(
        Ingest::begin(None, false, true),
        vec![
            IngestEvent::Done,
            interrupted(),
            interrupted(),
            interrupted(),
            interrupted(),
            interrupted(),
            interrupted(),
        ],
    );
    assert!(matches!(
        last,
        IngestStep::Finish(Err(DatalithWriteError::IOError(IoErrorKind::Interrupted)))
    ));
    // A read that fails for another reason removes the staged file.
    let (steps, last) = feed(
        Ingest::begin(None, false, true),
        vec![IngestEvent::Done, IngestEvent::Failed(IoErrorKind::Other), IngestEvent::Done],
    );
    assert_eq!(steps[2], "Remove");
    assert!(matches!(
        last,
        IngestStep::Finish(Err(DatalithWriteError::IOError(IoErrorKind::Other)))
    ));
}

#[test]
fn image_metadata_is_checked() {
    let identity = |width, height, format: &str| ImageIdentity {
        width,
        height,
        format: format.to_string(),
        has_alpha_channel: true,
    };
    let metadata = read_image_metadata(&identity(32, 48, "PNG"), 50_000_000).unwrap();
    assert_eq!(metadata.width, 32);
    assert_eq!(metadata.height, 48);
    assert_eq!(metadata.file_type.essence, "image/png");
    assert!(metadata.has_alpha_channel);
    assert!(read_image_metadata(&identity(65_535, 1, "JPEG"), 50_000_000).is_ok());
    assert!(read_image_metadata(&identity(65_536, 1, "JPEG"), 50_000_000).is_err());
    assert!(read_image_metadata(&identity(1, 65_536, "JPEG"), 50_000_000).is_err());
    assert!(read_image_metadata(&identity(10_000, 5_000, "JPEG"), 50_000_000).is_ok());
    assert!(read_image_metadata(&identity(10_000, 5_001, "JPEG"), 50_000_000).is_err());
    assert!(read_image_metadata(&identity(1, 1, "no format"), 50_000_000).is_err());
}

#[test]
fn thumbnails_fit_within_the_image() {
    assert_eq!(thumbnail_size(32, 32, 32, 32, 1), Some((32, 32)));
    assert_eq!(thumbnail_size(32, 32, 32, 32, 2), None);
    assert_eq!(thumbnail_size(32, 16, 64, 64, 2), Some((64, 32)));
    assert_eq!(thumbnail_size(32, 33, 64, 64, 2), None);
    assert_eq!(thumbnail_size(40_000, 1, 65_535, 65_535, 2), None);
    assert_eq!(count_thumbnails(32, 32, 32, 32, 3), 1);
    assert_eq!(count_thumbnails(32, 32, 64, 64, 3), 2);
    assert_eq!(count_thumbnails(32, 32, 96, 96, 3), 3);
    assert_eq!(count_thumbnails(32, 32, 960, 960, 3), 3);
    assert_eq!(count_thumbnails(32, 32, 16, 16, 3), 0);
    assert_eq!(count_thumbnails(32, 32, 64, 64, 0), 0);
}

#[test]
fn thumbnail_names_and_image_stems() {
    assert_eq!(get_thumbnail_name("image", 1, ImageFormat::Webp), "image@1x.webp");
    assert_eq!(get_thumbnail_name("image", 2, ImageFormat::Png), "image_2x.png");
    assert_eq!(get_thumbnail_name("image", 3, ImageFormat::Jpeg), "image_3x.jpg");
    assert_eq!(get_thumbnail_name("", 12, ImageFormat::Webp), "@12x.webp");

    assert_eq!(strip_multiplier("image@2x"), "image");
    assert_eq!(strip_multiplier("image@12x"), "image");
    assert_eq!(strip_multiplier("image"), "image");
    assert_eq!(strip_multiplier("image@x"), "image@x");
    assert_eq!(strip_multiplier("image@2y"), "image@2y");
    assert_eq!(strip_multiplier("a@1x@2x"), "a@1x");
    assert_eq!(strip_multiplier("@3x"), "");
    assert_eq!(strip_multiplier("2x"), "2x");

    assert_eq!(get_image_stem(" my image ", None), "my image");
    let first = "1700000000123@1x.webp".to_string();
    assert_eq!(get_image_stem("  ", Some(&first)), "1700000000123");
    assert_eq!(get_image_stem("", None), "");
}

#[test]
fn distinct_identifiers() {
    assert_eq!(distinct_ids(&vec![3, 1, 3, 2, 1]), vec![3, 1, 2]);
    assert_eq!(distinct_ids(&Vec::new()), Vec::<u128>::new());
}

fn list(total: u64, options: PaginationOptions, rows: Vec<Vec<u128>>) -> (Vec<String>, Step<Result<datalith::listing::Page, DatalithReadError>>) {
    let (mut state, mut step) = ListIds::list_file_ids(options, 50);
    let mut steps = Vec::new();
    let mut rows = rows.into_iter();
    loop {
        let reply = match &step {
            Step::Query(Statement::Begin) | Step::Query(Statement::Rollback) => Reply::Done,
            Step::Query(Statement::CountFiles) => Reply::Count(total),
            Step::Query(Statement::SelectLiveFileIds { now, window }) => {
                steps.push(format!("{now} {} {}", window.limit, window.offset));
                Reply::Ids(rows.next().unwrap())
            },
            _ => return (steps, step),
        };
        let next = state.resume(reply);
        state = next.0;
        step = next.1;
    }
}

#[test]
fn a_listing_beyond_the_last_page_is_brought_back_to_it() {
    let options = PaginationOptions { page: 1, items_per_page: 20, order_by: PaginationOptions::new().order_by };
    let (steps, last) = list(50, options, vec![vec![1, 2, 3]]);
    assert_eq!(steps, vec!["50 20 0"]);
    match last {
        Step::Finish(Ok(page)) => {
            assert_eq!(page.ids, vec![1, 2, 3]);
            assert_eq!(page.pagination.page, 1);
            assert_eq!(page.pagination.total_pages, 3);
            assert_eq!(page.pagination.items_per_page, 20);
            assert_eq!(page.pagination.total_items, 50);
        },
        _ => panic!(),
    }

    let options = PaginationOptions { page: 9, items_per_page: 20, order_by: PaginationOptions::new().order_by };
    let (steps, last) = list(50, options, vec![vec![], vec![41, 42]]);
    assert_eq!(steps, vec!["50 20 160", "50 20 40"]);
    match last {
        Step::Finish(Ok(page)) => {
            assert_eq!(page.ids, vec![41, 42]);
            assert_eq!(page.pagination.page, 3);
            assert_eq!(page.pagination.total_pages, 3);
        },
        _ => panic!(),
    }

    // Once only: an empty last page is the result.
    let (steps, last) = list(50, options, vec![vec![], vec![]]);
    assert_eq!(steps.len(), 2);
    assert!(matches!(last, Step::Finish(Ok(page)) if page.ids.is_empty()));

    // All items on one page.
    let (steps, last) = list(0, PaginationOptions::new(), vec![vec![]]);
    assert_eq!(steps, vec!["50 0 0"]);
    match last {
        Step::Finish(Ok(page)) => {
            assert_eq!(page.pagination.page, 1);
            assert_eq!(page.pagination.total_pages, 1);
        },
        _ => panic!(),
    }
    assert_eq!(
        PaginationOptions::new().order_by,
        ListOrder { id: 102, created_at: -101, expired_at: 0, file_size: 0, file_type: 0, file_name: 0 }
    );
    assert_eq!(
        PaginationOptions { page: usize::MAX, items_per_page: usize::MAX, order_by: options.order_by }
            .window()
            .offset,
        u64::MAX
    );
}

#[test]
fn listings_are_ordered_newest_first_unless_asked_otherwise() {
    let newest_first = PaginationOptions::new().order_by;
    assert_eq!(DatalithFileOrderBy::default().order(), newest_first);
    assert_eq!(DatalithResourceOrderBy::default().order(), newest_first);
    assert_eq!(DatalithImageOrderBy::default().order(), newest_first);
    let by_size = DatalithFileOrderBy { file_size: -1, ..DatalithFileOrderBy::default() };
    assert_eq!(
        by_size.order(),
        ListOrder { id: 102, created_at: -101, expired_at: 0, file_size: -1, file_type: 0, file_name: 0 }
    );
    let manager =
        DatalithManager::new(Datalith::new("env".to_string(), Opened { version: 1, create_time: 0 }));
    assert_eq!(DatalithManager::schedule(), manager.jobs());
}

#[test]
fn a_listing_that_fails_ends_its_transaction() {
    let (state, _) = ListIds::list_resource_ids(PaginationOptions::new());
    let (state, step) = state.resume(Reply::Done);
    assert!(matches!(step, Step::Query(Statement::CountResources)));
    let (state, step) = state.resume(Reply::SqlFailed(SqlErrorKind::Other));
    assert!(matches!(step, Step::Query(Statement::Rollback)));
    let (_, step) = state.resume(Reply::Done);
    assert!(matches!(
        step,
        Step::Finish(Err(DatalithReadError::SQLError(SqlErrorKind::Other)))
    ));
}

#[test]
fn maintenance_jobs() {
    let manager =
        DatalithManager::new(Datalith::new("env".to_string(), Opened { version: 1, create_time: 0 }));
    let jobs = manager.jobs();
    assert_eq!(jobs[0].sweep, Sweep::ExpiredFiles);
    assert_eq!(jobs[0].schedule, Schedule::Every { seconds: 60 });
    assert_eq!(jobs[1].sweep, Sweep::UntrackedFiles);
    assert_eq!(jobs[1].schedule, Schedule::Cron);
    assert_eq!(datalith::manager::UNTRACKED_SWEEP_SCHEDULE, "0 0 */4 * * *");
    assert_eq!(datalith::manager::EXPIRED_SWEEP_TIMEOUT_MS, 3_000);
    assert_eq!(DatalithManager::report(0), SweepReport::Nothing);
    assert_eq!(DatalithManager::report(1), SweepReport::One);
    assert_eq!(DatalithManager::report(5), SweepReport::Several(5));
    assert_eq!(manager.datalith().get_temporary_file_lifespan(), 60_000);
    assert_eq!(manager.close().get_environment(), "env");
}

#[test]
fn command_line_durations() {
    assert_eq!(parse_duration_sec("60"), Some(60));
    assert_eq!(parse_duration_sec("0"), Some(0));
    assert_eq!(parse_duration_sec("one minute"), None);
    assert_eq!(parse_duration_sec("-1"), None);
    assert_eq!(seconds_to_millis(60), 60_000);
    assert_eq!(seconds_to_millis(u64::MAX), u64::MAX);
}
