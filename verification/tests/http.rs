//! What the HTTP service decides.

use datalith::datalith_errors::DatalithImageWriteError;
use datalith::datalith_errors::DatalithReadError;
use datalith::datalith_errors::DatalithWriteError;
use datalith::datalith_errors::IoErrorKind;
use datalith::datalith_errors::SqlErrorKind;
use datalith::datalith_file::DatalithFile;
use datalith::datalith_file::FileRow;
use datalith::http::cache_policy;
use datalith::http::delete_status;
use datalith::http::etag_of;
use datalith::http::form_failure_status;
use datalith::http::image_upload_failure_status;
use datalith::http::parse_boolean;
use datalith::http::parse_bound;
use datalith::http::parse_save_original_file;
use datalith::http::plan_stream_upload;
use datalith::http::plan_upload;
use datalith::http::response_headers;
use datalith::http::upload_failure_status;
use datalith::http::validate_content_length;
use datalith::http::CachePolicy;
use datalith::http::ContentLength;
use datalith::http::DatalithResponse;
use datalith::http::EtagIfNoneMatch;
use datalith::http::ResolutionType;
use datalith::http::ResponseData;
use datalith::http::UploadForm;
use datalith::media_type::FileTypeLevel;
use datalith::media_type::MediaType;

fn file(is_temporary: bool, file_size: u64) -> DatalithFile {
    DatalithFile::new(
        FileRow {
            id: 0xabc,
            hash: [0u8; 32],
            created_at: 0,
            file_size,
            file_type: MediaType::from_text("image/png").unwrap(),
            file_name: "image.png".to_string(),
            expired_at: None,
            count: 1,
        },
        is_temporary,
        false,
    )
}

#[test]
fn truth_values() {
    for text in ["y", "Y", "yes", "YES", "t", "true", "True", "1", "on", "ON"] {
        assert_eq!(parse_boolean(text), Some(true), "{text}");
    }
    for text in ["n", "N", "no", "f", "false", "FALSE", "0", "off", "Off"] {
        assert_eq!(parse_boolean(text), Some(false), "{text}");
    }
    for text in ["", "2", "yes ", "ye", "tru", "of", "o", "nope", "01"] {
        assert_eq!(parse_boolean(text), None, "{text}");
    }
}

#[test]
fn resolution_types() {
    assert_eq!(ResolutionType::from_value("original"), Some(ResolutionType::Original));
    assert_eq!(ResolutionType::from_value("ORIGINAL"), Some(ResolutionType::Original));
    assert_eq!(ResolutionType::from_value("1x"), Some(ResolutionType::Multiplier(1)));
    assert_eq!(ResolutionType::from_value("255x"), Some(ResolutionType::Multiplier(255)));
    assert_eq!(ResolutionType::from_value("0x"), Some(ResolutionType::Multiplier(0)));
    assert_eq!(ResolutionType::from_value("256x"), None);
    assert_eq!(ResolutionType::from_value("x"), None);
    assert_eq!(ResolutionType::from_value("2"), None);
    assert_eq!(ResolutionType::from_value("2X"), None);
    assert_eq!(ResolutionType::from_value(""), None);
}

#[test]
fn content_length() {
    assert_eq!(ContentLength::parse("11658"), Some(ContentLength(11_658)));
    assert_eq!(ContentLength::parse("11658").unwrap().to_u64(), 11_658);
    assert_eq!(ContentLength::parse("abc"), None);
    assert_eq!(ContentLength::parse(""), None);
    assert_eq!(ContentLength::default().to_u64(), 0);

    assert_eq!(validate_content_length(100, None), Ok(None));
    assert_eq!(validate_content_length(100, Some(ContentLength(100))), Ok(Some(100)));
    assert_eq!(validate_content_length(100, Some(ContentLength(101))), Err(413));
}

#[test]
fn entity_tags_are_compared_weakly() {
    assert_eq!(etag_of(0xabc), "00000000000000000000000000000abc");
    let header = EtagIfNoneMatch { any: false, etags: vec!["a".to_string(), "b".to_string()] };
    assert!(header.weak_eq(&"a".to_string()));
    assert!(header.weak_eq(&"b".to_string()));
    assert!(!header.weak_eq(&"c".to_string()));
    assert!(!EtagIfNoneMatch { any: false, etags: Vec::new() }.weak_eq(&"a".to_string()));
    assert!(EtagIfNoneMatch { any: true, etags: Vec::new() }.weak_eq(&"a".to_string()));
}

#[test]
fn headers_of_an_answer() {
    let data = ResponseData {
        etag: etag_of(0xabc),
        file: file(false, 11_658),
        download: false,
        file_name: "my image.png".to_string(),
        file_type: MediaType::from_text("image/png").unwrap(),
        image_size: None,
    };
    let headers: Vec<(String, String)> =
        response_headers(&data).into_iter().map(|h| (h.name, h.value)).collect();
    assert_eq!(
        headers,
        vec![
            ("etag".to_string(), "W/\"00000000000000000000000000000abc\"".to_string()),
            (
                "content-disposition".to_string(),
                "inline; filename*=UTF-8''my%20image.png".to_string()
            ),
            ("content-type".to_string(), "image/png".to_string()),
            ("content-length".to_string(), "11658".to_string()),
        ]
    );

    // A temporary file has no entity tag; a thumbnail tells its size.
    let data = ResponseData {
        etag: etag_of(0xabc),
        file: file(true, u64::MAX),
        download: true,
        file_name: "a/b@2x.webp".to_string(),
        file_type: MediaType::from_text("image/webp").unwrap(),
        image_size: Some((64, 48)),
    };
    let headers: Vec<(String, String)> =
        response_headers(&data).into_iter().map(|h| (h.name, h.value)).collect();
    assert_eq!(
        headers,
        vec![
            (
                "content-disposition".to_string(),
                "attachment; filename*=UTF-8''a%2Fb%402x.webp".to_string()
            ),
            ("content-type".to_string(), "image/webp".to_string()),
            ("content-length".to_string(), "18446744073709551615".to_string()),
            ("x-image-width".to_string(), "64".to_string()),
            ("x-image-height".to_string(), "48".to_string()),
        ]
    );
    assert!(DatalithResponse { data: Some(data) }.is_temporary());
    assert!(!DatalithResponse { data: None }.is_temporary());
    assert_eq!(cache_policy(true), CachePolicy::NoStore);
    assert_eq!(cache_policy(false), CachePolicy::NoCache);
}

#[test]
fn statuses() {
    assert_eq!(delete_status(&Ok(true)), 200);
    assert_eq!(delete_status(&Ok(false)), 404);
    assert_eq!(delete_status(&Err(DatalithReadError::SQLError(SqlErrorKind::Other))), 500);
    assert_eq!(upload_failure_status(&DatalithWriteError::IOError(IoErrorKind::Other)), 400);
    assert_eq!(upload_failure_status(&DatalithWriteError::IOError(IoErrorKind::NotFound)), 500);
    assert_eq!(
        upload_failure_status(&DatalithWriteError::FileLengthTooLarge {
            expected_file_length: 1,
            actual_file_length: 2
        }),
        413
    );
    assert_eq!(image_upload_failure_status(&DatalithImageWriteError::UnsupportedImageType), 400);
    assert_eq!(image_upload_failure_status(&DatalithImageWriteError::ResolutionTooBig), 500);
    assert_eq!(image_upload_failure_status(&DatalithImageWriteError::MagickError), 500);
    assert_eq!(
        image_upload_failure_status(&DatalithImageWriteError::DatalithWriteError(
            DatalithWriteError::FileLengthTooLarge { expected_file_length: 1, actual_file_length: 2 }
        )),
        413
    );
    assert_eq!(form_failure_status(Some("file")), 413);
    assert_eq!(form_failure_status(Some("file_name")), 400);
    assert_eq!(form_failure_status(None), 400);
}

#[test]
fn the_form_of_an_upload() {
    let form = |file_name: Option<&str>,
                part_file_name: Option<&str>,
                file_type: Option<&str>,
                part_content_type: Option<&str>,
                temporary: Option<&str>| UploadForm {
        file_name: file_name.map(|s| s.to_string()),
        part_file_name: part_file_name.map(|s| s.to_string()),
        file_type: file_type.map(|s| s.to_string()),
        part_content_type: part_content_type.map(|s| s.to_string()),
        temporary: temporary.map(|s| s.to_string()),
    };

    let plan = plan_upload(form(None, Some("part.png"), None, Some("image/png"), None)).unwrap();
    assert_eq!(plan.label.file_name, Some("part.png".to_string()));
    let (file_type, level) = plan.label.file_type.unwrap();
    assert_eq!(file_type.essence, "image/png");
    assert_eq!(level, FileTypeLevel::Fallback);
    assert!(!plan.temporary);

    let plan = plan_upload(form(
        Some("named.jpg"),
        Some("part.png"),
        Some("image/jpeg"),
        Some("image/png"),
        Some("yes"),
    ))
    .unwrap();
    assert_eq!(plan.label.file_name, Some("named.jpg".to_string()));
    let (file_type, level) = plan.label.file_type.unwrap();
    assert_eq!(file_type.essence, "image/jpeg");
    assert_eq!(level, FileTypeLevel::Manual);
    assert!(plan.temporary);

    let plan = plan_upload(form(None, None, None, Some("no media type"), Some("0"))).unwrap();
    assert!(plan.label.file_name.is_none());
    assert!(plan.label.file_type.is_none());
    assert!(!plan.temporary);

    assert_eq!(plan_upload(form(None, None, Some("no media type"), None, None)).err(), Some(400));
    assert_eq!(plan_upload(form(None, None, None, None, Some("maybe"))).err(), Some(400));
}

#[test]
fn the_upload_of_a_stream() {
    let plan = plan_stream_upload(
        Some("image/png".to_string()),
        Some("image/jpeg".to_string()),
        Some(ContentLength(5)),
        10,
    )
    .unwrap();
    let (file_type, level) = plan.file_type.unwrap();
    assert_eq!(file_type.essence, "image/png");
    assert_eq!(level, FileTypeLevel::Manual);
    assert_eq!(plan.expected_length, Some(5));

    let plan = plan_stream_upload(None, Some("image/jpeg".to_string()), None, 10).unwrap();
    assert_eq!(plan.file_type.unwrap().0.essence, "image/jpeg");
    assert_eq!(plan.expected_length, None);

    let plan = plan_stream_upload(None, None, None, 10).unwrap();
    assert!(plan.file_type.is_none());

    assert_eq!(plan_stream_upload(Some("?".to_string()), None, None, 10).err(), Some(400));
    assert_eq!(plan_stream_upload(None, None, Some(ContentLength(11)), 10).err(), Some(413));
}

#[test]
fn the_fields_of_an_image_upload() {
    assert_eq!(parse_bound(None), Ok(None));
    assert_eq!(parse_bound(Some("1280")), Ok(Some(1280)));
    assert_eq!(parse_bound(Some("65535")), Ok(Some(65_535)));
    assert_eq!(parse_bound(Some("65536")), Err(400));
    assert_eq!(parse_bound(Some("wide")), Err(400));
    assert_eq!(parse_save_original_file(None), Ok(true));
    assert_eq!(parse_save_original_file(Some("no")), Ok(false));
    assert_eq!(parse_save_original_file(Some("1")), Ok(true));
    assert_eq!(parse_save_original_file(Some("?")), Err(400));
}
