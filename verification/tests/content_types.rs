use media_relay::content_type::{download_content_type, extension_to_header};
use media_relay::text::{str_eq, to_lowercase};

#[test]
fn jpeg_resolves_case_insensitively() {
    assert_eq!(extension_to_header("JPG"), "image/jpeg");
    assert_eq!(extension_to_header("jpg"), "image/jpeg");
    assert_eq!(extension_to_header("jpeg"), "image/jpeg");
    assert_eq!(extension_to_header("JpEg"), "image/jpeg");
}

#[test]
fn gzip_member_of_table() {
    assert_eq!(extension_to_header("gz"), "application/gzip");
}

#[test]
fn unknown_extension_falls_back_to_octet_stream() {
    assert_eq!(extension_to_header("xyzzy"), "application/octet-stream");
    assert_eq!(extension_to_header(""), "application/octet-stream");
}

#[test]
fn a_sample_from_each_category() {
    assert_eq!(extension_to_header("png"), "image/png");
    assert_eq!(extension_to_header("mp3"), "audio/mpeg");
    assert_eq!(extension_to_header("mp4"), "video/mp4");
    assert_eq!(extension_to_header("pdf"), "application/pdf");
    assert_eq!(extension_to_header("html"), "text/html");
    assert_eq!(extension_to_header("zip"), "application/zip");
    assert_eq!(extension_to_header("woff2"), "font/woff2");
    assert_eq!(extension_to_header("rs"), "text/x-rust");
}

#[test]
fn download_type_uses_the_claimed_extension() {
    assert_eq!(download_content_type("photo.JPG"), "image/jpeg");
    assert_eq!(download_content_type("archive.tar.gz"), "application/gzip");
}

#[test]
fn download_type_without_extension_is_octet_stream() {
    assert_eq!(download_content_type("noext"), "application/octet-stream");
}

#[test]
fn lowercasing_touches_only_ascii_uppercase() {
    assert_eq!(to_lowercase("MiXeD-123.JPG"), "mixed-123.jpg");
    assert_eq!(to_lowercase("already_lower"), "already_lower");
}

#[test]
fn string_equality_by_characters() {
    assert!(str_eq("abc", "abc"));
    assert!(!str_eq("abc", "abd"));
    assert!(!str_eq("abc", "ab"));
    assert!(str_eq("", ""));
}
