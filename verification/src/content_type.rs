//! The content-type resolver: a pure mapping from a filename extension to a
//! MIME type string, with a generic binary fallback for anything unknown.

use vstd::prelude::*;

use crate::filename::{extension_of, extension_spec};
use crate::text::{lower_seq, str_eq, to_lowercase};

verus! {

/// The MIME type for an already-lowercased extension. Unknown extensions map
/// to the generic binary type, so every extension resolves to something.
pub open spec fn content_type_spec(ext: Seq<char>) -> Seq<char> {
    if ext == "jpg"@ || ext == "jpeg"@ {
        "image/jpeg"@
    } else if ext == "png"@ {
        "image/png"@
    } else if ext == "gif"@ {
        "image/gif"@
    } else if ext == "webp"@ {
        "image/webp"@
    } else if ext == "svg"@ {
        "image/svg+xml"@
    } else if ext == "ico"@ {
        "image/x-icon"@
    } else if ext == "tiff"@ || ext == "tif"@ {
        "image/tiff"@
    } else if ext == "bmp"@ {
        "image/bmp"@
    } else if ext == "arw"@ {
        "image/x-sony-arw"@
    } else if ext == "mp3"@ {
        "audio/mpeg"@
    } else if ext == "wav"@ {
        "audio/wav"@
    } else if ext == "ogg"@ {
        "audio/ogg"@
    } else if ext == "flac"@ {
        "audio/flac"@
    } else if ext == "aac"@ {
        "audio/aac"@
    } else if ext == "mp4"@ {
        "video/mp4"@
    } else if ext == "webm"@ {
        "video/webm"@
    } else if ext == "avi"@ {
        "video/x-msvideo"@
    } else if ext == "mov"@ {
        "video/quicktime"@
    } else if ext == "wmv"@ {
        "video/x-ms-wmv"@
    } else if ext == "pdf"@ {
        "application/pdf"@
    } else if ext == "doc"@ || ext == "docx"@ {
        "application/msword"@
    } else if ext == "xls"@ || ext == "xlsx"@ {
        "application/vnd.ms-excel"@
    } else if ext == "ppt"@ || ext == "pptx"@ {
        "application/vnd.ms-powerpoint"@
    } else if ext == "txt"@ {
        "text/plain"@
    } else if ext == "rtf"@ {
        "application/rtf"@
    } else if ext == "csv"@ {
        "text/csv"@
    } else if ext == "html"@ || ext == "htm"@ {
        "text/html"@
    } else if ext == "css"@ {
        "text/css"@
    } else if ext == "js"@ {
        "application/javascript"@
    } else if ext == "json"@ {
        "application/json"@
    } else if ext == "xml"@ {
        "application/xml"@
    } else if ext == "zip"@ {
        "application/zip"@
    } else if ext == "rar"@ {
        "application/vnd.rar"@
    } else if ext == "7z"@ {
        "application/x-7z-compressed"@
    } else if ext == "tar"@ {
        "application/x-tar"@
    } else if ext == "gz"@ {
        "application/gzip"@
    } else if ext == "ttf"@ {
        "font/ttf"@
    } else if ext == "otf"@ {
        "font/otf"@
    } else if ext == "woff"@ {
        "font/woff"@
    } else if ext == "woff2"@ {
        "font/woff2"@
    } else if ext == "py"@ {
        "text/x-python"@
    } else if ext == "java"@ {
        "text/x-java-source"@
    } else if ext == "c"@ {
        "text/x-c"@
    } else if ext == "cpp"@ || ext == "cxx"@ || ext == "cc"@ {
        "text/x-c++"@
    } else if ext == "h"@ || ext == "hpp"@ {
        "text/x-c++hdr"@
    } else if ext == "rs"@ {
        "text/x-rust"@
    } else if ext == "go"@ {
        "text/x-go"@
    } else if ext == "rb"@ {
        "text/x-ruby"@
    } else if ext == "php"@ {
        "application/x-httpd-php"@
    } else if ext == "swift"@ {
        "text/x-swift"@
    } else if ext == "kt"@ || ext == "kts"@ {
        "text/x-kotlin"@
    } else if ext == "scala"@ {
        "text/x-scala"@
    } else if ext == "pl"@ || ext == "pm"@ {
        "text/x-perl"@
    } else if ext == "sh"@ {
        "application/x-sh"@
    } else if ext == "ts"@ {
        "application/typescript"@
    } else if ext == "jsx"@ || ext == "tsx"@ {
        "text/jsx"@
    } else if ext == "vue"@ {
        "text/x-vue"@
    } else if ext == "dart"@ {
        "application/vnd.dart"@
    } else if ext == "sql"@ {
        "application/sql"@
    } else if ext == "lua"@ {
        "text/x-lua"@
    } else if ext == "r"@ {
        "text/x-r"@
    } else if ext == "m"@ {
        "text/x-objectivec"@
    } else {
        "application/octet-stream"@
    }
}

/// Resolve a filename extension (case-insensitively) to the MIME type used
/// in the response's content-type header.
pub fn extension_to_header(extension: &str) -> (r: &'static str)
    ensures
        r@ == content_type_spec(lower_seq(extension@)),
{
    let low = to_lowercase(extension);
    let e = low.as_str();
    if str_eq(e, "jpg") || str_eq(e, "jpeg") {
        "image/jpeg"
    } else if str_eq(e, "png") {
        "image/png"
    } else if str_eq(e, "gif") {
        "image/gif"
    } else if str_eq(e, "webp") {
        "image/webp"
    } else if str_eq(e, "svg") {
        "image/svg+xml"
    } else if str_eq(e, "ico") {
        "image/x-icon"
    } else if str_eq(e, "tiff") || str_eq(e, "tif") {
        "image/tiff"
    } else if str_eq(e, "bmp") {
        "image/bmp"
    } else if str_eq(e, "arw") {
        "image/x-sony-arw"
    } else if str_eq(e, "mp3") {
        "audio/mpeg"
    } else if str_eq(e, "wav") {
        "audio/wav"
    } else if str_eq(e, "ogg") {
        "audio/ogg"
    } else if str_eq(e, "flac") {
        "audio/flac"
    } else if str_eq(e, "aac") {
        "audio/aac"
    } else if str_eq(e, "mp4") {
        "video/mp4"
    } else if str_eq(e, "webm") {
        "video/webm"
    } else if str_eq(e, "avi") {
        "video/x-msvideo"
    } else if str_eq(e, "mov") {
        "video/quicktime"
    } else if str_eq(e, "wmv") {
        "video/x-ms-wmv"
    } else if str_eq(e, "pdf") {
        "application/pdf"
    } else if str_eq(e, "doc") || str_eq(e, "docx") {
        "application/msword"
    } else if str_eq(e, "xls") || str_eq(e, "xlsx") {
        "application/vnd.ms-excel"
    } else if str_eq(e, "ppt") || str_eq(e, "pptx") {
        "application/vnd.ms-powerpoint"
    } else if str_eq(e, "txt") {
        "text/plain"
    } else if str_eq(e, "rtf") {
        "application/rtf"
    } else if str_eq(e, "csv") {
        "text/csv"
    } else if str_eq(e, "html") || str_eq(e, "htm") {
        "text/html"
    } else if str_eq(e, "css") {
        "text/css"
    } else if str_eq(e, "js") {
        "application/javascript"
    } else if str_eq(e, "json") {
        "application/json"
    } else if str_eq(e, "xml") {
        "application/xml"
    } else if str_eq(e, "zip") {
        "application/zip"
    } else if str_eq(e, "rar") {
        "application/vnd.rar"
    } else if str_eq(e, "7z") {
        "application/x-7z-compressed"
    } else if str_eq(e, "tar") {
        "application/x-tar"
    } else if str_eq(e, "gz") {
        "application/gzip"
    } else if str_eq(e, "ttf") {
        "font/ttf"
    } else if str_eq(e, "otf") {
        "font/otf"
    } else if str_eq(e, "woff") {
        "font/woff"
    } else if str_eq(e, "woff2") {
        "font/woff2"
    } else if str_eq(e, "py") {
        "text/x-python"
    } else if str_eq(e, "java") {
        "text/x-java-source"
    } else if str_eq(e, "c") {
        "text/x-c"
    } else if str_eq(e, "cpp") || str_eq(e, "cxx") || str_eq(e, "cc") {
        "text/x-c++"
    } else if str_eq(e, "h") || str_eq(e, "hpp") {
        "text/x-c++hdr"
    } else if str_eq(e, "rs") {
        "text/x-rust"
    } else if str_eq(e, "go") {
        "text/x-go"
    } else if str_eq(e, "rb") {
        "text/x-ruby"
    } else if str_eq(e, "php") {
        "application/x-httpd-php"
    } else if str_eq(e, "swift") {
        "text/x-swift"
    } else if str_eq(e, "kt") || str_eq(e, "kts") {
        "text/x-kotlin"
    } else if str_eq(e, "scala") {
        "text/x-scala"
    } else if str_eq(e, "pl") || str_eq(e, "pm") {
        "text/x-perl"
    } else if str_eq(e, "sh") {
        "application/x-sh"
    } else if str_eq(e, "ts") {
        "application/typescript"
    } else if str_eq(e, "jsx") || str_eq(e, "tsx") {
        "text/jsx"
    } else if str_eq(e, "vue") {
        "text/x-vue"
    } else if str_eq(e, "dart") {
        "application/vnd.dart"
    } else if str_eq(e, "sql") {
        "application/sql"
    } else if str_eq(e, "lua") {
        "text/x-lua"
    } else if str_eq(e, "r") {
        "text/x-r"
    } else if str_eq(e, "m") {
        "text/x-objectivec"
    } else {
        "application/octet-stream"
    }
}

/// The content type a download response carries: resolved from the extension
/// the requested (already sanitized) name claims; a name claiming none gets
/// the generic binary type.
pub open spec fn download_content_type_spec(name: Seq<char>) -> Seq<char> {
    match extension_spec(name) {
        Some(e) => content_type_spec(lower_seq(e)),
        None => "application/octet-stream"@,
    }
}

/// The content type for a requested name, executable form.
pub fn download_content_type(name: &str) -> (r: &'static str)
    ensures
        r@ == download_content_type_spec(name@),
{
    match extension_of(name) {
        Some(e) => extension_to_header(e.as_str()),
        None => "application/octet-stream",
    }
}

} // verus!
