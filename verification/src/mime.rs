//! The content-type table: which media type a file gets from its extension.

use std::path::Path;
use vstd::prelude::*;
use vstd::string::*;
use crate::text::{chars_of, str_eq, text_of};

verus! {

/// The media type registered for the extension `ext` (written without its
/// leading dot), if the table has one. Extensions are matched exactly: the
/// table knows no wildcards and no default.
pub open spec fn mime_of_extension(ext: Seq<char>) -> Option<Seq<char>> {
    if ext == "aac"@ {
        Some("audio/aac"@)
    } else if ext == "abw"@ {
        Some("application/x-abiword"@)
    } else if ext == "apng"@ {
        Some("image/apng"@)
    } else if ext == "arc"@ {
        Some("application/x-freearc"@)
    } else if ext == "avif"@ {
        Some("image/avif"@)
    } else if ext == "avi"@ {
        Some("video/x-msvideo"@)
    } else if ext == "azw"@ {
        Some("application/vnd.amazon.ebook"@)
    } else if ext == "bin"@ {
        Some("application/octet-stream"@)
    } else if ext == "bmp"@ {
        Some("image/bmp"@)
    } else if ext == "bz"@ {
        Some("application/x-bzip"@)
    } else if ext == "bz2"@ {
        Some("application/x-bzip2"@)
    } else if ext == "cda"@ {
        Some("application/x-cdf"@)
    } else if ext == "csh"@ {
        Some("application/x-csh"@)
    } else if ext == "css"@ {
        Some("text/css"@)
    } else if ext == "csv"@ {
        Some("text/csv"@)
    } else if ext == "doc"@ {
        Some("application/msword"@)
    } else if ext == "docx"@ {
        Some("application/vnd.openxmlformats-officedocument.wordprocessingml.document"@)
    } else if ext == "eot"@ {
        Some("application/vnd.ms-fontobject"@)
    } else if ext == "epub"@ {
        Some("application/epub+zip"@)
    } else if ext == "gz"@ {
        Some("application/gzip"@)
    } else if ext == "gif"@ {
        Some("application/gif"@)
    } else if ext == "htm"@ || ext == "html"@ {
        Some("text/html"@)
    } else if ext == "ico"@ {
        Some("image/vnd.microsoft.icon"@)
    } else if ext == "ics"@ {
        Some("text/calendar"@)
    } else if ext == "jar"@ {
        Some("application/java-archive"@)
    } else if ext == "jpeg"@ || ext == "jpg"@ {
        Some("image/jpeg"@)
    } else if ext == "js"@ {
        Some("text/javascript"@)
    } else if ext == "json"@ {
        Some("application/json"@)
    } else if ext == "jsonld"@ {
        Some("application/ld+json"@)
    } else if ext == "mid"@ || ext == "midi"@ {
        Some("audio/midi"@)
    } else if ext == "mjs"@ {
        Some("text/javascript"@)
    } else if ext == "mp3"@ {
        Some("audio/mpeg"@)
    } else if ext == "mp4"@ {
        Some("video/mpeg"@)
    } else if ext == "mpeg"@ {
        Some("video/mpeg"@)
    } else if ext == "mpkg"@ {
        Some("application/vnd.apple.installer+xml"@)
    } else if ext == "odp"@ {
        Some("application/vnd.oasis.opendocument.presentation"@)
    } else if ext == "ods"@ {
        Some("application/vnd.oasis.opendocument.spreadsheet"@)
    } else if ext == "odt"@ {
        Some("application/vnd.oasis.opendocument.text"@)
    } else if ext == "oga"@ {
        Some("audio/ogg"@)
    } else if ext == "ogv"@ {
        Some("video/ogg"@)
    } else if ext == "ogx"@ {
        Some("application/ogg"@)
    } else if ext == "opus"@ {
        Some("audio/opus"@)
    } else if ext == "otf"@ {
        Some("font/otf"@)
    } else if ext == "png"@ {
        Some("image/png"@)
    } else if ext == "pdf"@ {
        Some("application/pdf"@)
    } else if ext == "php"@ {
        Some("application/x-httpd-php"@)
    } else if ext == "ppt"@ {
        Some("application/vnd.ms-powerpoint"@)
    } else if ext == "pptx"@ {
        Some("application/vnd/openxmlformats-officedocument.presentationml.presentation"@)
    } else if ext == "rar"@ {
        Some("application/vnd.rar"@)
    } else if ext == "rtf"@ {
        Some("application/rtf"@)
    } else if ext == "sh"@ {
        Some("application/x-sh"@)
    } else if ext == "svg"@ {
        Some("image/svg+xml"@)
    } else if ext == "tar"@ {
        Some("application/x-tar"@)
    } else if ext == "tif"@ || ext == "tiff"@ {
        Some("image/tiff"@)
    } else if ext == "ts"@ {
        Some("video/mp2t"@)
    } else if ext == "ttf"@ {
        Some("font/ttf"@)
    } else if ext == "txt"@ {
        Some("text/plain"@)
    } else if ext == "vsd"@ {
        Some("application/vnd.visio"@)
    } else if ext == "wav"@ {
        Some("audio/wav"@)
    } else if ext == "weba"@ {
        Some("audio/webm"@)
    } else if ext == "webm"@ {
        Some("video/webm"@)
    } else if ext == "webp"@ {
        Some("image/webp"@)
    } else if ext == "woff"@ {
        Some("font/woff"@)
    } else if ext == "woff2"@ {
        Some("font/woff2"@)
    } else if ext == "xhtml"@ {
        Some("application/xhtml+xml"@)
    } else if ext == "xls"@ {
        Some("application/vnd.ms-exel"@)
    } else if ext == "xlsx"@ {
        Some("application/vnd.openxmlformats-officedocument.spreadsheetml.sheet"@)
    } else if ext == "xml"@ {
        Some("application/xml"@)
    } else if ext == "xul"@ {
        Some("application/vnd.mozilla.xul+xml"@)
    } else if ext == "zip"@ {
        Some("application/zip"@)
    } else if ext == "3pg"@ {
        Some("video/3gpp"@)
    } else if ext == "3g2"@ {
        Some("video/3ggp2"@)
    } else if ext == "7z"@ {
        Some("application/x-7z-compressed"@)
    } else if ext == "wasm"@ {
        Some("application/wasm"@)
    } else {
        None
    }
}

/// Looks `ext` up in the content-type table.
pub fn mime_for_extension(ext: &str) -> (mime: Option<&'static str>)
    ensures
        text_of(mime) == mime_of_extension(ext@),
{
    if str_eq(ext, "aac") {
        Some("audio/aac")
    } else if str_eq(ext, "abw") {
        Some("application/x-abiword")
    } else if str_eq(ext, "apng") {
        Some("image/apng")
    } else if str_eq(ext, "arc") {
        Some("application/x-freearc")
    } else if str_eq(ext, "avif") {
        Some("image/avif")
    } else if str_eq(ext, "avi") {
        Some("video/x-msvideo")
    } else if str_eq(ext, "azw") {
        Some("application/vnd.amazon.ebook")
    } else if str_eq(ext, "bin") {
        Some("application/octet-stream")
    } else if str_eq(ext, "bmp") {
        Some("image/bmp")
    } else if str_eq(ext, "bz") {
        Some("application/x-bzip")
    } else if str_eq(ext, "bz2") {
        Some("application/x-bzip2")
    } else if str_eq(ext, "cda") {
        Some("application/x-cdf")
    } else if str_eq(ext, "csh") {
        Some("application/x-csh")
    } else if str_eq(ext, "css") {
        Some("text/css")
    } else if str_eq(ext, "csv") {
        Some("text/csv")
    } else if str_eq(ext, "doc") {
        Some("application/msword")
    } else if str_eq(ext, "docx") {
        Some("application/vnd.openxmlformats-officedocument.wordprocessingml.document")
    } else if str_eq(ext, "eot") {
        Some("application/vnd.ms-fontobject")
    } else if str_eq(ext, "epub") {
        Some("application/epub+zip")
    } else if str_eq(ext, "gz") {
        Some("application/gzip")
    } else if str_eq(ext, "gif") {
        Some("application/gif")
    } else if str_eq(ext, "htm") || str_eq(ext, "html") {
        Some("text/html")
    } else if str_eq(ext, "ico") {
        Some("image/vnd.microsoft.icon")
    } else if str_eq(ext, "ics") {
        Some("text/calendar")
    } else if str_eq(ext, "jar") {
        Some("application/java-archive")
    } else if str_eq(ext, "jpeg") || str_eq(ext, "jpg") {
        Some("image/jpeg")
    } else if str_eq(ext, "js") {
        Some("text/javascript")
    } else if str_eq(ext, "json") {
        Some("application/json")
    } else if str_eq(ext, "jsonld") {
        Some("application/ld+json")
    } else if str_eq(ext, "mid") || str_eq(ext, "midi") {
        Some("audio/midi")
    } else if str_eq(ext, "mjs") {
        Some("text/javascript")
    } else if str_eq(ext, "mp3") {
        Some("audio/mpeg")
    } else if str_eq(ext, "mp4") {
        Some("video/mpeg")
    } else if str_eq(ext, "mpeg") {
        Some("video/mpeg")
    } else if str_eq(ext, "mpkg") {
        Some("application/vnd.apple.installer+xml")
    } else if str_eq(ext, "odp") {
        Some("application/vnd.oasis.opendocument.presentation")
    } else if str_eq(ext, "ods") {
        Some("application/vnd.oasis.opendocument.spreadsheet")
    } else if str_eq(ext, "odt") {
        Some("application/vnd.oasis.opendocument.text")
    } else if str_eq(ext, "oga") {
        Some("audio/ogg")
    } else if str_eq(ext, "ogv") {
        Some("video/ogg")
    } else if str_eq(ext, "ogx") {
        Some("application/ogg")
    } else if str_eq(ext, "opus") {
        Some("audio/opus")
    } else if str_eq(ext, "otf") {
        Some("font/otf")
    } else if str_eq(ext, "png") {
        Some("image/png")
    } else if str_eq(ext, "pdf") {
        Some("application/pdf")
    } else if str_eq(ext, "php") {
        Some("application/x-httpd-php")
    } else if str_eq(ext, "ppt") {
        Some("application/vnd.ms-powerpoint")
    } else if str_eq(ext, "pptx") {
        Some("application/vnd/openxmlformats-officedocument.presentationml.presentation")
    } else if str_eq(ext, "rar") {
        Some("application/vnd.rar")
    } else if str_eq(ext, "rtf") {
        Some("application/rtf")
    } else if str_eq(ext, "sh") {
        Some("application/x-sh")
    } else if str_eq(ext, "svg") {
        Some("image/svg+xml")
    } else if str_eq(ext, "tar") {
        Some("application/x-tar")
    } else if str_eq(ext, "tif") || str_eq(ext, "tiff") {
        Some("image/tiff")
    } else if str_eq(ext, "ts") {
        Some("video/mp2t")
    } else if str_eq(ext, "ttf") {
        Some("font/ttf")
    } else if str_eq(ext, "txt") {
        Some("text/plain")
    } else if str_eq(ext, "vsd") {
        Some("application/vnd.visio")
    } else if str_eq(ext, "wav") {
        Some("audio/wav")
    } else if str_eq(ext, "weba") {
        Some("audio/webm")
    } else if str_eq(ext, "webm") {
        Some("video/webm")
    } else if str_eq(ext, "webp") {
        Some("image/webp")
    } else if str_eq(ext, "woff") {
        Some("font/woff")
    } else if str_eq(ext, "woff2") {
        Some("font/woff2")
    } else if str_eq(ext, "xhtml") {
        Some("application/xhtml+xml")
    } else if str_eq(ext, "xls") {
        Some("application/vnd.ms-exel")
    } else if str_eq(ext, "xlsx") {
        Some("application/vnd.openxmlformats-officedocument.spreadsheetml.sheet")
    } else if str_eq(ext, "xml") {
        Some("application/xml")
    } else if str_eq(ext, "xul") {
        Some("application/vnd.mozilla.xul+xml")
    } else if str_eq(ext, "zip") {
        Some("application/zip")
    } else if str_eq(ext, "3pg") {
        Some("video/3gpp")
    } else if str_eq(ext, "3g2") {
        Some("video/3ggp2")
    } else if str_eq(ext, "7z") {
        Some("application/x-7z-compressed")
    } else if str_eq(ext, "wasm") {
        Some("application/wasm")
    } else {
        None
    }
}

/// The final component of `path`, as `std::path::Path::file_name` finds it:
/// the name of the file or directory that the path ends in, if it ends in one.
pub uninterp spec fn path_file_name(path: Seq<char>) -> Option<Seq<char>>;

/// The place of the last dot in `name`, or -1 where `name` has no dot.
pub open spec fn last_dot(name: Seq<char>) -> int
    decreases name.len(),
{
    if name.len() == 0 {
        -1
    } else if name.last() == '.' {
        name.len() - 1
    } else {
        last_dot(name.drop_last())
    }
}

/// The extension of the file name `name`: what follows its last dot, without
/// the dot. A name without a dot has none, and neither has a name whose only
/// dot is its first character.
pub open spec fn extension_in(name: Seq<char>) -> Option<Seq<char>> {
    let dot = last_dot(name);
    if dot <= 0 {
        None
    } else {
        Some(name.skip(dot + 1))
    }
}

/// The extension of the file that `path` names: that of the path's final
/// component, if it has one.
pub open spec fn path_extension(path: Seq<char>) -> Option<Seq<char>> {
    match path_file_name(path) {
        Some(name) => extension_in(name),
        None => None,
    }
}

/// Asks `std::path::Path::file_name` for the final component of `path` and
/// hands it back as text. The contract only names the answer: it is
/// [`path_file_name`] of the path's characters.
#[verifier::external_body]
fn file_name_of(path: &str) -> (name: Option<&str>)
    ensures
        text_of(name) == path_file_name(path@),
{
    Path::new(path).file_name()?.to_str()
}

/// The extension of the file name `name`.
pub fn extension_of_name(name: &str) -> (ext: Option<&str>)
    ensures
        text_of(ext) == extension_in(name@),
{
    let chars = chars_of(name);
    let len = chars.len();
    let mut start: usize = len;
    while start > 0 && chars[start - 1] != '.'
        invariant
            start <= len,
            len == chars.len(),
            forall|k: int| start <= k < len ==> chars@[k] != '.',
        decreases start,
    {
        start = start - 1;
    }
    if start <= 1 {
        proof {
            lemma_no_extension_without_inner_dot(name@);
        }
        None
    } else {
        proof {
            lemma_last_dot_is_last(name@, start - 1);
        }
        Some(name.substring_char(start, len))
    }
}

/// The media type of the file that `path` names, going by the path's extension.
pub open spec fn mime_of_path(path: Seq<char>) -> Option<Seq<char>> {
    match path_extension(path) {
        Some(ext) => mime_of_extension(ext),
        None => None,
    }
}

/// The media type to announce for the file at `path`: the table's entry for the
/// path's extension, and nothing for a path without an extension or with one
/// that the table does not hold.
pub fn get_mime_type(path: &str) -> (mime: Option<&'static str>)
    ensures
        text_of(mime) == mime_of_path(path@),
{
    match file_name_of(path) {
        Some(name) => match extension_of_name(name) {
            Some(ext) => mime_for_extension(ext),
            None => None,
        },
        None => None,
    }
}

/// A dot in `name` that no dot follows is its last dot.
pub proof fn lemma_last_dot_is_last(name: Seq<char>, at: int)
    requires
        0 <= at < name.len(),
        name[at] == '.',
        forall|k: int| at < k < name.len() ==> name[k] != '.',
    ensures
        last_dot(name) == at,
    decreases name.len(),
{
    if name.last() != '.' {
        lemma_last_dot_is_last(name.drop_last(), at);
    }
}

/// A name made of a stem, a dot and a word without dots has that word as its
/// extension.
pub proof fn lemma_extension_of_dotted_name(stem: Seq<char>, ext: Seq<char>)
    requires
        stem.len() > 0,
        !ext.contains('.'),
    ensures
        extension_in(stem + seq!['.'] + ext) == Some(ext),
{
    let name = stem + seq!['.'] + ext;
    let at = stem.len() as int;
    assert forall|k: int| at < k < name.len() implies name[k] != '.' by {
        assert(name[k] == ext[k - at - 1]);
        assert(ext.contains(ext[k - at - 1]));
    }
    lemma_last_dot_is_last(name, at);
    assert(name.skip(at + 1) =~= ext);
}

/// A name without a dot, or with none but a leading one, has no extension.
pub proof fn lemma_no_extension_without_inner_dot(name: Seq<char>)
    requires
        forall|k: int| 0 < k < name.len() ==> name[k] != '.',
    ensures
        extension_in(name) is None,
    decreases name.len(),
{
    if name.len() > 0 && name.last() != '.' {
        lemma_no_extension_without_inner_dot(name.drop_last());
    }
}

} // verus!
