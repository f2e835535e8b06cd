//! File-type classification for attachments: what kind of file an
//! extension names, which MIME type it gets, and the size limits a file
//! must meet before it is handed to a model.

use vstd::prelude::*;

use crate::chat::Attachment;
use crate::text::{eq_nocase, str_eq_nocase, spec_dec_u64, u64_to_dec};

verus! {

/// What kind of file an attachment is.
#[derive(Clone, Copy, PartialEq, Eq, Structural, Debug)]
pub enum FileType {
    Text,
    Image,
    Document,
    Unsupported,
}

/// The kind named by a file extension, compared ignoring ASCII case:
/// image and document extensions are recognized, everything else is text.
pub open spec fn spec_file_type(ext: Seq<char>) -> FileType {
    if eq_nocase(ext, "jpg"@) || eq_nocase(ext, "jpeg"@) || eq_nocase(ext, "png"@) || eq_nocase(
        ext,
        "gif"@,
    ) || eq_nocase(ext, "bmp"@) || eq_nocase(ext, "webp"@) || eq_nocase(ext, "svg"@) || eq_nocase(
        ext,
        "tiff"@,
    ) || eq_nocase(ext, "ico"@) {
        FileType::Image
    } else if eq_nocase(ext, "pdf"@) || eq_nocase(ext, "doc"@) || eq_nocase(ext, "docx"@)
        || eq_nocase(ext, "xls"@) || eq_nocase(ext, "xlsx"@) || eq_nocase(ext, "ppt"@)
        || eq_nocase(ext, "pptx"@) || eq_nocase(ext, "odt"@) || eq_nocase(ext, "ods"@)
        || eq_nocase(ext, "odp"@) {
        FileType::Document
    } else {
        FileType::Text
    }
}

impl FileType {
    /// Classifies a file extension, ignoring ASCII case.
    pub fn from_extension(extension: &str) -> (r: FileType)
        ensures
            r == spec_file_type(extension@),
    {
        if str_eq_nocase(extension, "jpg") || str_eq_nocase(extension, "jpeg") || str_eq_nocase(
            extension,
            "png",
        ) || str_eq_nocase(extension, "gif") || str_eq_nocase(extension, "bmp") || str_eq_nocase(
            extension,
            "webp",
        ) || str_eq_nocase(extension, "svg") || str_eq_nocase(extension, "tiff") || str_eq_nocase(
            extension,
            "ico",
        ) {
            FileType::Image
        } else if str_eq_nocase(extension, "pdf") || str_eq_nocase(extension, "doc")
            || str_eq_nocase(extension, "docx") || str_eq_nocase(extension, "xls")
            || str_eq_nocase(extension, "xlsx") || str_eq_nocase(extension, "ppt")
            || str_eq_nocase(extension, "pptx") || str_eq_nocase(extension, "odt")
            || str_eq_nocase(extension, "ods") || str_eq_nocase(extension, "odp") {
            FileType::Document
        } else {
            FileType::Text
        }
    }
}

/// The file extension written in a path: what follows the last `.` of the
/// final path component, empty when that component has no `.` past its
/// first character.
pub open spec fn spec_ext_of(path: Seq<char>) -> Seq<char> {
    let name_start = spec_after_last(path, '/', path.len() as int);
    let name = path.subrange(name_start, path.len() as int);
    let dot = spec_after_last(name, '.', name.len() as int);
    if dot <= 1 {
        Seq::empty()
    } else {
        name.subrange(dot, name.len() as int)
    }
}

/// One past the position of the last occurrence of `c` strictly before
/// `upto`; 0 when there is none.
pub open spec fn spec_after_last(s: Seq<char>, c: char, upto: int) -> int
    decreases upto,
{
    if upto <= 0 {
        0
    } else if s[upto - 1] == c {
        upto
    } else {
        spec_after_last(s, c, upto - 1)
    }
}

fn after_last(s: &str, c: char) -> (r: usize)
    ensures
        r == spec_after_last(s@, c, s@.len() as int),
        r <= s@.len(),
{
    let len = s.unicode_len();
    let mut upto = len;
    while upto > 0
        invariant
            0 <= upto <= len,
            len == s@.len(),
            spec_after_last(s@, c, upto as int) == spec_after_last(s@, c, len as int),
        decreases upto,
    {
        if s.get_char(upto - 1) == c {
            return upto;
        }
        upto = upto - 1;
    }
    0
}

/// Reads the file extension out of a path, as `spec_ext_of` states.
pub fn extension_of(path: &str) -> (r: String)
    ensures
        r@ == spec_ext_of(path@),
{
    let len = path.unicode_len();
    let name_start = after_last(path, '/');
    let name = path.substring_char(name_start, len);
    let nlen = name.unicode_len();
    let dot = after_last(name, '.');
    if dot <= 1 {
        proof {
            assert(spec_ext_of(path@) =~= Seq::<char>::empty());
        }
        String::new()
    } else {
        let piece = name.substring_char(dot, nlen);
        proof {
            assert(piece@ =~= spec_ext_of(path@));
        }
        String::from_str(piece)
    }
}

/// The size limit, in bytes, for each kind of file.
pub open spec fn spec_size_limit(t: FileType) -> u64 {
    match t {
        FileType::Image => 52428800u64,
        FileType::Document => 104857600u64,
        FileType::Text => 10485760u64,
        FileType::Unsupported => u64::MAX,
    }
}

/// The rejection message for an oversized file of each kind.
pub open spec fn spec_size_error(t: FileType, size: u64) -> Seq<char> {
    let tail = spec_dec_u64(size as nat) + " bytes"@;
    match t {
        FileType::Image => "Image file too large: "@ + tail,
        FileType::Document => "Document file too large: "@ + tail,
        _ => "Text file too large: "@ + tail,
    }
}

/// Accepts an attachment whose size fits the limit of its kind — 50 MiB
/// for images, 100 MiB for documents, 10 MiB for text — and rejects any
/// other with a message naming the size.
pub fn validate_file_for_llm(attachment: &Attachment) -> (r: Result<(), String>)
    ensures
        ({
            let t = spec_file_type(spec_ext_of(attachment.file_path@));
            match r {
                Ok(_) => attachment.file_size <= spec_size_limit(t),
                Err(msg) => attachment.file_size > spec_size_limit(t) && msg@ == spec_size_error(
                    t,
                    attachment.file_size,
                ),
            }
        }),
{
    let ext = extension_of(attachment.file_path.as_str());
    let file_type = FileType::from_extension(ext.as_str());
    let limit: u64 = match file_type {
        FileType::Image => 52428800,
        FileType::Document => 104857600,
        FileType::Text => 10485760,
        FileType::Unsupported => u64::MAX,
    };
    if attachment.file_size <= limit {
        return Ok(());
    }
    let head: &'static str = match file_type {
        FileType::Image => "Image file too large: ",
        FileType::Document => "Document file too large: ",
        _ => "Text file too large: ",
    };
    let mut msg = String::from_str(head);
    msg.append(u64_to_dec(attachment.file_size).as_str());
    msg.append(" bytes");
    proof {
        let t = spec_file_type(spec_ext_of(attachment.file_path@));
        assert(msg@ =~= spec_size_error(t, attachment.file_size));
    }
    Err(msg)
}

/// The MIME type conventionally named by a file extension, compared
/// ignoring ASCII case; an unknown extension is plain text.
pub open spec fn spec_mime_of(ext: Seq<char>) -> Seq<char> {
    if eq_nocase(ext, "jpg"@) || eq_nocase(ext, "jpeg"@) {
        "image/jpeg"@
    } else if eq_nocase(ext, "png"@) {
        "image/png"@
    } else if eq_nocase(ext, "gif"@) {
        "image/gif"@
    } else if eq_nocase(ext, "bmp"@) {
        "image/bmp"@
    } else if eq_nocase(ext, "webp"@) {
        "image/webp"@
    } else if eq_nocase(ext, "svg"@) {
        "image/svg+xml"@
    } else if eq_nocase(ext, "tiff"@) {
        "image/tiff"@
    } else if eq_nocase(ext, "ico"@) {
        "image/x-icon"@
    } else if eq_nocase(ext, "pdf"@) {
        "application/pdf"@
    } else if eq_nocase(ext, "doc"@) {
        "application/msword"@
    } else if eq_nocase(ext, "docx"@) {
        "application/vnd.openxmlformats-officedocument.wordprocessingml.document"@
    } else if eq_nocase(ext, "xls"@) {
        "application/vnd.ms-excel"@
    } else if eq_nocase(ext, "xlsx"@) {
        "application/vnd.openxmlformats-officedocument.spreadsheetml.sheet"@
    } else if eq_nocase(ext, "ppt"@) {
        "application/vnd.ms-powerpoint"@
    } else if eq_nocase(ext, "pptx"@) {
        "application/vnd.openxmlformats-officedocument.presentationml.presentation"@
    } else if eq_nocase(ext, "odt"@) {
        "application/vnd.oasis.opendocument.text"@
    } else if eq_nocase(ext, "ods"@) {
        "application/vnd.oasis.opendocument.spreadsheet"@
    } else if eq_nocase(ext, "odp"@) {
        "application/vnd.oasis.opendocument.presentation"@
    } else if eq_nocase(ext, "txt"@) || eq_nocase(ext, "log"@) || eq_nocase(ext, "ini"@)
        || eq_nocase(ext, "cfg"@) || eq_nocase(ext, "conf"@) {
        "text/plain"@
    } else if eq_nocase(ext, "md"@) {
        "text/markdown"@
    } else if eq_nocase(ext, "json"@) {
        "application/json"@
    } else if eq_nocase(ext, "xml"@) {
        "application/xml"@
    } else if eq_nocase(ext, "csv"@) {
        "text/csv"@
    } else if eq_nocase(ext, "yaml"@) || eq_nocase(ext, "yml"@) {
        "text/yaml"@
    } else if eq_nocase(ext, "html"@) {
        "text/html"@
    } else if eq_nocase(ext, "css"@) {
        "text/css"@
    } else if eq_nocase(ext, "py"@) {
        "text/x-python"@
    } else if eq_nocase(ext, "rs"@) {
        "text/x-rust"@
    } else if eq_nocase(ext, "js"@) {
        "text/javascript"@
    } else if eq_nocase(ext, "ts"@) {
        "text/typescript"@
    } else if eq_nocase(ext, "sh"@) || eq_nocase(ext, "bash"@) || eq_nocase(ext, "zsh"@) {
        "text/x-shellscript"@
    } else if eq_nocase(ext, "c"@) || eq_nocase(ext, "h"@) {
        "text/x-c"@
    } else if eq_nocase(ext, "cpp"@) || eq_nocase(ext, "hpp"@) {
        "text/x-c++"@
    } else if eq_nocase(ext, "java"@) {
        "text/x-java"@
    } else if eq_nocase(ext, "go"@) {
        "text/x-go"@
    } else if eq_nocase(ext, "php"@) {
        "text/x-php"@
    } else if eq_nocase(ext, "rb"@) {
        "text/x-ruby"@
    } else if eq_nocase(ext, "swift"@) {
        "text/x-swift"@
    } else if eq_nocase(ext, "kt"@) {
        "text/x-kotlin"@
    } else if eq_nocase(ext, "scala"@) {
        "text/x-scala"@
    } else if eq_nocase(ext, "r"@) {
        "text/x-r"@
    } else if eq_nocase(ext, "m"@) {
        "text/x-objective-c"@
    } else if eq_nocase(ext, "pl"@) {
        "text/x-perl"@
    } else if eq_nocase(ext, "lua"@) {
        "text/x-lua"@
    } else if eq_nocase(ext, "sql"@) {
        "text/x-sql"@
    } else if eq_nocase(ext, "toml"@) {
        "text/x-toml"@
    } else {
        "text/plain"@
    }
}

/// Maps a file extension to its MIME type, as `spec_mime_of` states.
pub fn get_mime_type_from_extension(extension: &str) -> (r: String)
    ensures
        r@ == spec_mime_of(extension@),
{
    let name: &'static str = if str_eq_nocase(extension, "jpg") || str_eq_nocase(
        extension,
        "jpeg",
    ) {
        "image/jpeg"
    } else if str_eq_nocase(extension, "png") {
        "image/png"
    } else if str_eq_nocase(extension, "gif") {
        "image/gif"
    } else if str_eq_nocase(extension, "bmp") {
        "image/bmp"
    } else if str_eq_nocase(extension, "webp") {
        "image/webp"
    } else if str_eq_nocase(extension, "svg") {
        "image/svg+xml"
    } else if str_eq_nocase(extension, "tiff") {
        "image/tiff"
    } else if str_eq_nocase(extension, "ico") {
        "image/x-icon"
    } else if str_eq_nocase(extension, "pdf") {
        "application/pdf"
    } else if str_eq_nocase(extension, "doc") {
        "application/msword"
    } else if str_eq_nocase(extension, "docx") {
        "application/vnd.openxmlformats-officedocument.wordprocessingml.document"
    } else if str_eq_nocase(extension, "xls") {
        "application/vnd.ms-excel"
    } else if str_eq_nocase(extension, "xlsx") {
        "application/vnd.openxmlformats-officedocument.spreadsheetml.sheet"
    } else if str_eq_nocase(extension, "ppt") {
        "application/vnd.ms-powerpoint"
    } else if str_eq_nocase(extension, "pptx") {
        "application/vnd.openxmlformats-officedocument.presentationml.presentation"
    } else if str_eq_nocase(extension, "odt") {
        "application/vnd.oasis.opendocument.text"
    } else if str_eq_nocase(extension, "ods") {
        "application/vnd.oasis.opendocument.spreadsheet"
    } else if str_eq_nocase(extension, "odp") {
        "application/vnd.oasis.opendocument.presentation"
    } else if str_eq_nocase(extension, "txt") || str_eq_nocase(extension, "log") || str_eq_nocase(
        extension,
        "ini",
    ) || str_eq_nocase(extension, "cfg") || str_eq_nocase(extension, "conf") {
        "text/plain"
    } else if str_eq_nocase(extension, "md") {
        "text/markdown"
    } else if str_eq_nocase(extension, "json") {
        "application/json"
    } else if str_eq_nocase(extension, "xml") {
        "application/xml"
    } else if str_eq_nocase(extension, "csv") {
        "text/csv"
    } else if str_eq_nocase(extension, "yaml") || str_eq_nocase(extension, "yml") {
        "text/yaml"
    } else if str_eq_nocase(extension, "html") {
        "text/html"
    } else if str_eq_nocase(extension, "css") {
        "text/css"
    } else if str_eq_nocase(extension, "py") {
        "text/x-python"
    } else if str_eq_nocase(extension, "rs") {
        "text/x-rust"
    } else if str_eq_nocase(extension, "js") {
        "text/javascript"
    } else if str_eq_nocase(extension, "ts") {
        "text/typescript"
    } else if str_eq_nocase(extension, "sh") || str_eq_nocase(extension, "bash") || str_eq_nocase(
        extension,
        "zsh",
    ) {
        "text/x-shellscript"
    } else if str_eq_nocase(extension, "c") || str_eq_nocase(extension, "h") {
        "text/x-c"
    } else if str_eq_nocase(extension, "cpp") || str_eq_nocase(extension, "hpp") {
        "text/x-c++"
    } else if str_eq_nocase(extension, "java") {
        "text/x-java"
    } else if str_eq_nocase(extension, "go") {
        "text/x-go"
    } else if str_eq_nocase(extension, "php") {
        "text/x-php"
    } else if str_eq_nocase(extension, "rb") {
        "text/x-ruby"
    } else if str_eq_nocase(extension, "swift") {
        "text/x-swift"
    } else if str_eq_nocase(extension, "kt") {
        "text/x-kotlin"
    } else if str_eq_nocase(extension, "scala") {
        "text/x-scala"
    } else if str_eq_nocase(extension, "r") {
        "text/x-r"
    } else if str_eq_nocase(extension, "m") {
        "text/x-objective-c"
    } else if str_eq_nocase(extension, "pl") {
        "text/x-perl"
    } else if str_eq_nocase(extension, "lua") {
        "text/x-lua"
    } else if str_eq_nocase(extension, "sql") {
        "text/x-sql"
    } else if str_eq_nocase(extension, "toml") {
        "text/x-toml"
    } else {
        "text/plain"
    };
    String::from_str(name)
}

} // verus!
