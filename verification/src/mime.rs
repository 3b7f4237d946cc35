//! MIME type mapping based on file extensions.
//!
//! The table follows the common types listed by MDN.

use vstd::prelude::*;

use crate::text::{chars_of, starts_with};

verus! {

/// The lowercase form of a string as `str::to_lowercase` computes it
/// (Unicode `Lowercase` mapping).
pub uninterp spec fn unicode_lowercase(s: Seq<char>) -> Seq<char>;

/// Whether every character of `s` is ASCII.
pub open spec fn is_ascii_text(s: Seq<char>) -> bool {
    forall|i: int| 0 <= i < s.len() ==> (#[trigger] s[i] as u32) < 128
}

/// `c` with `A`-`Z` turned into `a`-`z`.
pub open spec fn ascii_lower_char(c: char) -> char {
    if 'A' <= c <= 'Z' {
        ((c as u32) + 32) as char
    } else {
        c
    }
}

/// `s` with each ASCII capital letter turned into its small letter.
pub open spec fn ascii_lowercase(s: Seq<char>) -> Seq<char> {
    s.map_values(|c: char| ascii_lower_char(c))
}

/// Calls `str::to_lowercase`; its result is named [`unicode_lowercase`] of
/// the input's characters, which depends on the input alone. On ASCII text
/// the Unicode lowercase mapping turns `A`-`Z` into `a`-`z` and keeps every
/// other character, which the second clause states.
#[verifier::external_body]
pub(crate) fn to_lowercase(s: &str) -> (r: String)
    ensures
        r@ == unicode_lowercase(s@),
        is_ascii_text(s@) ==> r@ == ascii_lowercase(s@),
{
    s.to_lowercase()
}

/// Whether the characters `v` spell out `lit`.
pub fn eq_literal(v: &Vec<char>, lit: &str) -> (r: bool)
    ensures
        r == (v@ == lit@),
{
    let w = chars_of(lit);
    if v.len() != w.len() {
        return false;
    }
    let mut i: usize = 0;
    while i < v.len()
        invariant
            i <= v@.len() == w@.len(),
            w@ == lit@,
            forall|j: int| 0 <= j < i ==> v@[j] == w@[j],
        decreases v.len() - i,
    {
        if v[i] != w[i] {
            assert(v@[i as int] != w@[i as int]);
            return false;
        }
        i = i + 1;
    }
    assert(v@ =~= w@);
    true
}

/// The MIME type registered for a (lowercase) file extension, or
/// `application/octet-stream` for any other.
pub open spec fn mime_type_of(ext: Seq<char>) -> Seq<char> {
    if ext == "aac"@ {
        "audio/aac"@
    } else if ext == "midi"@ {
        "audio/midi"@
    } else if ext == "mid"@ {
        "audio/midi"@
    } else if ext == "mp3"@ {
        "audio/mpeg"@
    } else if ext == "oga"@ {
        "audio/ogg"@
    } else if ext == "opus"@ {
        "audio/ogg"@
    } else if ext == "wav"@ {
        "audio/wav"@
    } else if ext == "weba"@ {
        "audio/webm"@
    } else if ext == "avi"@ {
        "video/x-msvideo"@
    } else if ext == "mp4"@ {
        "video/mp4"@
    } else if ext == "mpeg"@ {
        "video/mpeg"@
    } else if ext == "ogv"@ {
        "video/ogg"@
    } else if ext == "webm"@ {
        "video/webm"@
    } else if ext == "3gp"@ {
        "video/3gpp"@
    } else if ext == "3g2"@ {
        "video/3gpp2"@
    } else if ext == "ts"@ {
        "video/mp2t"@
    } else if ext == "apng"@ {
        "image/apng"@
    } else if ext == "avif"@ {
        "image/avif"@
    } else if ext == "bmp"@ {
        "image/bmp"@
    } else if ext == "gif"@ {
        "image/gif"@
    } else if ext == "ico"@ {
        "image/vnd.microsoft.icon"@
    } else if ext == "jpeg"@ {
        "image/jpeg"@
    } else if ext == "jpg"@ {
        "image/jpeg"@
    } else if ext == "png"@ {
        "image/png"@
    } else if ext == "svg"@ {
        "image/svg+xml"@
    } else if ext == "tif"@ {
        "image/tiff"@
    } else if ext == "tiff"@ {
        "image/tiff"@
    } else if ext == "webp"@ {
        "image/webp"@
    } else if ext == "eot"@ {
        "application/vnd.ms-fontobject"@
    } else if ext == "otf"@ {
        "font/otf"@
    } else if ext == "ttf"@ {
        "font/ttf"@
    } else if ext == "woff"@ {
        "font/woff"@
    } else if ext == "woff2"@ {
        "font/woff2"@
    } else if ext == "css"@ {
        "text/css"@
    } else if ext == "csv"@ {
        "text/csv"@
    } else if ext == "html"@ {
        "text/html"@
    } else if ext == "htm"@ {
        "text/html"@
    } else if ext == "ics"@ {
        "text/calendar"@
    } else if ext == "js"@ {
        "text/javascript"@
    } else if ext == "cjs"@ {
        "text/javascript"@
    } else if ext == "mjs"@ {
        "text/javascript"@
    } else if ext == "txt"@ {
        "text/plain"@
    } else if ext == "xml"@ {
        "application/xml"@
    } else if ext == "json"@ {
        "application/json"@
    } else if ext == "jsonld"@ {
        "application/ld+json"@
    } else if ext == "pdf"@ {
        "application/pdf"@
    } else if ext == "wasm"@ {
        "application/wasm"@
    } else if ext == "xhtml"@ {
        "application/xhtml+xml"@
    } else if ext == "zip"@ {
        "application/zip"@
    } else if ext == "7z"@ {
        "application/x-7z-compressed"@
    } else if ext == "gz"@ {
        "application/gzip"@
    } else if ext == "tar"@ {
        "application/x-tar"@
    } else if ext == "rar"@ {
        "application/vnd.rar"@
    } else if ext == "bz"@ {
        "application/x-bzip"@
    } else if ext == "bz2"@ {
        "application/x-bzip2"@
    } else if ext == "bin"@ {
        "application/octet-stream"@
    } else if ext == "sh"@ {
        "application/x-sh"@
    } else if ext == "csh"@ {
        "application/x-csh"@
    } else if ext == "jar"@ {
        "application/java-archive"@
    } else if ext == "php"@ {
        "application/x-httpd-php"@
    } else if ext == "rtf"@ {
        "application/rtf"@
    } else if ext == "doc"@ {
        "application/msword"@
    } else if ext == "docx"@ {
        "application/vnd.openxmlformats-officedocument.wordprocessingml.document"@
    } else if ext == "xls"@ {
        "application/vnd.ms-excel"@
    } else if ext == "xlsx"@ {
        "application/vnd.openxmlformats-officedocument.spreadsheetml.sheet"@
    } else if ext == "ppt"@ {
        "application/vnd.ms-powerpoint"@
    } else if ext == "pptx"@ {
        "application/vnd.openxmlformats-officedocument.presentationml.presentation"@
    } else if ext == "odt"@ {
        "application/vnd.oasis.opendocument.text"@
    } else if ext == "ods"@ {
        "application/vnd.oasis.opendocument.spreadsheet"@
    } else if ext == "odp"@ {
        "application/vnd.oasis.opendocument.presentation"@
    } else if ext == "abw"@ {
        "application/x-abiword"@
    } else if ext == "arc"@ {
        "application/x-freearc"@
    } else if ext == "azw"@ {
        "application/vnd.amazon.ebook"@
    } else if ext == "cda"@ {
        "application/x-cdf"@
    } else if ext == "epub"@ {
        "application/epub+zip"@
    } else if ext == "mpkg"@ {
        "application/vnd.apple.installer+xml"@
    } else if ext == "ogx"@ {
        "application/ogg"@
    } else if ext == "vsd"@ {
        "application/vnd.visio"@
    } else if ext == "xul"@ {
        "application/vnd.mozilla.xul+xml"@
    } else {
        "application/octet-stream"@
    }
}

/// The MIME type for a file extension, compared case-insensitively.
pub fn get_mime_type(extension: &str) -> (r: &'static str)
    ensures
        r@ == mime_type_of(unicode_lowercase(extension@)),
        is_ascii_text(extension@) ==> r@ == mime_type_of(ascii_lowercase(extension@)),
{
    let lower = to_lowercase(extension);
    let c = chars_of(lower.as_str());
    if eq_literal(&c, "aac") {
        "audio/aac"
    } else if eq_literal(&c, "midi") {
        "audio/midi"
    } else if eq_literal(&c, "mid") {
        "audio/midi"
    } else if eq_literal(&c, "mp3") {
        "audio/mpeg"
    } else if eq_literal(&c, "oga") {
        "audio/ogg"
    } else if eq_literal(&c, "opus") {
        "audio/ogg"
    } else if eq_literal(&c, "wav") {
        "audio/wav"
    } else if eq_literal(&c, "weba") {
        "audio/webm"
    } else if eq_literal(&c, "avi") {
        "video/x-msvideo"
    } else if eq_literal(&c, "mp4") {
        "video/mp4"
    } else if eq_literal(&c, "mpeg") {
        "video/mpeg"
    } else if eq_literal(&c, "ogv") {
        "video/ogg"
    } else if eq_literal(&c, "webm") {
        "video/webm"
    } else if eq_literal(&c, "3gp") {
        "video/3gpp"
    } else if eq_literal(&c, "3g2") {
        "video/3gpp2"
    } else if eq_literal(&c, "ts") {
        "video/mp2t"
    } else if eq_literal(&c, "apng") {
        "image/apng"
    } else if eq_literal(&c, "avif") {
        "image/avif"
    } else if eq_literal(&c, "bmp") {
        "image/bmp"
    } else if eq_literal(&c, "gif") {
        "image/gif"
    } else if eq_literal(&c, "ico") {
        "image/vnd.microsoft.icon"
    } else if eq_literal(&c, "jpeg") {
        "image/jpeg"
    } else if eq_literal(&c, "jpg") {
        "image/jpeg"
    } else if eq_literal(&c, "png") {
        "image/png"
    } else if eq_literal(&c, "svg") {
        "image/svg+xml"
    } else if eq_literal(&c, "tif") {
        "image/tiff"
    } else if eq_literal(&c, "tiff") {
        "image/tiff"
    } else if eq_literal(&c, "webp") {
        "image/webp"
    } else if eq_literal(&c, "eot") {
        "application/vnd.ms-fontobject"
    } else if eq_literal(&c, "otf") {
        "font/otf"
    } else if eq_literal(&c, "ttf") {
        "font/ttf"
    } else if eq_literal(&c, "woff") {
        "font/woff"
    } else if eq_literal(&c, "woff2") {
        "font/woff2"
    } else if eq_literal(&c, "css") {
        "text/css"
    } else if eq_literal(&c, "csv") {
        "text/csv"
    } else if eq_literal(&c, "html") {
        "text/html"
    } else if eq_literal(&c, "htm") {
        "text/html"
    } else if eq_literal(&c, "ics") {
        "text/calendar"
    } else if eq_literal(&c, "js") {
        "text/javascript"
    } else if eq_literal(&c, "cjs") {
        "text/javascript"
    } else if eq_literal(&c, "mjs") {
        "text/javascript"
    } else if eq_literal(&c, "txt") {
        "text/plain"
    } else if eq_literal(&c, "xml") {
        "application/xml"
    } else if eq_literal(&c, "json") {
        "application/json"
    } else if eq_literal(&c, "jsonld") {
        "application/ld+json"
    } else if eq_literal(&c, "pdf") {
        "application/pdf"
    } else if eq_literal(&c, "wasm") {
        "application/wasm"
    } else if eq_literal(&c, "xhtml") {
        "application/xhtml+xml"
    } else if eq_literal(&c, "zip") {
        "application/zip"
    } else if eq_literal(&c, "7z") {
        "application/x-7z-compressed"
    } else if eq_literal(&c, "gz") {
        "application/gzip"
    } else if eq_literal(&c, "tar") {
        "application/x-tar"
    } else if eq_literal(&c, "rar") {
        "application/vnd.rar"
    } else if eq_literal(&c, "bz") {
        "application/x-bzip"
    } else if eq_literal(&c, "bz2") {
        "application/x-bzip2"
    } else if eq_literal(&c, "bin") {
        "application/octet-stream"
    } else if eq_literal(&c, "sh") {
        "application/x-sh"
    } else if eq_literal(&c, "csh") {
        "application/x-csh"
    } else if eq_literal(&c, "jar") {
        "application/java-archive"
    } else if eq_literal(&c, "php") {
        "application/x-httpd-php"
    } else if eq_literal(&c, "rtf") {
        "application/rtf"
    } else if eq_literal(&c, "doc") {
        "application/msword"
    } else if eq_literal(&c, "docx") {
        "application/vnd.openxmlformats-officedocument.wordprocessingml.document"
    } else if eq_literal(&c, "xls") {
        "application/vnd.ms-excel"
    } else if eq_literal(&c, "xlsx") {
        "application/vnd.openxmlformats-officedocument.spreadsheetml.sheet"
    } else if eq_literal(&c, "ppt") {
        "application/vnd.ms-powerpoint"
    } else if eq_literal(&c, "pptx") {
        "application/vnd.openxmlformats-officedocument.presentationml.presentation"
    } else if eq_literal(&c, "odt") {
        "application/vnd.oasis.opendocument.text"
    } else if eq_literal(&c, "ods") {
        "application/vnd.oasis.opendocument.spreadsheet"
    } else if eq_literal(&c, "odp") {
        "application/vnd.oasis.opendocument.presentation"
    } else if eq_literal(&c, "abw") {
        "application/x-abiword"
    } else if eq_literal(&c, "arc") {
        "application/x-freearc"
    } else if eq_literal(&c, "azw") {
        "application/vnd.amazon.ebook"
    } else if eq_literal(&c, "cda") {
        "application/x-cdf"
    } else if eq_literal(&c, "epub") {
        "application/epub+zip"
    } else if eq_literal(&c, "mpkg") {
        "application/vnd.apple.installer+xml"
    } else if eq_literal(&c, "ogx") {
        "application/ogg"
    } else if eq_literal(&c, "vsd") {
        "application/vnd.visio"
    } else if eq_literal(&c, "xul") {
        "application/vnd.mozilla.xul+xml"
    } else {
        "application/octet-stream"
    }
}

/// Lowercasing ASCII text gives ASCII text that lowercasing leaves alone.
proof fn lemma_ascii_lowercase_idempotent(s: Seq<char>)
    requires
        is_ascii_text(s),
    ensures
        is_ascii_text(ascii_lowercase(s)),
        ascii_lowercase(ascii_lowercase(s)) == ascii_lowercase(s),
{
    let t = ascii_lowercase(s);
    assert forall|i: int| 0 <= i < t.len() implies (#[trigger] t[i] as u32) < 128
        && ascii_lower_char(t[i]) == t[i] by {
        assert((s[i] as u32) < 128);
    }
    assert(ascii_lowercase(t) =~= t);
}

/// MIME lookup ignores the case of an ASCII extension: an extension and
/// its lowercase form give the same type.
pub proof fn lemma_mime_lookup_ignores_ascii_case(ext: Seq<char>)
    requires
        is_ascii_text(ext),
    ensures
        is_ascii_text(ascii_lowercase(ext)),
        mime_type_of(ascii_lowercase(ascii_lowercase(ext))) == mime_type_of(ascii_lowercase(ext)),
{
    lemma_ascii_lowercase_idempotent(ext);
}

/// The image formats of the table.
pub open spec fn is_image_extension(ext: Seq<char>) -> bool {
    ext == "apng"@
        || ext == "avif"@
        || ext == "bmp"@
        || ext == "gif"@
        || ext == "ico"@
        || ext == "jpeg"@
        || ext == "jpg"@
        || ext == "png"@
        || ext == "svg"@
        || ext == "tif"@
        || ext == "tiff"@
        || ext == "webp"@
}

/// The image formats whose MIME subtype is their extension.
pub open spec fn names_image_subtype(ext: Seq<char>) -> bool {
    ext == "apng"@
        || ext == "avif"@
        || ext == "bmp"@
        || ext == "gif"@
        || ext == "jpeg"@
        || ext == "png"@
        || ext == "tiff"@
        || ext == "webp"@
}

/// The XML-based image formats whose MIME subtype is their extension with `+xml`.
pub open spec fn names_image_xml_subtype(ext: Seq<char>) -> bool {
    ext == "svg"@
}

/// Every image format of the table, in any ASCII case, gets a `image/*`
/// type, named after the format where the table names it so.
pub proof fn lemma_image_extensions_get_image_types(ext: Seq<char>)
    requires
        is_ascii_text(ext),
        is_image_extension(ascii_lowercase(ext)),
    ensures
        starts_with(mime_type_of(ascii_lowercase(ext)), "image/"@),
        names_image_subtype(ascii_lowercase(ext)) ==> mime_type_of(ascii_lowercase(ext))
            == "image/"@ + ascii_lowercase(ext),
        names_image_xml_subtype(ascii_lowercase(ext)) ==> mime_type_of(ascii_lowercase(ext))
            == "image/"@ + ascii_lowercase(ext) + "+xml"@,
{
    reveal_strlit("+xml");
    reveal_strlit("3g2");
    reveal_strlit("3gp");
    reveal_strlit("7z");
    reveal_strlit("aac");
    reveal_strlit("abw");
    reveal_strlit("apng");
    reveal_strlit("arc");
    reveal_strlit("avi");
    reveal_strlit("avif");
    reveal_strlit("azw");
    reveal_strlit("bin");
    reveal_strlit("bmp");
    reveal_strlit("bz");
    reveal_strlit("bz2");
    reveal_strlit("cda");
    reveal_strlit("cjs");
    reveal_strlit("csh");
    reveal_strlit("css");
    reveal_strlit("csv");
    reveal_strlit("doc");
    reveal_strlit("docx");
    reveal_strlit("eot");
    reveal_strlit("epub");
    reveal_strlit("gif");
    reveal_strlit("gz");
    reveal_strlit("htm");
    reveal_strlit("html");
    reveal_strlit("ico");
    reveal_strlit("ics");
    reveal_strlit("image/");
    reveal_strlit("image/apng");
    reveal_strlit("image/avif");
    reveal_strlit("image/bmp");
    reveal_strlit("image/gif");
    reveal_strlit("image/jpeg");
    reveal_strlit("image/png");
    reveal_strlit("image/svg+xml");
    reveal_strlit("image/tiff");
    reveal_strlit("image/vnd.microsoft.icon");
    reveal_strlit("image/webp");
    reveal_strlit("jar");
    reveal_strlit("jpeg");
    reveal_strlit("jpg");
    reveal_strlit("js");
    reveal_strlit("json");
    reveal_strlit("jsonld");
    reveal_strlit("mid");
    reveal_strlit("midi");
    reveal_strlit("mjs");
    reveal_strlit("mp3");
    reveal_strlit("mp4");
    reveal_strlit("mpeg");
    reveal_strlit("mpkg");
    reveal_strlit("odp");
    reveal_strlit("ods");
    reveal_strlit("odt");
    reveal_strlit("oga");
    reveal_strlit("ogv");
    reveal_strlit("ogx");
    reveal_strlit("opus");
    reveal_strlit("otf");
    reveal_strlit("pdf");
    reveal_strlit("php");
    reveal_strlit("png");
    reveal_strlit("ppt");
    reveal_strlit("pptx");
    reveal_strlit("rar");
    reveal_strlit("rtf");
    reveal_strlit("sh");
    reveal_strlit("svg");
    reveal_strlit("tar");
    reveal_strlit("tif");
    reveal_strlit("tiff");
    reveal_strlit("ts");
    reveal_strlit("ttf");
    reveal_strlit("txt");
    reveal_strlit("vsd");
    reveal_strlit("wasm");
    reveal_strlit("wav");
    reveal_strlit("weba");
    reveal_strlit("webm");
    reveal_strlit("webp");
    reveal_strlit("woff");
    reveal_strlit("woff2");
    reveal_strlit("xhtml");
    reveal_strlit("xls");
    reveal_strlit("xlsx");
    reveal_strlit("xml");
    reveal_strlit("xul");
    reveal_strlit("zip");
    let l = ascii_lowercase(ext);
    if l == "apng"@ {
        assert(l.len() == 4 && l[0] == 'a' && l[1] == 'p' && l[2] == 'n' && l[3] == 'g');
        assert(mime_type_of(l) == "image/apng"@);
        assert(mime_type_of(l).take(6) =~= "image/"@);
        assert(mime_type_of(l) =~= "image/"@ + l);
    } else if l == "avif"@ {
        assert(l.len() == 4 && l[0] == 'a' && l[1] == 'v' && l[2] == 'i' && l[3] == 'f');
        assert(mime_type_of(l) == "image/avif"@);
        assert(mime_type_of(l).take(6) =~= "image/"@);
        assert(mime_type_of(l) =~= "image/"@ + l);
    } else if l == "bmp"@ {
        assert(l.len() == 3 && l[0] == 'b' && l[1] == 'm' && l[2] == 'p');
        assert(mime_type_of(l) == "image/bmp"@);
        assert(mime_type_of(l).take(6) =~= "image/"@);
        assert(mime_type_of(l) =~= "image/"@ + l);
    } else if l == "gif"@ {
        assert(l.len() == 3 && l[0] == 'g' && l[1] == 'i' && l[2] == 'f');
        assert(mime_type_of(l) == "image/gif"@);
        assert(mime_type_of(l).take(6) =~= "image/"@);
        assert(mime_type_of(l) =~= "image/"@ + l);
    } else if l == "ico"@ {
        assert(l.len() == 3 && l[0] == 'i' && l[1] == 'c' && l[2] == 'o');
        assert(mime_type_of(l) == "image/vnd.microsoft.icon"@);
        assert(mime_type_of(l).take(6) =~= "image/"@);
    } else if l == "jpeg"@ {
        assert(l.len() == 4 && l[0] == 'j' && l[1] == 'p' && l[2] == 'e' && l[3] == 'g');
        assert(mime_type_of(l) == "image/jpeg"@);
        assert(mime_type_of(l).take(6) =~= "image/"@);
        assert(mime_type_of(l) =~= "image/"@ + l);
    } else if l == "jpg"@ {
        assert(l.len() == 3 && l[0] == 'j' && l[1] == 'p' && l[2] == 'g');
        assert(mime_type_of(l) == "image/jpeg"@);
        assert(mime_type_of(l).take(6) =~= "image/"@);
    } else if l == "png"@ {
        assert(l.len() == 3 && l[0] == 'p' && l[1] == 'n' && l[2] == 'g');
        assert(mime_type_of(l) == "image/png"@);
        assert(mime_type_of(l).take(6) =~= "image/"@);
        assert(mime_type_of(l) =~= "image/"@ + l);
    } else if l == "svg"@ {
        assert(l.len() == 3 && l[0] == 's' && l[1] == 'v' && l[2] == 'g');
        assert(mime_type_of(l) == "image/svg+xml"@);
        assert(mime_type_of(l).take(6) =~= "image/"@);
        assert(mime_type_of(l) =~= "image/"@ + l + "+xml"@);
    } else if l == "tif"@ {
        assert(l.len() == 3 && l[0] == 't' && l[1] == 'i' && l[2] == 'f');
        assert(mime_type_of(l) == "image/tiff"@);
        assert(mime_type_of(l).take(6) =~= "image/"@);
    } else if l == "tiff"@ {
        assert(l.len() == 4 && l[0] == 't' && l[1] == 'i' && l[2] == 'f' && l[3] == 'f');
        assert(mime_type_of(l) == "image/tiff"@);
        assert(mime_type_of(l).take(6) =~= "image/"@);
        assert(mime_type_of(l) =~= "image/"@ + l);
    } else if l == "webp"@ {
        assert(l.len() == 4 && l[0] == 'w' && l[1] == 'e' && l[2] == 'b' && l[3] == 'p');
        assert(mime_type_of(l) == "image/webp"@);
        assert(mime_type_of(l).take(6) =~= "image/"@);
        assert(mime_type_of(l) =~= "image/"@ + l);
    }
}

/// The audio formats of the table.
pub open spec fn is_audio_extension(ext: Seq<char>) -> bool {
    ext == "aac"@
        || ext == "midi"@
        || ext == "mid"@
        || ext == "mp3"@
        || ext == "oga"@
        || ext == "opus"@
        || ext == "wav"@
        || ext == "weba"@
}

/// The audio formats whose MIME subtype is their extension.
pub open spec fn names_audio_subtype(ext: Seq<char>) -> bool {
    ext == "aac"@
        || ext == "midi"@
        || ext == "wav"@
}

/// Every audio format of the table, in any ASCII case, gets a `audio/*`
/// type, named after the format where the table names it so.
pub proof fn lemma_audio_extensions_get_audio_types(ext: Seq<char>)
    requires
        is_ascii_text(ext),
        is_audio_extension(ascii_lowercase(ext)),
    ensures
        starts_with(mime_type_of(ascii_lowercase(ext)), "audio/"@),
        names_audio_subtype(ascii_lowercase(ext)) ==> mime_type_of(ascii_lowercase(ext))
            == "audio/"@ + ascii_lowercase(ext),
{
    reveal_strlit("3g2");
    reveal_strlit("3gp");
    reveal_strlit("7z");
    reveal_strlit("aac");
    reveal_strlit("abw");
    reveal_strlit("apng");
    reveal_strlit("arc");
    reveal_strlit("audio/");
    reveal_strlit("audio/aac");
    reveal_strlit("audio/midi");
    reveal_strlit("audio/mpeg");
    reveal_strlit("audio/ogg");
    reveal_strlit("audio/wav");
    reveal_strlit("audio/webm");
    reveal_strlit("avi");
    reveal_strlit("avif");
    reveal_strlit("azw");
    reveal_strlit("bin");
    reveal_strlit("bmp");
    reveal_strlit("bz");
    reveal_strlit("bz2");
    reveal_strlit("cda");
    reveal_strlit("cjs");
    reveal_strlit("csh");
    reveal_strlit("css");
    reveal_strlit("csv");
    reveal_strlit("doc");
    reveal_strlit("docx");
    reveal_strlit("eot");
    reveal_strlit("epub");
    reveal_strlit("gif");
    reveal_strlit("gz");
    reveal_strlit("htm");
    reveal_strlit("html");
    reveal_strlit("ico");
    reveal_strlit("ics");
    reveal_strlit("jar");
    reveal_strlit("jpeg");
    reveal_strlit("jpg");
    reveal_strlit("js");
    reveal_strlit("json");
    reveal_strlit("jsonld");
    reveal_strlit("mid");
    reveal_strlit("midi");
    reveal_strlit("mjs");
    reveal_strlit("mp3");
    reveal_strlit("mp4");
    reveal_strlit("mpeg");
    reveal_strlit("mpkg");
    reveal_strlit("odp");
    reveal_strlit("ods");
    reveal_strlit("odt");
    reveal_strlit("oga");
    reveal_strlit("ogv");
    reveal_strlit("ogx");
    reveal_strlit("opus");
    reveal_strlit("otf");
    reveal_strlit("pdf");
    reveal_strlit("php");
    reveal_strlit("png");
    reveal_strlit("ppt");
    reveal_strlit("pptx");
    reveal_strlit("rar");
    reveal_strlit("rtf");
    reveal_strlit("sh");
    reveal_strlit("svg");
    reveal_strlit("tar");
    reveal_strlit("tif");
    reveal_strlit("tiff");
    reveal_strlit("ts");
    reveal_strlit("ttf");
    reveal_strlit("txt");
    reveal_strlit("vsd");
    reveal_strlit("wasm");
    reveal_strlit("wav");
    reveal_strlit("weba");
    reveal_strlit("webm");
    reveal_strlit("webp");
    reveal_strlit("woff");
    reveal_strlit("woff2");
    reveal_strlit("xhtml");
    reveal_strlit("xls");
    reveal_strlit("xlsx");
    reveal_strlit("xml");
    reveal_strlit("xul");
    reveal_strlit("zip");
    let l = ascii_lowercase(ext);
    if l == "aac"@ {
        assert(l.len() == 3 && l[0] == 'a' && l[1] == 'a' && l[2] == 'c');
        assert(mime_type_of(l) == "audio/aac"@);
        assert(mime_type_of(l).take(6) =~= "audio/"@);
        assert(mime_type_of(l) =~= "audio/"@ + l);
    } else if l == "midi"@ {
        assert(l.len() == 4 && l[0] == 'm' && l[1] == 'i' && l[2] == 'd' && l[3] == 'i');
        assert(mime_type_of(l) == "audio/midi"@);
        assert(mime_type_of(l).take(6) =~= "audio/"@);
        assert(mime_type_of(l) =~= "audio/"@ + l);
    } else if l == "mid"@ {
        assert(l.len() == 3 && l[0] == 'm' && l[1] == 'i' && l[2] == 'd');
        assert(mime_type_of(l) == "audio/midi"@);
        assert(mime_type_of(l).take(6) =~= "audio/"@);
    } else if l == "mp3"@ {
        assert(l.len() == 3 && l[0] == 'm' && l[1] == 'p' && l[2] == '3');
        assert(mime_type_of(l) == "audio/mpeg"@);
        assert(mime_type_of(l).take(6) =~= "audio/"@);
    } else if l == "oga"@ {
        assert(l.len() == 3 && l[0] == 'o' && l[1] == 'g' && l[2] == 'a');
        assert(mime_type_of(l) == "audio/ogg"@);
        assert(mime_type_of(l).take(6) =~= "audio/"@);
    } else if l == "opus"@ {
        assert(l.len() == 4 && l[0] == 'o' && l[1] == 'p' && l[2] == 'u' && l[3] == 's');
        assert(mime_type_of(l) == "audio/ogg"@);
        assert(mime_type_of(l).take(6) =~= "audio/"@);
    } else if l == "wav"@ {
        assert(l.len() == 3 && l[0] == 'w' && l[1] == 'a' && l[2] == 'v');
        assert(mime_type_of(l) == "audio/wav"@);
        assert(mime_type_of(l).take(6) =~= "audio/"@);
        assert(mime_type_of(l) =~= "audio/"@ + l);
    } else if l == "weba"@ {
        assert(l.len() == 4 && l[0] == 'w' && l[1] == 'e' && l[2] == 'b' && l[3] == 'a');
        assert(mime_type_of(l) == "audio/webm"@);
        assert(mime_type_of(l).take(6) =~= "audio/"@);
    }
}

/// The video formats of the table.
pub open spec fn is_video_extension(ext: Seq<char>) -> bool {
    ext == "avi"@
        || ext == "mp4"@
        || ext == "mpeg"@
        || ext == "ogv"@
        || ext == "webm"@
        || ext == "3gp"@
        || ext == "3g2"@
        || ext == "ts"@
}

/// The video formats whose MIME subtype is their extension.
pub open spec fn names_video_subtype(ext: Seq<char>) -> bool {
    ext == "mp4"@
        || ext == "mpeg"@
        || ext == "webm"@
}

/// Every video format of the table, in any ASCII case, gets a `video/*`
/// type, named after the format where the table names it so.
pub proof fn lemma_video_extensions_get_video_types(ext: Seq<char>)
    requires
        is_ascii_text(ext),
        is_video_extension(ascii_lowercase(ext)),
    ensures
        starts_with(mime_type_of(ascii_lowercase(ext)), "video/"@),
        names_video_subtype(ascii_lowercase(ext)) ==> mime_type_of(ascii_lowercase(ext))
            == "video/"@ + ascii_lowercase(ext),
{
    reveal_strlit("3g2");
    reveal_strlit("3gp");
    reveal_strlit("7z");
    reveal_strlit("aac");
    reveal_strlit("abw");
    reveal_strlit("apng");
    reveal_strlit("arc");
    reveal_strlit("avi");
    reveal_strlit("avif");
    reveal_strlit("azw");
    reveal_strlit("bin");
    reveal_strlit("bmp");
    reveal_strlit("bz");
    reveal_strlit("bz2");
    reveal_strlit("cda");
    reveal_strlit("cjs");
    reveal_strlit("csh");
    reveal_strlit("css");
    reveal_strlit("csv");
    reveal_strlit("doc");
    reveal_strlit("docx");
    reveal_strlit("eot");
    reveal_strlit("epub");
    reveal_strlit("gif");
    reveal_strlit("gz");
    reveal_strlit("htm");
    reveal_strlit("html");
    reveal_strlit("ico");
    reveal_strlit("ics");
    reveal_strlit("jar");
    reveal_strlit("jpeg");
    reveal_strlit("jpg");
    reveal_strlit("js");
    reveal_strlit("json");
    reveal_strlit("jsonld");
    reveal_strlit("mid");
    reveal_strlit("midi");
    reveal_strlit("mjs");
    reveal_strlit("mp3");
    reveal_strlit("mp4");
    reveal_strlit("mpeg");
    reveal_strlit("mpkg");
    reveal_strlit("odp");
    reveal_strlit("ods");
    reveal_strlit("odt");
    reveal_strlit("oga");
    reveal_strlit("ogv");
    reveal_strlit("ogx");
    reveal_strlit("opus");
    reveal_strlit("otf");
    reveal_strlit("pdf");
    reveal_strlit("php");
    reveal_strlit("png");
    reveal_strlit("ppt");
    reveal_strlit("pptx");
    reveal_strlit("rar");
    reveal_strlit("rtf");
    reveal_strlit("sh");
    reveal_strlit("svg");
    reveal_strlit("tar");
    reveal_strlit("tif");
    reveal_strlit("tiff");
    reveal_strlit("ts");
    reveal_strlit("ttf");
    reveal_strlit("txt");
    reveal_strlit("video/");
    reveal_strlit("video/3gpp");
    reveal_strlit("video/3gpp2");
    reveal_strlit("video/mp2t");
    reveal_strlit("video/mp4");
    reveal_strlit("video/mpeg");
    reveal_strlit("video/ogg");
    reveal_strlit("video/webm");
    reveal_strlit("video/x-msvideo");
    reveal_strlit("vsd");
    reveal_strlit("wasm");
    reveal_strlit("wav");
    reveal_strlit("weba");
    reveal_strlit("webm");
    reveal_strlit("webp");
    reveal_strlit("woff");
    reveal_strlit("woff2");
    reveal_strlit("xhtml");
    reveal_strlit("xls");
    reveal_strlit("xlsx");
    reveal_strlit("xml");
    reveal_strlit("xul");
    reveal_strlit("zip");
    let l = ascii_lowercase(ext);
    if l == "avi"@ {
        assert(l.len() == 3 && l[0] == 'a' && l[1] == 'v' && l[2] == 'i');
        assert(mime_type_of(l) == "video/x-msvideo"@);
        assert(mime_type_of(l).take(6) =~= "video/"@);
    } else if l == "mp4"@ {
        assert(l.len() == 3 && l[0] == 'm' && l[1] == 'p' && l[2] == '4');
        assert(mime_type_of(l) == "video/mp4"@);
        assert(mime_type_of(l).take(6) =~= "video/"@);
        assert(mime_type_of(l) =~= "video/"@ + l);
    } else if l == "mpeg"@ {
        assert(l.len() == 4 && l[0] == 'm' && l[1] == 'p' && l[2] == 'e' && l[3] == 'g');
        assert(mime_type_of(l) == "video/mpeg"@);
        assert(mime_type_of(l).take(6) =~= "video/"@);
        assert(mime_type_of(l) =~= "video/"@ + l);
    } else if l == "ogv"@ {
        assert(l.len() == 3 && l[0] == 'o' && l[1] == 'g' && l[2] == 'v');
        assert(mime_type_of(l) == "video/ogg"@);
        assert(mime_type_of(l).take(6) =~= "video/"@);
    } else if l == "webm"@ {
        assert(l.len() == 4 && l[0] == 'w' && l[1] == 'e' && l[2] == 'b' && l[3] == 'm');
        assert(mime_type_of(l) == "video/webm"@);
        assert(mime_type_of(l).take(6) =~= "video/"@);
        assert(mime_type_of(l) =~= "video/"@ + l);
    } else if l == "3gp"@ {
        assert(l.len() == 3 && l[0] == '3' && l[1] == 'g' && l[2] == 'p');
        assert(mime_type_of(l) == "video/3gpp"@);
        assert(mime_type_of(l).take(6) =~= "video/"@);
    } else if l == "3g2"@ {
        assert(l.len() == 3 && l[0] == '3' && l[1] == 'g' && l[2] == '2');
        assert(mime_type_of(l) == "video/3gpp2"@);
        assert(mime_type_of(l).take(6) =~= "video/"@);
    } else if l == "ts"@ {
        assert(l.len() == 2 && l[0] == 't' && l[1] == 's');
        assert(mime_type_of(l) == "video/mp2t"@);
        assert(mime_type_of(l).take(6) =~= "video/"@);
    }
}

/// The font formats of the table.
pub open spec fn is_font_extension(ext: Seq<char>) -> bool {
    ext == "otf"@
        || ext == "ttf"@
        || ext == "woff"@
        || ext == "woff2"@
}

/// The font formats whose MIME subtype is their extension.
pub open spec fn names_font_subtype(ext: Seq<char>) -> bool {
    ext == "otf"@
        || ext == "ttf"@
        || ext == "woff"@
        || ext == "woff2"@
}

/// Every font format of the table, in any ASCII case, gets a `font/*`
/// type, named after the format where the table names it so.
pub proof fn lemma_font_extensions_get_font_types(ext: Seq<char>)
    requires
        is_ascii_text(ext),
        is_font_extension(ascii_lowercase(ext)),
    ensures
        starts_with(mime_type_of(ascii_lowercase(ext)), "font/"@),
        names_font_subtype(ascii_lowercase(ext)) ==> mime_type_of(ascii_lowercase(ext))
            == "font/"@ + ascii_lowercase(ext),
{
    reveal_strlit("3g2");
    reveal_strlit("3gp");
    reveal_strlit("7z");
    reveal_strlit("aac");
    reveal_strlit("abw");
    reveal_strlit("apng");
    reveal_strlit("arc");
    reveal_strlit("avi");
    reveal_strlit("avif");
    reveal_strlit("azw");
    reveal_strlit("bin");
    reveal_strlit("bmp");
    reveal_strlit("bz");
    reveal_strlit("bz2");
    reveal_strlit("cda");
    reveal_strlit("cjs");
    reveal_strlit("csh");
    reveal_strlit("css");
    reveal_strlit("csv");
    reveal_strlit("doc");
    reveal_strlit("docx");
    reveal_strlit("eot");
    reveal_strlit("epub");
    reveal_strlit("font/");
    reveal_strlit("font/otf");
    reveal_strlit("font/ttf");
    reveal_strlit("font/woff");
    reveal_strlit("font/woff2");
    reveal_strlit("gif");
    reveal_strlit("gz");
    reveal_strlit("htm");
    reveal_strlit("html");
    reveal_strlit("ico");
    reveal_strlit("ics");
    reveal_strlit("jar");
    reveal_strlit("jpeg");
    reveal_strlit("jpg");
    reveal_strlit("js");
    reveal_strlit("json");
    reveal_strlit("jsonld");
    reveal_strlit("mid");
    reveal_strlit("midi");
    reveal_strlit("mjs");
    reveal_strlit("mp3");
    reveal_strlit("mp4");
    reveal_strlit("mpeg");
    reveal_strlit("mpkg");
    reveal_strlit("odp");
    reveal_strlit("ods");
    reveal_strlit("odt");
    reveal_strlit("oga");
    reveal_strlit("ogv");
    reveal_strlit("ogx");
    reveal_strlit("opus");
    reveal_strlit("otf");
    reveal_strlit("pdf");
    reveal_strlit("php");
    reveal_strlit("png");
    reveal_strlit("ppt");
    reveal_strlit("pptx");
    reveal_strlit("rar");
    reveal_strlit("rtf");
    reveal_strlit("sh");
    reveal_strlit("svg");
    reveal_strlit("tar");
    reveal_strlit("tif");
    reveal_strlit("tiff");
    reveal_strlit("ts");
    reveal_strlit("ttf");
    reveal_strlit("txt");
    reveal_strlit("vsd");
    reveal_strlit("wasm");
    reveal_strlit("wav");
    reveal_strlit("weba");
    reveal_strlit("webm");
    reveal_strlit("webp");
    reveal_strlit("woff");
    reveal_strlit("woff2");
    reveal_strlit("xhtml");
    reveal_strlit("xls");
    reveal_strlit("xlsx");
    reveal_strlit("xml");
    reveal_strlit("xul");
    reveal_strlit("zip");
    let l = ascii_lowercase(ext);
    if l == "otf"@ {
        assert(l.len() == 3 && l[0] == 'o' && l[1] == 't' && l[2] == 'f');
        assert(mime_type_of(l) == "font/otf"@);
        assert(mime_type_of(l).take(5) =~= "font/"@);
        assert(mime_type_of(l) =~= "font/"@ + l);
    } else if l == "ttf"@ {
        assert(l.len() == 3 && l[0] == 't' && l[1] == 't' && l[2] == 'f');
        assert(mime_type_of(l) == "font/ttf"@);
        assert(mime_type_of(l).take(5) =~= "font/"@);
        assert(mime_type_of(l) =~= "font/"@ + l);
    } else if l == "woff"@ {
        assert(l.len() == 4 && l[0] == 'w' && l[1] == 'o' && l[2] == 'f' && l[3] == 'f');
        assert(mime_type_of(l) == "font/woff"@);
        assert(mime_type_of(l).take(5) =~= "font/"@);
        assert(mime_type_of(l) =~= "font/"@ + l);
    } else if l == "woff2"@ {
        assert(l.len() == 5 && l[0] == 'w' && l[1] == 'o' && l[2] == 'f' && l[3] == 'f' && l[4] == '2');
        assert(mime_type_of(l) == "font/woff2"@);
        assert(mime_type_of(l).take(5) =~= "font/"@);
        assert(mime_type_of(l) =~= "font/"@ + l);
    }
}

/// The text formats of the table.
pub open spec fn is_text_extension(ext: Seq<char>) -> bool {
    ext == "css"@
        || ext == "csv"@
        || ext == "html"@
        || ext == "htm"@
        || ext == "ics"@
        || ext == "js"@
        || ext == "cjs"@
        || ext == "mjs"@
        || ext == "txt"@
}

/// The text formats whose MIME subtype is their extension.
pub open spec fn names_text_subtype(ext: Seq<char>) -> bool {
    ext == "css"@
        || ext == "csv"@
        || ext == "html"@
}

/// Every text format of the table, in any ASCII case, gets a `text/*`
/// type, named after the format where the table names it so.
pub proof fn lemma_text_extensions_get_text_types(ext: Seq<char>)
    requires
        is_ascii_text(ext),
        is_text_extension(ascii_lowercase(ext)),
    ensures
        starts_with(mime_type_of(ascii_lowercase(ext)), "text/"@),
        names_text_subtype(ascii_lowercase(ext)) ==> mime_type_of(ascii_lowercase(ext))
            == "text/"@ + ascii_lowercase(ext),
{
    reveal_strlit("3g2");
    reveal_strlit("3gp");
    reveal_strlit("7z");
    reveal_strlit("aac");
    reveal_strlit("abw");
    reveal_strlit("apng");
    reveal_strlit("arc");
    reveal_strlit("avi");
    reveal_strlit("avif");
    reveal_strlit("azw");
    reveal_strlit("bin");
    reveal_strlit("bmp");
    reveal_strlit("bz");
    reveal_strlit("bz2");
    reveal_strlit("cda");
    reveal_strlit("cjs");
    reveal_strlit("csh");
    reveal_strlit("css");
    reveal_strlit("csv");
    reveal_strlit("doc");
    reveal_strlit("docx");
    reveal_strlit("eot");
    reveal_strlit("epub");
    reveal_strlit("gif");
    reveal_strlit("gz");
    reveal_strlit("htm");
    reveal_strlit("html");
    reveal_strlit("ico");
    reveal_strlit("ics");
    reveal_strlit("jar");
    reveal_strlit("jpeg");
    reveal_strlit("jpg");
    reveal_strlit("js");
    reveal_strlit("json");
    reveal_strlit("jsonld");
    reveal_strlit("mid");
    reveal_strlit("midi");
    reveal_strlit("mjs");
    reveal_strlit("mp3");
    reveal_strlit("mp4");
    reveal_strlit("mpeg");
    reveal_strlit("mpkg");
    reveal_strlit("odp");
    reveal_strlit("ods");
    reveal_strlit("odt");
    reveal_strlit("oga");
    reveal_strlit("ogv");
    reveal_strlit("ogx");
    reveal_strlit("opus");
    reveal_strlit("otf");
    reveal_strlit("pdf");
    reveal_strlit("php");
    reveal_strlit("png");
    reveal_strlit("ppt");
    reveal_strlit("pptx");
    reveal_strlit("rar");
    reveal_strlit("rtf");
    reveal_strlit("sh");
    reveal_strlit("svg");
    reveal_strlit("tar");
    reveal_strlit("text/");
    reveal_strlit("text/calendar");
    reveal_strlit("text/css");
    reveal_strlit("text/csv");
    reveal_strlit("text/html");
    reveal_strlit("text/javascript");
    reveal_strlit("text/plain");
    reveal_strlit("tif");
    reveal_strlit("tiff");
    reveal_strlit("ts");
    reveal_strlit("ttf");
    reveal_strlit("txt");
    reveal_strlit("vsd");
    reveal_strlit("wasm");
    reveal_strlit("wav");
    reveal_strlit("weba");
    reveal_strlit("webm");
    reveal_strlit("webp");
    reveal_strlit("woff");
    reveal_strlit("woff2");
    reveal_strlit("xhtml");
    reveal_strlit("xls");
    reveal_strlit("xlsx");
    reveal_strlit("xml");
    reveal_strlit("xul");
    reveal_strlit("zip");
    let l = ascii_lowercase(ext);
    if l == "css"@ {
        assert(l.len() == 3 && l[0] == 'c' && l[1] == 's' && l[2] == 's');
        assert(mime_type_of(l) == "text/css"@);
        assert(mime_type_of(l).take(5) =~= "text/"@);
        assert(mime_type_of(l) =~= "text/"@ + l);
    } else if l == "csv"@ {
        assert(l.len() == 3 && l[0] == 'c' && l[1] == 's' && l[2] == 'v');
        assert(mime_type_of(l) == "text/csv"@);
        assert(mime_type_of(l).take(5) =~= "text/"@);
        assert(mime_type_of(l) =~= "text/"@ + l);
    } else if l == "html"@ {
        assert(l.len() == 4 && l[0] == 'h' && l[1] == 't' && l[2] == 'm' && l[3] == 'l');
        assert(mime_type_of(l) == "text/html"@);
        assert(mime_type_of(l).take(5) =~= "text/"@);
        assert(mime_type_of(l) =~= "text/"@ + l);
    } else if l == "htm"@ {
        assert(l.len() == 3 && l[0] == 'h' && l[1] == 't' && l[2] == 'm');
        assert(mime_type_of(l) == "text/html"@);
        assert(mime_type_of(l).take(5) =~= "text/"@);
    } else if l == "ics"@ {
        assert(l.len() == 3 && l[0] == 'i' && l[1] == 'c' && l[2] == 's');
        assert(mime_type_of(l) == "text/calendar"@);
        assert(mime_type_of(l).take(5) =~= "text/"@);
    } else if l == "js"@ {
        assert(l.len() == 2 && l[0] == 'j' && l[1] == 's');
        assert(mime_type_of(l) == "text/javascript"@);
        assert(mime_type_of(l).take(5) =~= "text/"@);
    } else if l == "cjs"@ {
        assert(l.len() == 3 && l[0] == 'c' && l[1] == 'j' && l[2] == 's');
        assert(mime_type_of(l) == "text/javascript"@);
        assert(mime_type_of(l).take(5) =~= "text/"@);
    } else if l == "mjs"@ {
        assert(l.len() == 3 && l[0] == 'm' && l[1] == 'j' && l[2] == 's');
        assert(mime_type_of(l) == "text/javascript"@);
        assert(mime_type_of(l).take(5) =~= "text/"@);
    } else if l == "txt"@ {
        assert(l.len() == 3 && l[0] == 't' && l[1] == 'x' && l[2] == 't');
        assert(mime_type_of(l) == "text/plain"@);
        assert(mime_type_of(l).take(5) =~= "text/"@);
    }
}

/// The application formats of the table.
pub open spec fn is_application_extension(ext: Seq<char>) -> bool {
    ext == "eot"@
        || ext == "xml"@
        || ext == "json"@
        || ext == "jsonld"@
        || ext == "pdf"@
        || ext == "wasm"@
        || ext == "xhtml"@
        || ext == "zip"@
        || ext == "7z"@
        || ext == "gz"@
        || ext == "tar"@
        || ext == "rar"@
        || ext == "bz"@
        || ext == "bz2"@
        || ext == "bin"@
        || ext == "sh"@
        || ext == "csh"@
        || ext == "jar"@
        || ext == "php"@
        || ext == "rtf"@
        || ext == "doc"@
        || ext == "docx"@
        || ext == "xls"@
        || ext == "xlsx"@
        || ext == "ppt"@
        || ext == "pptx"@
        || ext == "odt"@
        || ext == "ods"@
        || ext == "odp"@
        || ext == "abw"@
        || ext == "arc"@
        || ext == "azw"@
        || ext == "cda"@
        || ext == "epub"@
        || ext == "mpkg"@
        || ext == "ogx"@
        || ext == "vsd"@
        || ext == "xul"@
}

/// The application formats whose MIME subtype is their extension.
pub open spec fn names_application_subtype(ext: Seq<char>) -> bool {
    ext == "xml"@
        || ext == "json"@
        || ext == "pdf"@
        || ext == "wasm"@
        || ext == "zip"@
        || ext == "rtf"@
}

/// The XML-based application formats whose MIME subtype is their extension with `+xml`.
pub open spec fn names_application_xml_subtype(ext: Seq<char>) -> bool {
    ext == "xhtml"@
}

/// Every application format of the table, in any ASCII case, gets an
/// `application/*` type, named after the format where the table names it so.
pub proof fn lemma_application_extensions_get_application_types(ext: Seq<char>)
    requires
        is_ascii_text(ext),
        is_application_extension(ascii_lowercase(ext)),
    ensures
        starts_with(mime_type_of(ascii_lowercase(ext)), "application/"@),
        names_application_subtype(ascii_lowercase(ext)) ==> mime_type_of(ascii_lowercase(ext))
            == "application/"@ + ascii_lowercase(ext),
        names_application_xml_subtype(ascii_lowercase(ext)) ==> mime_type_of(ascii_lowercase(ext))
            == "application/"@ + ascii_lowercase(ext) + "+xml"@,
{
    reveal_strlit("+xml");
    reveal_strlit("3g2");
    reveal_strlit("3gp");
    reveal_strlit("7z");
    reveal_strlit("aac");
    reveal_strlit("abw");
    reveal_strlit("apng");
    reveal_strlit("application/");
    reveal_strlit("application/epub+zip");
    reveal_strlit("application/gzip");
    reveal_strlit("application/java-archive");
    reveal_strlit("application/json");
    reveal_strlit("application/ld+json");
    reveal_strlit("application/msword");
    reveal_strlit("application/octet-stream");
    reveal_strlit("application/ogg");
    reveal_strlit("application/pdf");
    reveal_strlit("application/rtf");
    reveal_strlit("application/vnd.amazon.ebook");
    reveal_strlit("application/vnd.apple.installer+xml");
    reveal_strlit("application/vnd.mozilla.xul+xml");
    reveal_strlit("application/vnd.ms-excel");
    reveal_strlit("application/vnd.ms-fontobject");
    reveal_strlit("application/vnd.ms-powerpoint");
    reveal_strlit("application/vnd.oasis.opendocument.presentation");
    reveal_strlit("application/vnd.oasis.opendocument.spreadsheet");
    reveal_strlit("application/vnd.oasis.opendocument.text");
    reveal_strlit("application/vnd.openxmlformats-officedocument.presentationml.presentation");
    reveal_strlit("application/vnd.openxmlformats-officedocument.spreadsheetml.sheet");
    reveal_strlit("application/vnd.openxmlformats-officedocument.wordprocessingml.document");
    reveal_strlit("application/vnd.rar");
    reveal_strlit("application/vnd.visio");
    reveal_strlit("application/wasm");
    reveal_strlit("application/x-7z-compressed");
    reveal_strlit("application/x-abiword");
    reveal_strlit("application/x-bzip");
    reveal_strlit("application/x-bzip2");
    reveal_strlit("application/x-cdf");
    reveal_strlit("application/x-csh");
    reveal_strlit("application/x-freearc");
    reveal_strlit("application/x-httpd-php");
    reveal_strlit("application/x-sh");
    reveal_strlit("application/x-tar");
    reveal_strlit("application/xhtml+xml");
    reveal_strlit("application/xml");
    reveal_strlit("application/zip");
    reveal_strlit("arc");
    reveal_strlit("avi");
    reveal_strlit("avif");
    reveal_strlit("azw");
    reveal_strlit("bin");
    reveal_strlit("bmp");
    reveal_strlit("bz");
    reveal_strlit("bz2");
    reveal_strlit("cda");
    reveal_strlit("cjs");
    reveal_strlit("csh");
    reveal_strlit("css");
    reveal_strlit("csv");
    reveal_strlit("doc");
    reveal_strlit("docx");
    reveal_strlit("eot");
    reveal_strlit("epub");
    reveal_strlit("gif");
    reveal_strlit("gz");
    reveal_strlit("htm");
    reveal_strlit("html");
    reveal_strlit("ico");
    reveal_strlit("ics");
    reveal_strlit("jar");
    reveal_strlit("jpeg");
    reveal_strlit("jpg");
    reveal_strlit("js");
    reveal_strlit("json");
    reveal_strlit("jsonld");
    reveal_strlit("mid");
    reveal_strlit("midi");
    reveal_strlit("mjs");
    reveal_strlit("mp3");
    reveal_strlit("mp4");
    reveal_strlit("mpeg");
    reveal_strlit("mpkg");
    reveal_strlit("odp");
    reveal_strlit("ods");
    reveal_strlit("odt");
    reveal_strlit("oga");
    reveal_strlit("ogv");
    reveal_strlit("ogx");
    reveal_strlit("opus");
    reveal_strlit("otf");
    reveal_strlit("pdf");
    reveal_strlit("php");
    reveal_strlit("png");
    reveal_strlit("ppt");
    reveal_strlit("pptx");
    reveal_strlit("rar");
    reveal_strlit("rtf");
    reveal_strlit("sh");
    reveal_strlit("svg");
    reveal_strlit("tar");
    reveal_strlit("tif");
    reveal_strlit("tiff");
    reveal_strlit("ts");
    reveal_strlit("ttf");
    reveal_strlit("txt");
    reveal_strlit("vsd");
    reveal_strlit("wasm");
    reveal_strlit("wav");
    reveal_strlit("weba");
    reveal_strlit("webm");
    reveal_strlit("webp");
    reveal_strlit("woff");
    reveal_strlit("woff2");
    reveal_strlit("xhtml");
    reveal_strlit("xls");
    reveal_strlit("xlsx");
    reveal_strlit("xml");
    reveal_strlit("xul");
    reveal_strlit("zip");
    let l = ascii_lowercase(ext);
    if l == "eot"@ {
        assert(l.len() == 3 && l[0] == 'e' && l[1] == 'o' && l[2] == 't');
        assert(mime_type_of(l) == "application/vnd.ms-fontobject"@);
        assert(mime_type_of(l).take(12) =~= "application/"@);
    } else if l == "xml"@ {
        assert(l.len() == 3 && l[0] == 'x' && l[1] == 'm' && l[2] == 'l');
        assert(mime_type_of(l) == "application/xml"@);
        assert(mime_type_of(l).take(12) =~= "application/"@);
        assert(mime_type_of(l) =~= "application/"@ + l);
    } else if l == "json"@ {
        assert(l.len() == 4 && l[0] == 'j' && l[1] == 's' && l[2] == 'o' && l[3] == 'n');
        assert(mime_type_of(l) == "application/json"@);
        assert(mime_type_of(l).take(12) =~= "application/"@);
        assert(mime_type_of(l) =~= "application/"@ + l);
    } else if l == "jsonld"@ {
        assert(l.len() == 6 && l[0] == 'j' && l[1] == 's' && l[2] == 'o' && l[3] == 'n' && l[4] == 'l' && l[5] == 'd');
        assert(mime_type_of(l) == "application/ld+json"@);
        assert(mime_type_of(l).take(12) =~= "application/"@);
    } else if l == "pdf"@ {
        assert(l.len() == 3 && l[0] == 'p' && l[1] == 'd' && l[2] == 'f');
        assert(mime_type_of(l) == "application/pdf"@);
        assert(mime_type_of(l).take(12) =~= "application/"@);
        assert(mime_type_of(l) =~= "application/"@ + l);
    } else if l == "wasm"@ {
        assert(l.len() == 4 && l[0] == 'w' && l[1] == 'a' && l[2] == 's' && l[3] == 'm');
        assert(mime_type_of(l) == "application/wasm"@);
        assert(mime_type_of(l).take(12) =~= "application/"@);
        assert(mime_type_of(l) =~= "application/"@ + l);
    } else if l == "xhtml"@ {
        assert(l.len() == 5 && l[0] == 'x' && l[1] == 'h' && l[2] == 't' && l[3] == 'm' && l[4] == 'l');
        assert(mime_type_of(l) == "application/xhtml+xml"@);
        assert(mime_type_of(l).take(12) =~= "application/"@);
        assert(mime_type_of(l) =~= "application/"@ + l + "+xml"@);
    } else if l == "zip"@ {
        assert(l.len() == 3 && l[0] == 'z' && l[1] == 'i' && l[2] == 'p');
        assert(mime_type_of(l) == "application/zip"@);
        assert(mime_type_of(l).take(12) =~= "application/"@);
        assert(mime_type_of(l) =~= "application/"@ + l);
    } else if l == "7z"@ {
        assert(l.len() == 2 && l[0] == '7' && l[1] == 'z');
        assert(mime_type_of(l) == "application/x-7z-compressed"@);
        assert(mime_type_of(l).take(12) =~= "application/"@);
    } else if l == "gz"@ {
        assert(l.len() == 2 && l[0] == 'g' && l[1] == 'z');
        assert(mime_type_of(l) == "application/gzip"@);
        assert(mime_type_of(l).take(12) =~= "application/"@);
    } else if l == "tar"@ {
        assert(l.len() == 3 && l[0] == 't' && l[1] == 'a' && l[2] == 'r');
        assert(mime_type_of(l) == "application/x-tar"@);
        assert(mime_type_of(l).take(12) =~= "application/"@);
    } else if l == "rar"@ {
        assert(l.len() == 3 && l[0] == 'r' && l[1] == 'a' && l[2] == 'r');
        assert(mime_type_of(l) == "application/vnd.rar"@);
        assert(mime_type_of(l).take(12) =~= "application/"@);
    } else if l == "bz"@ {
        assert(l.len() == 2 && l[0] == 'b' && l[1] == 'z');
        assert(mime_type_of(l) == "application/x-bzip"@);
        assert(mime_type_of(l).take(12) =~= "application/"@);
    } else if l == "bz2"@ {
        assert(l.len() == 3 && l[0] == 'b' && l[1] == 'z' && l[2] == '2');
        assert(mime_type_of(l) == "application/x-bzip2"@);
        assert(mime_type_of(l).take(12) =~= "application/"@);
    } else if l == "bin"@ {
        assert(l.len() == 3 && l[0] == 'b' && l[1] == 'i' && l[2] == 'n');
        assert(mime_type_of(l) == "application/octet-stream"@);
        assert(mime_type_of(l).take(12) =~= "application/"@);
    } else if l == "sh"@ {
        assert(l.len() == 2 && l[0] == 's' && l[1] == 'h');
        assert(mime_type_of(l) == "application/x-sh"@);
        assert(mime_type_of(l).take(12) =~= "application/"@);
    } else if l == "csh"@ {
        assert(l.len() == 3 && l[0] == 'c' && l[1] == 's' && l[2] == 'h');
        assert(mime_type_of(l) == "application/x-csh"@);
        assert(mime_type_of(l).take(12) =~= "application/"@);
    } else if l == "jar"@ {
        assert(l.len() == 3 && l[0] == 'j' && l[1] == 'a' && l[2] == 'r');
        assert(mime_type_of(l) == "application/java-archive"@);
        assert(mime_type_of(l).take(12) =~= "application/"@);
    } else if l == "php"@ {
        assert(l.len() == 3 && l[0] == 'p' && l[1] == 'h' && l[2] == 'p');
        assert(mime_type_of(l) == "application/x-httpd-php"@);
        assert(mime_type_of(l).take(12) =~= "application/"@);
    } else if l == "rtf"@ {
        assert(l.len() == 3 && l[0] == 'r' && l[1] == 't' && l[2] == 'f');
        assert(mime_type_of(l) == "application/rtf"@);
        assert(mime_type_of(l).take(12) =~= "application/"@);
        assert(mime_type_of(l) =~= "application/"@ + l);
    } else if l == "doc"@ {
        assert(l.len() == 3 && l[0] == 'd' && l[1] == 'o' && l[2] == 'c');
        assert(mime_type_of(l) == "application/msword"@);
        assert(mime_type_of(l).take(12) =~= "application/"@);
    } else if l == "docx"@ {
        assert(l.len() == 4 && l[0] == 'd' && l[1] == 'o' && l[2] == 'c' && l[3] == 'x');
        assert(mime_type_of(l) == "application/vnd.openxmlformats-officedocument.wordprocessingml.document"@);
        assert(mime_type_of(l).take(12) =~= "application/"@);
    } else if l == "xls"@ {
        assert(l.len() == 3 && l[0] == 'x' && l[1] == 'l' && l[2] == 's');
        assert(mime_type_of(l) == "application/vnd.ms-excel"@);
        assert(mime_type_of(l).take(12) =~= "application/"@);
    } else if l == "xlsx"@ {
        assert(l.len() == 4 && l[0] == 'x' && l[1] == 'l' && l[2] == 's' && l[3] == 'x');
        assert(mime_type_of(l) == "application/vnd.openxmlformats-officedocument.spreadsheetml.sheet"@);
        assert(mime_type_of(l).take(12) =~= "application/"@);
    } else if l == "ppt"@ {
        assert(l.len() == 3 && l[0] == 'p' && l[1] == 'p' && l[2] == 't');
        assert(mime_type_of(l) == "application/vnd.ms-powerpoint"@);
        assert(mime_type_of(l).take(12) =~= "application/"@);
    } else if l == "pptx"@ {
        assert(l.len() == 4 && l[0] == 'p' && l[1] == 'p' && l[2] == 't' && l[3] == 'x');
        assert(mime_type_of(l) == "application/vnd.openxmlformats-officedocument.presentationml.presentation"@);
        assert(mime_type_of(l).take(12) =~= "application/"@);
    } else if l == "odt"@ {
        assert(l.len() == 3 && l[0] == 'o' && l[1] == 'd' && l[2] == 't');
        assert(mime_type_of(l) == "application/vnd.oasis.opendocument.text"@);
        assert(mime_type_of(l).take(12) =~= "application/"@);
    } else if l == "ods"@ {
        assert(l.len() == 3 && l[0] == 'o' && l[1] == 'd' && l[2] == 's');
        assert(mime_type_of(l) == "application/vnd.oasis.opendocument.spreadsheet"@);
        assert(mime_type_of(l).take(12) =~= "application/"@);
    } else if l == "odp"@ {
        assert(l.len() == 3 && l[0] == 'o' && l[1] == 'd' && l[2] == 'p');
        assert(mime_type_of(l) == "application/vnd.oasis.opendocument.presentation"@);
        assert(mime_type_of(l).take(12) =~= "application/"@);
    } else if l == "abw"@ {
        assert(l.len() == 3 && l[0] == 'a' && l[1] == 'b' && l[2] == 'w');
        assert(mime_type_of(l) == "application/x-abiword"@);
        assert(mime_type_of(l).take(12) =~= "application/"@);
    } else if l == "arc"@ {
        assert(l.len() == 3 && l[0] == 'a' && l[1] == 'r' && l[2] == 'c');
        assert(mime_type_of(l) == "application/x-freearc"@);
        assert(mime_type_of(l).take(12) =~= "application/"@);
    } else if l == "azw"@ {
        assert(l.len() == 3 && l[0] == 'a' && l[1] == 'z' && l[2] == 'w');
        assert(mime_type_of(l) == "application/vnd.amazon.ebook"@);
        assert(mime_type_of(l).take(12) =~= "application/"@);
    } else if l == "cda"@ {
        assert(l.len() == 3 && l[0] == 'c' && l[1] == 'd' && l[2] == 'a');
        assert(mime_type_of(l) == "application/x-cdf"@);
        assert(mime_type_of(l).take(12) =~= "application/"@);
    } else if l == "epub"@ {
        assert(l.len() == 4 && l[0] == 'e' && l[1] == 'p' && l[2] == 'u' && l[3] == 'b');
        assert(mime_type_of(l) == "application/epub+zip"@);
        assert(mime_type_of(l).take(12) =~= "application/"@);
    } else if l == "mpkg"@ {
        assert(l.len() == 4 && l[0] == 'm' && l[1] == 'p' && l[2] == 'k' && l[3] == 'g');
        assert(mime_type_of(l) == "application/vnd.apple.installer+xml"@);
        assert(mime_type_of(l).take(12) =~= "application/"@);
    } else if l == "ogx"@ {
        assert(l.len() == 3 && l[0] == 'o' && l[1] == 'g' && l[2] == 'x');
        assert(mime_type_of(l) == "application/ogg"@);
        assert(mime_type_of(l).take(12) =~= "application/"@);
    } else if l == "vsd"@ {
        assert(l.len() == 3 && l[0] == 'v' && l[1] == 's' && l[2] == 'd');
        assert(mime_type_of(l) == "application/vnd.visio"@);
        assert(mime_type_of(l).take(12) =~= "application/"@);
    } else if l == "xul"@ {
        assert(l.len() == 3 && l[0] == 'x' && l[1] == 'u' && l[2] == 'l');
        assert(mime_type_of(l) == "application/vnd.mozilla.xul+xml"@);
        assert(mime_type_of(l).take(12) =~= "application/"@);
    }
}

} // verus!
