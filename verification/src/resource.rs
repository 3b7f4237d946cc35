//! The response to one request for a `res://` or `user://` resource: how it
//! is decided from the file and the `Range` header, the head that is sent
//! back, and the reading and skipping of its body.
//!
//! The file itself is opened and read by the caller: a state is built from
//! what the file system says (missing, unopenable, or its size), tells the
//! caller which bytes to read, and is then given them.

use vstd::prelude::*;
use crate::mime::{eq_literal, get_mime_type, mime_type_of, unicode_lowercase};
use crate::multipart::{
    read_multipart_step, segment_remaining, remaining_in_segment, skip_multipart_streaming,
    MultipartPhase, MultipartRead, MultipartStreamState, MULTIPART_BOUNDARY,
};
use crate::paths::{last_index_of, lemma_last_index_of_prefix};
use vstd::utf8::encode_utf8;
use crate::range::{
    lemma_range_request_satisfiable, parse_range_header, range_request_of, ByteRange,
    ParsedRanges, RangeRequest,
};
use crate::text::{
    chars_of, concat, decimal, push_decimal, push_str, split, split_bounds, string_from_chars,
    pieces,
};

verus! {

/// A piece of a path that names the current directory.
pub open spec fn is_cur_dir(s: Seq<char>) -> bool {
    s == seq!['.']
}

/// A piece of a path that names the parent directory.
pub open spec fn is_parent_dir(s: Seq<char>) -> bool {
    s == seq!['.', '.']
}

/// The name a path ends in, given its `/`-separated pieces: the last piece
/// that is neither empty nor `.`, unless that is `..`, which names no file.
pub open spec fn last_name(ps: Seq<Seq<char>>) -> Option<Seq<char>>
    decreases ps.len(),
{
    if ps.len() == 0 {
        None
    } else if ps.last().len() == 0 || is_cur_dir(ps.last()) {
        last_name(ps.drop_last())
    } else if is_parent_dir(ps.last()) {
        None
    } else {
        Some(ps.last())
    }
}

/// The extension of the file a path names: what follows the last dot of
/// its name, where that dot does not start the name; empty otherwise.
pub open spec fn extension_of(path: Seq<char>) -> Seq<char> {
    match last_name(split(path, '/')) {
        Some(name) => {
            let d = last_index_of(name, '.');
            if d > 0 {
                name.skip(d + 1)
            } else {
                Seq::empty()
            }
        },
        None => Seq::empty(),
    }
}

/// The extension of a name: what follows its last dot, where that dot does
/// not start the name; empty otherwise.
pub open spec fn name_extension(name: Seq<char>) -> Seq<char> {
    let d = last_index_of(name, '.');
    if d > 0 {
        name.skip(d + 1)
    } else {
        Seq::empty()
    }
}

/// The bounds in `c` of the name that the pieces bounded by `b` end in.
pub(crate) fn last_name_bounds(c: &Vec<char>, b: &Vec<(usize, usize)>) -> (r: Option<(usize, usize)>)
    requires
        forall|k: int| 0 <= k < b@.len() ==> 0 <= #[trigger] b@[k].0 <= b@[k].1 <= c@.len(),
    ensures
        match last_name(pieces(c@, b@)) {
            Some(name) => r matches Some(se) && se.0 <= se.1 <= c@.len() && name == c@.subrange(
                se.0 as int,
                se.1 as int,
            ),
            None => r is None,
        },
{
    let ghost ps = pieces(c@, b@);
    let mut j: usize = b.len();
    assert(ps.take(ps.len() as int) =~= ps);
    while j > 0 && (b[j - 1].0 == b[j - 1].1 || (b[j - 1].1 - b[j - 1].0 == 1 && c[b[j - 1].0]
        == '.'))
        invariant
            j <= b@.len() == ps.len(),
            ps == pieces(c@, b@),
            forall|k: int| 0 <= k < b@.len() ==> 0 <= #[trigger] b@[k].0 <= b@[k].1 <= c@.len(),
            last_name(ps.take(j as int)) == last_name(ps),
        decreases j,
    {
        proof {
            let piece = ps[j - 1];
            assert(piece == c@.subrange(b@[j - 1].0 as int, b@[j - 1].1 as int));
            assert(ps.take(j as int).last() == piece);
            assert(ps.take(j as int).drop_last() =~= ps.take(j - 1));
            if b@[j - 1].0 != b@[j - 1].1 {
                assert(piece =~= seq!['.']);
            }
        }
        j = j - 1;
    }
    if j == 0 {
        assert(ps.take(0) =~= Seq::<Seq<char>>::empty());
        return None;
    }
    let (s, e) = b[j - 1];
    let ghost name = ps[j - 1];
    proof {
        assert(name == c@.subrange(s as int, e as int));
        assert(ps.take(j as int).last() == name);
        assert(ps.take(j as int).drop_last() =~= ps.take(j - 1));
        assert(name.len() > 0);
        assert(!is_cur_dir(name)) by {
            if is_cur_dir(name) {
                assert(name[0] == c@[s as int]);
            }
        }
    }
    if e - s == 2 && c[s] == '.' && c[s + 1] == '.' {
        assert(name =~= seq!['.', '.']);
        return None;
    }
    assert(!is_parent_dir(name)) by {
        if is_parent_dir(name) {
            assert(name[0] == c@[s as int] && name[1] == c@[s + 1]);
        }
    }
    Some((s, e))
}

/// Whether `c[s..e]` spells out `lit`.
pub(crate) fn eq_range(c: &Vec<char>, s: usize, e: usize, lit: &str) -> (r: bool)
    requires
        s <= e <= c@.len(),
    ensures
        r == (c@.subrange(s as int, e as int) == lit@),
{
    let mut v: Vec<char> = Vec::new();
    let mut i: usize = s;
    while i < e
        invariant
            s <= i <= e <= c@.len(),
            v@ == c@.subrange(s as int, i as int),
        decreases e - i,
    {
        v.push(c[i]);
        i = i + 1;
        assert(v@ =~= c@.subrange(s as int, i as int));
    }
    eq_literal(&v, lit)
}

/// The extension of the name `c[s..e]`.
fn extension_in(c: &Vec<char>, s: usize, e: usize) -> (r: String)
    requires
        s <= e <= c@.len(),
    ensures
        r@ == name_extension(c@.subrange(s as int, e as int)),
{
    let ghost name = c@.subrange(s as int, e as int);
    let mut k: usize = e;
    while k > s && c[k - 1] != '.'
        invariant
            s <= k <= e <= c@.len(),
            name == c@.subrange(s as int, e as int),
            forall|m: int| k - s <= m < name.len() ==> name[m] != '.',
        decreases k,
    {
        k = k - 1;
    }
    proof {
        lemma_last_index_of_prefix(name, '.', (k - s) as int);
        if k > s {
            assert(name.take(k - s).last() == '.');
            assert(last_index_of(name.take(k - s), '.') == k - s - 1);
        } else {
            assert(name.take(0) =~= Seq::<char>::empty());
        }
    }
    if k - s <= 1 {
        return String::new();
    }
    let mut out: Vec<char> = Vec::new();
    let mut i: usize = k;
    while i < e
        invariant
            k <= i <= e <= c@.len(),
            out@ == c@.subrange(k as int, i as int),
        decreases e - i,
    {
        out.push(c[i]);
        i = i + 1;
        assert(out@ =~= c@.subrange(k as int, i as int));
    }
    assert(out@ =~= name.skip(k - s));
    string_from_chars(&out)
}

/// The extension of the file that `path` names (see [`extension_of`]).
pub fn file_extension(path: &str) -> (r: String)
    ensures
        r@ == extension_of(path@),
{
    let c = chars_of(path);
    let n = c.len();
    let b = split_bounds(&c, 0, n, '/');
    assert(c@.subrange(0, n as int) =~= c@);
    match last_name_bounds(&c, &b) {
        Some((s, e)) => extension_in(&c, s, e),
        None => String::new(),
    }
}

/// What the caller is to read from the file once the response is decided.
#[derive(Clone, Copy, Debug, PartialEq, Eq, Structural)]
pub enum FileRead {
    /// Nothing: the response has no buffered body (the range is not
    /// satisfiable, or the parts are streamed).
    Nothing,
    /// Up to `len` bytes from offset `start`.
    Range { start: u64, len: i64 },
    /// Up to `len` bytes from the start.
    Whole { len: i64 },
}

/// The mathematical state of a response.
pub struct ResourceView {
    pub data: Seq<u8>,
    pub offset: int,
    pub status_code: i32,
    pub mime_type: Seq<char>,
    pub content_type: Seq<char>,
    pub error_message: Option<Seq<char>>,
    pub total_file_size: u64,
    pub range_start: Option<u64>,
    pub range_end: Option<u64>,
    pub is_multipart: bool,
    pub stream: Option<MultipartStreamState>,
    pub file_path: Option<Seq<char>>,
}

/// The state of the response to one resource request.
pub struct ResourceState {
    data: Vec<u8>,
    offset: usize,
    status_code: i32,
    mime_type: String,
    response_content_type: String,
    error_message: Option<String>,
    total_file_size: u64,
    range_start: Option<u64>,
    range_end: Option<u64>,
    is_multipart: bool,
    multipart_stream: Option<MultipartStreamState>,
    file_path: Option<String>,
}

pub open spec fn opt_view(s: Option<String>) -> Option<Seq<char>> {
    match s {
        Some(t) => Some(t@),
        None => None,
    }
}

impl View for ResourceState {
    type V = ResourceView;

    closed spec fn view(&self) -> ResourceView {
        ResourceView {
            data: self.data@,
            offset: self.offset as int,
            status_code: self.status_code,
            mime_type: self.mime_type@,
            content_type: self.response_content_type@,
            error_message: opt_view(self.error_message),
            total_file_size: self.total_file_size,
            range_start: self.range_start,
            range_end: self.range_end,
            is_multipart: self.is_multipart,
            stream: self.multipart_stream,
            file_path: opt_view(self.file_path),
        }
    }
}

/// The reason phrase sent with a status code.
pub open spec fn status_text_of(code: i32) -> Seq<char> {
    if code == 200 {
        "OK"@
    } else if code == 206 {
        "Partial Content"@
    } else if code == 403 {
        "Forbidden"@
    } else if code == 404 {
        "Not Found"@
    } else if code == 416 {
        "Range Not Satisfiable"@
    } else if code == 500 {
        "Internal Server Error"@
    } else {
        "Unknown"@
    }
}

/// The reason phrase sent with a status code.
pub fn status_text(code: i32) -> (r: &'static str)
    ensures
        r@ == status_text_of(code),
{
    match code {
        200 => "OK",
        206 => "Partial Content",
        403 => "Forbidden",
        404 => "Not Found",
        416 => "Range Not Satisfiable",
        500 => "Internal Server Error",
        _ => "Unknown",
    }
}

/// A byte count as the signed length the file API takes, capped at
/// `i64::MAX`.
pub open spec fn capped_len(n: int) -> i64 {
    if n <= i64::MAX {
        n as i64
    } else {
        i64::MAX
    }
}

/// The number of bytes a single range covers (`end - start + 1`, saturating).
pub open spec fn range_len(r: ByteRange) -> int {
    let d: int = if r.end >= r.start { r.end - r.start } else { 0 };
    if d + 1 <= u64::MAX { d + 1 } else { u64::MAX as int }
}

/// The content type of a multipart byte-range response.
pub open spec fn multipart_content_type() -> Seq<char> {
    "multipart/byteranges; boundary="@ + MULTIPART_BOUNDARY@
}

/// The head of a response: status line, content type, headers and the
/// length of the body.
#[derive(Debug)]
pub struct ResponseHead {
    pub status: i32,
    pub status_text: String,
    pub mime_type: String,
    /// The headers, by name and value, in the order they are set.
    pub headers: Vec<(String, String)>,
    pub response_length: i64,
}

/// The `Content-Range` value of a single-range response.
pub open spec fn content_range_of(start: u64, end: u64, total: u64) -> Seq<char> {
    "bytes "@ + decimal(start as nat) + "-"@ + decimal(end as nat) + "/"@ + decimal(total as nat)
}

/// The `Content-Range` value of an unsatisfiable-range response.
pub open spec fn unsatisfied_range_of(total: u64) -> Seq<char> {
    "bytes */"@ + decimal(total as nat)
}

/// The headers sent with a response: its content type, open CORS access,
/// byte-range support, and the `Content-Range` of a single-range or
/// unsatisfiable-range answer.
pub open spec fn headers_of(v: ResourceView) -> Seq<(Seq<char>, Seq<char>)> {
    let base = seq![
        ("Content-Type"@, v.content_type),
        ("Access-Control-Allow-Origin"@, "*"@),
        ("Accept-Ranges"@, "bytes"@),
    ];
    if v.status_code == 206 && !v.is_multipart {
        match (v.range_start, v.range_end) {
            (Some(start), Some(end)) => base.push(
                ("Content-Range"@, content_range_of(start, end, v.total_file_size)),
            ),
            _ => base,
        }
    } else if v.status_code == 416 {
        base.push(("Content-Range"@, unsatisfied_range_of(v.total_file_size)))
    } else {
        base
    }
}

/// The length announced for the body: the precomputed size of a multipart
/// stream, or the length of the buffered body.
pub open spec fn response_length_of(v: ResourceView) -> i64 {
    match v.stream {
        Some(st) => st.total_size as i64,
        None => v.data.len() as i64,
    }
}

/// Where the multipart stream of a response stands in its body.
pub open spec fn stream_position(v: ResourceView) -> int {
    match v.stream {
        Some(st) => st.position(v.mime_type, v.total_file_size),
        None => 0,
    }
}

/// The multipart body of a response.
pub open spec fn stream_body_len(v: ResourceView) -> int {
    match v.stream {
        Some(st) => st.body(v.mime_type, v.total_file_size).len() as int,
        None => 0,
    }
}

/// Everything but the stream and the read position is unchanged.
pub open spec fn same_response(a: ResourceView, b: ResourceView) -> bool {
    &&& a.data == b.data
    &&& a.status_code == b.status_code
    &&& a.mime_type == b.mime_type
    &&& a.content_type == b.content_type
    &&& a.error_message == b.error_message
    &&& a.total_file_size == b.total_file_size
    &&& a.range_start == b.range_start
    &&& a.range_end == b.range_end
    &&& a.is_multipart == b.is_multipart
    &&& a.file_path == b.file_path
}

/// The stream kept its ranges and announced size.
pub open spec fn same_stream_shape(a: ResourceView, b: ResourceView) -> bool {
    match (a.stream, b.stream) {
        (Some(x), Some(y)) => x.ranges@ == y.ranges@ && x.total_size == y.total_size,
        (None, None) => true,
        _ => false,
    }
}

fn header(name: &str, value: String) -> (r: (String, String))
    ensures
        r.0@ == name@,
        r.1@ == value@,
{
    (name.to_string(), value)
}

impl ResourceState {
    #[verifier::type_invariant]
    closed spec fn inv(self) -> bool {
        &&& self.offset <= self.data@.len()
        &&& self.multipart_stream matches Some(st) ==> st.wf(self.mime_type@, self.total_file_size)
    }

    /// The state of a response that has not been decided yet.
    pub fn new() -> (r: Self)
        ensures
            r@.data.len() == 0,
            r@.offset == 0,
            r@.status_code == 0,
            r@.mime_type.len() == 0,
            r@.content_type.len() == 0,
            r@.error_message is None,
            r@.total_file_size == 0,
            r@.range_start is None,
            r@.range_end is None,
            !r@.is_multipart,
            r@.stream is None,
            r@.file_path is None,
    {
        ResourceState {
            data: Vec::new(),
            offset: 0,
            status_code: 0,
            mime_type: String::new(),
            response_content_type: String::new(),
            error_message: None,
            total_file_size: 0,
            range_start: None,
            range_end: None,
            is_multipart: false,
            multipart_stream: None,
            file_path: None,
        }
    }

    /// A plain-text error response whose body is `message`.
    fn failure(status: i32, message: String) -> (r: Self)
        ensures
            r@.status_code == status,
            r@.mime_type == "text/plain"@,
            r@.content_type == "text/plain"@,
            r@.error_message == Some(message@),
            r@.data == encode_utf8(message@),
            r@.offset == 0,
            r@.total_file_size == 0,
            r@.range_start is None,
            r@.range_end is None,
            !r@.is_multipart,
            r@.stream is None,
            r@.file_path is None,
    {
        let data = vstd::slice::slice_to_vec(message.as_str().as_bytes());
        ResourceState {
            data,
            offset: 0,
            status_code: status,
            mime_type: "text/plain".to_string(),
            response_content_type: "text/plain".to_string(),
            error_message: Some(message),
            total_file_size: 0,
            range_start: None,
            range_end: None,
            is_multipart: false,
            multipart_stream: None,
            file_path: None,
        }
    }

    /// The response to a URL that names no acceptable path (403).
    pub fn forbidden() -> (r: Self)
        ensures
            r@.status_code == 403,
            r@.content_type == "text/plain"@,
            r@.error_message == Some("Forbidden: Invalid path"@),
            r@.data == encode_utf8("Forbidden: Invalid path"@),
            r@.offset == 0,
            r@.stream is None,
    {
        Self::failure(403, "Forbidden: Invalid path".to_string())
    }

    /// The response to a request for a file that does not exist (404).
    pub fn not_found(godot_path: &str) -> (r: Self)
        ensures
            r@.status_code == 404,
            r@.content_type == "text/plain"@,
            r@.error_message == Some("File not found: "@ + godot_path@),
            r@.data == encode_utf8("File not found: "@ + godot_path@),
            r@.offset == 0,
            r@.stream is None,
    {
        Self::failure(404, concat("File not found: ", godot_path))
    }

    /// The response to a request for a file that exists but cannot be
    /// opened (500).
    pub fn open_failed(godot_path: &str) -> (r: Self)
        ensures
            r@.status_code == 500,
            r@.content_type == "text/plain"@,
            r@.error_message == Some("Failed to open file: "@ + godot_path@),
            r@.data == encode_utf8("Failed to open file: "@ + godot_path@),
            r@.offset == 0,
            r@.stream is None,
    {
        Self::failure(500, concat("Failed to open file: ", godot_path))
    }

    /// Decides the response to a request for the file at `godot_path`, of
    /// `file_size` bytes, with the given `Range` header (empty where there is
    /// none): the whole file (200), one range of it (206), several ranges as
    /// a streamed multipart body (206), or an unsatisfiable range (416).
    /// Also says which bytes the caller must read and hand to `fill`.
    pub fn for_file(godot_path: &str, file_size: u64, range_header: &str) -> (r: (Self, FileRead))
        ensures
            ({
                let st = r.0@;
                let mime = mime_type_of(unicode_lowercase(extension_of(godot_path@)));
                &&& st.mime_type == mime
                &&& st.total_file_size == file_size
                &&& st.error_message is None
                &&& st.offset == 0
                &&& st.data.len() == 0
                &&& match range_request_of(range_header@, file_size) {
                    Some(RangeRequest::Single(range)) => if range.start >= file_size {
                        &&& st.status_code == 416
                        &&& st.content_type == mime
                        &&& st.range_start is None && st.range_end is None
                        &&& !st.is_multipart && st.stream is None
                        &&& r.1 == FileRead::Nothing
                    } else {
                        &&& st.status_code == 206
                        &&& st.content_type == mime
                        &&& st.range_start == Some(range.start) && st.range_end == Some(range.end)
                        &&& !st.is_multipart && st.stream is None
                        &&& r.1 == (FileRead::Range { start: range.start, len: capped_len(range_len(range)) })
                    },
                    Some(RangeRequest::Multi(rs)) => {
                        &&& st.status_code == 206
                        &&& st.content_type == multipart_content_type()
                        &&& st.range_start is None && st.range_end is None
                        &&& st.is_multipart
                        &&& st.stream matches Some(stream) && stream.ranges@ == rs
                            && stream.position(mime, file_size) == 0
                        &&& st.file_path == Some(godot_path@)
                        &&& r.1 == FileRead::Nothing
                    },
                    None => {
                        &&& st.status_code == 200
                        &&& st.content_type == mime
                        &&& st.range_start is None && st.range_end is None
                        &&& !st.is_multipart && st.stream is None
                        &&& r.1 == (FileRead::Whole { len: capped_len(file_size as int) })
                    },
                }
            }),
    {
        let ext = file_extension(godot_path);
        let mime = get_mime_type(ext.as_str());
        let mut st = ResourceState {
            data: Vec::new(),
            offset: 0,
            status_code: 0,
            mime_type: mime.to_string(),
            response_content_type: mime.to_string(),
            error_message: None,
            total_file_size: file_size,
            range_start: None,
            range_end: None,
            is_multipart: false,
            multipart_stream: None,
            file_path: None,
        };
        let parsed = parse_range_header(range_header, file_size);
        proof {
            lemma_range_request_satisfiable(range_header@, file_size);
        }
        match parsed {
            Some(ParsedRanges::Single(range)) => {
                if range.start >= file_size {
                    st.status_code = 416;
                    (st, FileRead::Nothing)
                } else {
                    let d: u64 = if range.end >= range.start { range.end - range.start } else { 0 };
                    let n: u64 = if d < u64::MAX { d + 1 } else { u64::MAX };
                    let len: i64 = if n <= 0x7fff_ffff_ffff_ffff { n as i64 } else { i64::MAX };
                    st.status_code = 206;
                    st.range_start = Some(range.start);
                    st.range_end = Some(range.end);
                    (st, FileRead::Range { start: range.start, len })
                }
            },
            Some(ParsedRanges::Multi(ranges)) => {
                let ghost rs = ranges@;
                assert forall|i: int| 0 <= i < rs.len() implies #[trigger] rs[i].start <= rs[i].end
                    < u64::MAX by {
                    assert(crate::range::range_in_file(rs[i], file_size));
                }
                let stream = MultipartStreamState::new(ranges, mime, file_size);
                let content_type = concat("multipart/byteranges; boundary=", MULTIPART_BOUNDARY);
                let r = ResourceState {
                    data: Vec::new(),
                    offset: 0,
                    status_code: 206,
                    mime_type: mime.to_string(),
                    response_content_type: content_type,
                    error_message: None,
                    total_file_size: file_size,
                    range_start: None,
                    range_end: None,
                    is_multipart: true,
                    multipart_stream: Some(stream),
                    file_path: Some(godot_path.to_string()),
                };
                (r, FileRead::Nothing)
            },
            None => {
                let len: i64 = if file_size <= 0x7fff_ffff_ffff_ffff { file_size as i64 } else { i64::MAX };
                st.status_code = 200;
                (st, FileRead::Whole { len })
            },
        }
    }

    /// Takes the bytes read from the file as the body, to be read from its
    /// start.
    pub fn fill(&mut self, data: Vec<u8>)
        ensures
            final(self)@ == (ResourceView { data: data@, offset: 0, ..old(self)@ }),
    {
        proof {
            use_type_invariant(&*self);
        }
        self.offset = 0;
        self.data = data;
    }

    /// The HTTP status of the response.
    pub fn status_code(&self) -> (r: i32)
        ensures
            r == self@.status_code,
    {
        self.status_code
    }

    /// The MIME type of the resource.
    pub fn mime_type(&self) -> (r: &str)
        ensures
            r@ == self@.mime_type,
    {
        self.mime_type.as_str()
    }

    /// The `Content-Type` the response carries.
    pub fn response_content_type(&self) -> (r: &str)
        ensures
            r@ == self@.content_type,
    {
        self.response_content_type.as_str()
    }

    /// The size of the whole file.
    pub fn total_file_size(&self) -> (r: u64)
        ensures
            r == self@.total_file_size,
    {
        self.total_file_size
    }

    /// Whether the body is a multipart stream read from the file.
    pub fn is_streaming(&self) -> (r: bool)
        ensures
            r == (self@.stream is Some && self@.file_path is Some),
    {
        self.multipart_stream.is_some() && self.file_path.is_some()
    }

    /// The path of the file that a multipart stream reads.
    pub fn file_path(&self) -> (r: Option<&str>)
        ensures
            match r {
                Some(p) => self@.file_path == Some(p@),
                None => self@.file_path is None,
            },
    {
        match &self.file_path {
            Some(p) => Some(p.as_str()),
            None => None,
        }
    }

    /// The head sent back for the response.
    pub fn response_head(&self) -> (r: ResponseHead)
        ensures
            r.status == self@.status_code,
            r.status_text@ == status_text_of(self@.status_code),
            r.mime_type@ == self@.content_type,
            r.headers@.map_values(|h: (String, String)| (h.0@, h.1@)) == headers_of(self@),
            r.response_length == response_length_of(self@),
    {
        let mut headers: Vec<(String, String)> = Vec::new();
        headers.push(header("Content-Type", self.response_content_type.clone()));
        headers.push(header("Access-Control-Allow-Origin", "*".to_string()));
        headers.push(header("Accept-Ranges", "bytes".to_string()));
        if self.status_code == 206 && !self.is_multipart {
            match (self.range_start, self.range_end) {
                (Some(start), Some(end)) => {
                    let mut v: Vec<char> = Vec::new();
                    push_str(&mut v, "bytes ");
                    push_decimal(&mut v, start);
                    push_str(&mut v, "-");
                    push_decimal(&mut v, end);
                    push_str(&mut v, "/");
                    push_decimal(&mut v, self.total_file_size);
                    headers.push(header("Content-Range", string_from_chars(&v)));
                },
                _ => {},
            }
        } else if self.status_code == 416 {
            let mut v: Vec<char> = Vec::new();
            push_str(&mut v, "bytes */");
            push_decimal(&mut v, self.total_file_size);
            headers.push(header("Content-Range", string_from_chars(&v)));
        }
        assert(headers@.map_values(|h: (String, String)| (h.0@, h.1@)) =~= headers_of(self@));
        let response_length: i64 = match &self.multipart_stream {
            Some(st) => st.total_size as i64,
            None => self.data.len() as i64,
        };
        ResponseHead {
            status: self.status_code,
            status_text: status_text(self.status_code).to_string(),
            mime_type: self.response_content_type.clone(),
            headers,
            response_length,
        }
    }

    /// The next bytes of a buffered body, at most `bytes_to_read` of them;
    /// `None` once it has all been read.
    pub fn read(&mut self, bytes_to_read: usize) -> (r: Option<Vec<u8>>)
        ensures
            same_response(old(self)@, final(self)@),
            final(self)@.stream == old(self)@.stream,
            r is None <==> old(self)@.offset == old(self)@.data.len(),
            r is None ==> final(self)@.offset == old(self)@.offset,
            r matches Some(chunk) ==> {
                let off = old(self)@.offset;
                let remaining = old(self)@.data.len() - off;
                let n = if bytes_to_read < remaining { bytes_to_read as int } else { remaining };
                &&& chunk@ == old(self)@.data.subrange(off, off + n)
                &&& final(self)@.offset == off + n
            },
    {
        proof {
            use_type_invariant(&*self);
        }
        let remaining = self.data.len() - self.offset;
        if remaining == 0 {
            return None;
        }
        let to_copy = if bytes_to_read < remaining { bytes_to_read } else { remaining };
        let start = self.offset;
        let chunk = vstd::slice::slice_to_vec(
            vstd::slice::slice_subrange(self.data.as_slice(), start, start + to_copy),
        );
        self.offset = start + to_copy;
        Some(chunk)
    }

    /// Skips up to `bytes_to_skip` bytes of the body (none for a negative
    /// count) and says how many were skipped: of the multipart stream where
    /// there is one, else of the buffered body.
    pub fn skip(&mut self, bytes_to_skip: i64) -> (r: i64)
        ensures
            same_response(old(self)@, final(self)@),
            same_stream_shape(old(self)@, final(self)@),
            ({
                let n: int = if bytes_to_skip > 0 { (bytes_to_skip as usize) as int } else { 0 };
                match old(self)@.stream {
                    Some(_) => {
                        let left = stream_body_len(old(self)@) - stream_position(old(self)@);
                        let k = if n <= left { n } else { left };
                        &&& r == k as i64
                        &&& stream_position(final(self)@) == stream_position(old(self)@) + k
                        &&& final(self)@.offset == old(self)@.offset
                    },
                    None => {
                        let left = old(self)@.data.len() - old(self)@.offset;
                        let k = if n <= left { n } else { left };
                        &&& r == k as i64
                        &&& final(self)@.offset == old(self)@.offset + k
                        &&& final(self)@.stream is None
                    },
                }
            }),
    {
        proof {
            use_type_invariant(&*self);
        }
        let n: usize = if bytes_to_skip > 0 { bytes_to_skip as usize } else { 0 };
        let mut taken: Option<MultipartStreamState> = None;
        std::mem::swap(&mut taken, &mut self.multipart_stream);
        match taken {
            Some(mut stream) => {
                let skipped = skip_multipart_streaming(
                    &mut stream,
                    self.mime_type.as_str(),
                    self.total_file_size,
                    n,
                );
                self.multipart_stream = Some(stream);
                skipped as i64
            },
            None => {
                let remaining = self.data.len() - self.offset;
                let to_skip = if n < remaining { n } else { remaining };
                self.offset = self.offset + to_skip;
                to_skip as i64
            },
        }
    }

    /// Drops the multipart stream of a cancelled request.
    pub fn cancel(&mut self)
        ensures
            same_response(old(self)@, final(self)@),
            final(self)@.offset == old(self)@.offset,
            final(self)@.stream is None,
    {
        proof {
            use_type_invariant(&*self);
        }
        if self.multipart_stream.is_some() {
            self.multipart_stream = None;
        }
    }

    /// Produces the next bytes of a multipart body into `out`, as
    /// [`read_multipart_step`] does on the response's stream; `None` (and
    /// nothing changed) where the body is not streamed.
    pub fn read_multipart(&mut self, out: &mut Vec<u8>, bytes_to_read: usize) -> (r: Option<
        MultipartRead,
    >)
        requires
            old(out)@.len() <= bytes_to_read,
        ensures
            same_response(old(self)@, final(self)@),
            same_stream_shape(old(self)@, final(self)@),
            final(self)@.offset == old(self)@.offset,
            r is None <==> !(old(self)@.stream is Some && old(self)@.file_path is Some),
            r is None ==> final(self)@ == old(self)@ && final(out)@ == old(out)@,
            r matches Some(step) ==> {
                let p0 = stream_position(old(self)@);
                let p1 = stream_position(final(self)@);
                let st = old(self)@.stream.unwrap();
                let body = st.body(old(self)@.mime_type, old(self)@.total_file_size);
                &&& p0 <= p1 <= body.len()
                &&& final(out)@.len() == old(out)@.len() + (p1 - p0)
                &&& final(out)@.take(old(out)@.len() as int) == old(out)@
                &&& forall|k: int|
                    0 <= k < p1 - p0 ==> body[p0 + k] == crate::multipart::BodyByte::Frame(
                        #[trigger] final(out)@[old(out)@.len() + k],
                    )
                &&& final(out)@.len() <= bytes_to_read
                &&& match step {
                    MultipartRead::Filled => final(out)@.len() == bytes_to_read,
                    MultipartRead::Finished => final(self)@.stream.unwrap().phase
                        == MultipartPhase::Complete,
                    MultipartRead::NeedFileData { offset, len } => {
                        let st1 = final(self)@.stream.unwrap();
                        &&& st1.phase == MultipartPhase::Data
                        &&& 0 < len
                        &&& len as int == if bytes_to_read - final(out)@.len()
                            <= remaining_in_segment(
                            st1,
                            final(self)@.mime_type,
                            final(self)@.total_file_size,
                        ) {
                            bytes_to_read - final(out)@.len()
                        } else {
                            remaining_in_segment(
                                st1,
                                final(self)@.mime_type,
                                final(self)@.total_file_size,
                            )
                        }
                        &&& forall|j: int|
                            0 <= j < len ==> crate::multipart::segment_byte(
                                st1,
                                final(self)@.mime_type,
                                final(self)@.total_file_size,
                                j,
                            ) == crate::multipart::BodyByte::FileData((offset + j) as u64)
                    },
                }
            },
    {
        proof {
            use_type_invariant(&*self);
        }
        if self.file_path.is_none() {
            return None;
        }
        let mut taken: Option<MultipartStreamState> = None;
        std::mem::swap(&mut taken, &mut self.multipart_stream);
        match taken {
            Some(mut stream) => {
                let step = read_multipart_step(
                    &mut stream,
                    self.mime_type.as_str(),
                    self.total_file_size,
                    out,
                    bytes_to_read,
                );
                self.multipart_stream = Some(stream);
                Some(step)
            },
            None => None,
        }
    }

    /// Hands the multipart stream the file bytes that a
    /// [`MultipartRead::NeedFileData`] asked for, appending them to `out`.
    /// Where the file gave none (or more than the stream is at), the stream
    /// is ended instead, so that no malformed body goes out; the result says
    /// which happened.
    pub fn feed_multipart(&mut self, data: &[u8], out: &mut Vec<u8>) -> (r: bool)
        ensures
            same_response(old(self)@, final(self)@),
            same_stream_shape(old(self)@, final(self)@),
            final(self)@.offset == old(self)@.offset,
            r <==> (old(self)@.stream matches Some(st) && st.phase == MultipartPhase::Data && 0
                < data@.len() <= remaining_in_segment(
                st,
                old(self)@.mime_type,
                old(self)@.total_file_size,
            )),
            r ==> final(out)@ == old(out)@ + data@ && stream_position(final(self)@) == stream_position(
                old(self)@,
            ) + data@.len(),
            !r ==> final(out)@ == old(out)@ && (final(self)@.stream matches Some(st)
                ==> st.phase == MultipartPhase::Complete),
    {
        proof {
            use_type_invariant(&*self);
        }
        let mut taken: Option<MultipartStreamState> = None;
        std::mem::swap(&mut taken, &mut self.multipart_stream);
        match taken {
            Some(mut stream) => {
                let fits = stream.phase == MultipartPhase::Data && data.len() > 0
                    && (data.len() as u64) <= segment_remaining(
                    &stream,
                    self.mime_type.as_str(),
                    self.total_file_size,
                );
                if fits {
                    stream.feed_file_data(self.mime_type.as_str(), self.total_file_size, data, out);
                } else {
                    stream.abort();
                }
                self.multipart_stream = Some(stream);
                fits
            },
            None => false,
        }
    }
}

} // verus!
