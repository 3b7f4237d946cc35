//! Multipart byte-range responses (HTTP 206 with several ranges), streamed
//! on demand.
//!
//! The body of such a response is, for each range, a part header, the
//! range's bytes of the file and a CRLF, followed by a closing boundary.
//! [`MultipartStreamState`] is a position in that body; reading and
//! skipping advance it. The file's bytes are fetched by the caller when
//! [`read_multipart_step`] asks for them.

use vstd::prelude::*;
use vstd::utf8::encode_utf8;

use crate::range::ByteRange;
use crate::text::{decimal, push_decimal, push_str, string_from_chars, utf8_of};

verus! {

/// The boundary that separates the parts of a multipart response.
pub const MULTIPART_BOUNDARY: &'static str = "godot_cef_multipart_boundary";

/// Where in the body of a multipart response a stream stands.
#[derive(Clone, Copy, Debug, PartialEq, Eq, Structural)]
pub enum MultipartPhase {
    Header,
    Data,
    TrailingCrlf,
    FinalBoundary,
    Complete,
}

/// A position in the body of a multipart byte-range response.
#[derive(Clone, Debug)]
pub struct MultipartStreamState {
    pub ranges: Vec<ByteRange>,
    pub current_range_index: usize,
    pub current_range_offset: u64,
    pub phase: MultipartPhase,
    pub phase_offset: usize,
    pub total_size: u64,
}

/// One byte of a multipart body: a byte of the framing, or the byte of
/// the file at the given offset.
pub enum BodyByte {
    Frame(u8),
    FileData(u64),
}

/// The header text of the part for range `r`.
pub open spec fn header_text(mime: Seq<char>, r: ByteRange, file_size: u64) -> Seq<char> {
    "--"@ + MULTIPART_BOUNDARY@ + "\r\nContent-Type: "@ + mime + "\r\nContent-Range: bytes "@
        + decimal(r.start as nat) + "-"@ + decimal(r.end as nat) + "/"@ + decimal(
        file_size as nat,
    ) + "\r\n\r\n"@
}

pub open spec fn header_bytes(mime: Seq<char>, r: ByteRange, file_size: u64) -> Seq<u8> {
    encode_utf8(header_text(mime, r, file_size))
}

pub open spec fn crlf_bytes() -> Seq<u8> {
    seq![13u8, 10u8]
}

/// The closing boundary, `--boundary--` and CRLF.
pub open spec fn final_boundary_bytes() -> Seq<u8> {
    encode_utf8("--"@ + MULTIPART_BOUNDARY@ + "--\r\n"@)
}

/// Number of file bytes in a range.
pub open spec fn data_len(r: ByteRange) -> nat {
    (r.end - r.start + 1) as nat
}

pub open spec fn frame(b: Seq<u8>) -> Seq<BodyByte> {
    b.map_values(|x: u8| BodyByte::Frame(x))
}

pub open spec fn range_data(r: ByteRange) -> Seq<BodyByte> {
    Seq::new(data_len(r), |j: int| BodyByte::FileData((r.start + j) as u64))
}

/// The part of the body that serves range `r`.
pub open spec fn part(mime: Seq<char>, r: ByteRange, file_size: u64) -> Seq<BodyByte> {
    frame(header_bytes(mime, r, file_size)) + range_data(r) + frame(crlf_bytes())
}

/// The parts for a list of ranges, in order.
pub open spec fn parts(rs: Seq<ByteRange>, mime: Seq<char>, file_size: u64) -> Seq<BodyByte>
    decreases rs.len(),
{
    if rs.len() == 0 {
        Seq::empty()
    } else {
        parts(rs.drop_last(), mime, file_size) + part(mime, rs.last(), file_size)
    }
}

/// The whole body of the multipart response for `rs`.
pub open spec fn multipart_body(rs: Seq<ByteRange>, mime: Seq<char>, file_size: u64) -> Seq<
    BodyByte,
> {
    parts(rs, mime, file_size) + frame(final_boundary_bytes())
}

/// Ranges that the stream can serve: non-empty, and whose length
/// `end - start + 1` fits in 64 bits.
pub open spec fn ranges_servable(rs: Seq<ByteRange>) -> bool {
    forall|i: int|
        0 <= i < rs.len() ==> #[trigger] rs[i].start <= rs[i].end && rs[i].end - rs[i].start
            < u64::MAX
}

pub open spec fn header_len_at(st: MultipartStreamState, mime: Seq<char>, file_size: u64) -> nat {
    header_bytes(mime, st.ranges@[st.current_range_index as int], file_size).len()
}

/// Offset in the body of the first byte of the part of range `i`.
pub open spec fn part_start(rs: Seq<ByteRange>, i: int, mime: Seq<char>, file_size: u64) -> nat {
    parts(rs.take(i), mime, file_size).len()
}

impl MultipartStreamState {
    /// The stream is at a consistent position of the body for `mime` and
    /// `file_size`.
    pub open spec fn wf(self, mime: Seq<char>, file_size: u64) -> bool {
        let rs = self.ranges@;
        let i = self.current_range_index as int;
        &&& ranges_servable(rs)
        &&& i <= rs.len()
        &&& match self.phase {
            MultipartPhase::Header => if i < rs.len() {
                self.phase_offset <= header_len_at(self, mime, file_size)
                    && self.current_range_offset == 0
            } else {
                self.phase_offset == 0
            },
            MultipartPhase::Data => i < rs.len() ==> self.current_range_offset <= data_len(rs[i]),
            MultipartPhase::TrailingCrlf => i < rs.len() && self.phase_offset <= 2,
            MultipartPhase::FinalBoundary => i == rs.len() && self.phase_offset
                <= final_boundary_bytes().len(),
            MultipartPhase::Complete => true,
        }
    }

    /// The offset in the body of the next byte the stream produces.
    pub open spec fn position(self, mime: Seq<char>, file_size: u64) -> int {
        let rs = self.ranges@;
        let i = self.current_range_index as int;
        match self.phase {
            MultipartPhase::Header => if i < rs.len() {
                part_start(rs, i, mime, file_size) + self.phase_offset
            } else {
                parts(rs, mime, file_size).len() as int
            },
            MultipartPhase::Data => if i < rs.len() {
                part_start(rs, i, mime, file_size) + header_len_at(self, mime, file_size)
                    + self.current_range_offset
            } else {
                parts(rs, mime, file_size).len() as int
            },
            MultipartPhase::TrailingCrlf => part_start(rs, i, mime, file_size) + header_len_at(
                self,
                mime,
                file_size,
            ) + data_len(rs[i]) + self.phase_offset,
            MultipartPhase::FinalBoundary => parts(rs, mime, file_size).len() + self.phase_offset,
            MultipartPhase::Complete => multipart_body(rs, mime, file_size).len() as int,
        }
    }

    pub open spec fn body(self, mime: Seq<char>, file_size: u64) -> Seq<BodyByte> {
        multipart_body(self.ranges@, mime, file_size)
    }
}

/// The header text of the part for `r`, as characters.
fn header_chars(mime: &str, r: ByteRange, file_size: u64) -> (v: Vec<char>)
    ensures
        v@ == header_text(mime@, r, file_size),
{
    let mut v: Vec<char> = Vec::new();
    push_str(&mut v, "--");
    push_str(&mut v, MULTIPART_BOUNDARY);
    push_str(&mut v, "\r\nContent-Type: ");
    push_str(&mut v, mime);
    push_str(&mut v, "\r\nContent-Range: bytes ");
    push_decimal(&mut v, r.start);
    push_str(&mut v, "-");
    push_decimal(&mut v, r.end);
    push_str(&mut v, "/");
    push_decimal(&mut v, file_size);
    push_str(&mut v, "\r\n\r\n");
    assert(v@ =~= header_text(mime@, r, file_size));
    v
}

/// The header bytes of the part for `r`.
fn header_utf8(mime: &str, r: ByteRange, file_size: u64) -> (b: Vec<u8>)
    ensures
        b@ == header_bytes(mime@, r, file_size),
{
    let v = header_chars(mime, r, file_size);
    assert(v@.subrange(0, v@.len() as int) =~= v@);
    utf8_of(&v, 0, v.len())
}

proof fn lemma_parts_take_step(rs: Seq<ByteRange>, i: int, mime: Seq<char>, file_size: u64)
    requires
        0 <= i < rs.len(),
    ensures
        parts(rs.take(i + 1), mime, file_size) == parts(rs.take(i), mime, file_size) + part(
            mime,
            rs[i],
            file_size,
        ),
{
    assert(rs.take(i + 1).drop_last() =~= rs.take(i));
    assert(rs.take(i + 1).last() == rs[i]);
}

proof fn lemma_parts_prefix(rs: Seq<ByteRange>, j: int, mime: Seq<char>, file_size: u64)
    requires
        0 <= j <= rs.len(),
    ensures
        parts(rs.take(j), mime, file_size).len() <= parts(rs, mime, file_size).len(),
        forall|k: int|
            0 <= k < parts(rs.take(j), mime, file_size).len() ==> parts(rs, mime, file_size)[k]
                == #[trigger] parts(rs.take(j), mime, file_size)[k],
    decreases rs.len(),
{
    if j == rs.len() {
        assert(rs.take(j) =~= rs);
    } else {
        let d = rs.drop_last();
        assert(d.take(j) =~= rs.take(j));
        lemma_parts_prefix(d, j, mime, file_size);
    }
}

proof fn lemma_parts_all(rs: Seq<ByteRange>, mime: Seq<char>, file_size: u64)
    ensures
        parts(rs.take(rs.len() as int), mime, file_size) == parts(rs, mime, file_size),
{
    assert(rs.take(rs.len() as int) =~= rs);
}

/// The body byte at offset `k` of the part of range `i`.
proof fn lemma_body_in_part(rs: Seq<ByteRange>, i: int, k: int, mime: Seq<char>, file_size: u64)
    requires
        0 <= i < rs.len(),
        0 <= k < part(mime, rs[i], file_size).len(),
    ensures
        part_start(rs, i, mime, file_size) + k < parts(rs, mime, file_size).len(),
        multipart_body(rs, mime, file_size)[part_start(rs, i, mime, file_size) + k] == part(
            mime,
            rs[i],
            file_size,
        )[k],
{
    lemma_parts_take_step(rs, i, mime, file_size);
    lemma_parts_prefix(rs, i + 1, mime, file_size);
    let p = parts(rs.take(i + 1), mime, file_size);
    assert(p[part_start(rs, i, mime, file_size) + k] == part(mime, rs[i], file_size)[k]);
}

/// The body byte at offset `k` of the closing boundary.
proof fn lemma_body_in_final_boundary(rs: Seq<ByteRange>, k: int, mime: Seq<char>, file_size: u64)
    requires
        0 <= k < final_boundary_bytes().len(),
    ensures
        multipart_body(rs, mime, file_size)[parts(rs, mime, file_size).len() + k]
            == BodyByte::Frame(final_boundary_bytes()[k]),
{
}

pub open spec fn saturating_u64(n: int) -> u64 {
    if n > u64::MAX {
        u64::MAX
    } else {
        n as u64
    }
}

/// The number of bytes in the body of a multipart response, saturated at
/// `u64::MAX`.
pub fn calculate_multipart_size(ranges: &[ByteRange], mime_type: &str, file_size: u64) -> (r: u64)
    requires
        ranges_servable(ranges@),
    ensures
        r == saturating_u64(multipart_body(ranges@, mime_type@, file_size).len() as int),
{
    let ghost rs = ranges@;
    let ghost mime = mime_type@;
    let mut total: u64 = 0;
    let mut i: usize = 0;
    assert(rs.take(0) =~= Seq::<ByteRange>::empty());
    while i < ranges.len()
        invariant
            i <= rs.len(),
            rs == ranges@,
            mime == mime_type@,
            ranges_servable(rs),
            total == saturating_u64(parts(rs.take(i as int), mime, file_size).len() as int),
        decreases ranges.len() - i,
    {
        let range = ranges[i];
        let header = header_utf8(mime_type, range, file_size);
        proof {
            lemma_parts_take_step(rs, i as int, mime, file_size);
            assert(rs[i as int] == range);
        }
        total = total.saturating_add(header.len() as u64);
        total = total.saturating_add(range.end - range.start + 1);
        total = total.saturating_add(2);
        i = i + 1;
    }
    proof {
        lemma_parts_all(rs, mime, file_size);
    }
    let fb = MultipartStreamState::final_boundary();
    total.saturating_add(fb.len() as u64)
}

impl MultipartStreamState {
    /// A stream at the start of the body for `ranges`.
    pub fn new(ranges: Vec<ByteRange>, mime_type: &str, file_size: u64) -> (r: Self)
        requires
            ranges_servable(ranges@),
        ensures
            r.wf(mime_type@, file_size),
            r.position(mime_type@, file_size) == 0,
            r.ranges@ == ranges@,
            r.total_size == saturating_u64(r.body(mime_type@, file_size).len() as int),
    {
        let total_size = calculate_multipart_size(ranges.as_slice(), mime_type, file_size);
        let r = Self {
            ranges,
            current_range_index: 0,
            current_range_offset: 0,
            phase: MultipartPhase::Header,
            phase_offset: 0,
            total_size,
        };
        assert(r.ranges@.take(0) =~= Seq::<ByteRange>::empty());
        r
    }

    /// The header of the part the stream is in, or an empty string past
    /// the last range.
    pub fn build_current_header(&self, mime_type: &str, file_size: u64) -> (r: String)
        ensures
            self.current_range_index < self.ranges@.len() ==> r@ == header_text(
                mime_type@,
                self.ranges@[self.current_range_index as int],
                file_size,
            ),
            self.current_range_index >= self.ranges@.len() ==> r@ == Seq::<char>::empty(),
    {
        if self.current_range_index >= self.ranges.len() {
            return String::new();
        }
        let v = header_chars(mime_type, self.ranges[self.current_range_index], file_size);
        string_from_chars(&v)
    }

    /// The closing boundary of the body.
    pub fn final_boundary() -> (r: Vec<u8>)
        ensures
            r@ == final_boundary_bytes(),
    {
        let mut v: Vec<char> = Vec::new();
        push_str(&mut v, "--");
        push_str(&mut v, MULTIPART_BOUNDARY);
        push_str(&mut v, "--\r\n");
        assert(v@ =~= "--"@ + MULTIPART_BOUNDARY@ + "--\r\n"@);
        assert(v@.subrange(0, v@.len() as int) =~= v@);
        utf8_of(&v, 0, v.len())
    }
}

pub open spec fn step_rank(st: MultipartStreamState) -> int {
    let i = st.current_range_index as int;
    let n = st.ranges@.len() as int;
    match st.phase {
        MultipartPhase::Header => 4 * i,
        MultipartPhase::Data => 4 * i + 1,
        MultipartPhase::TrailingCrlf => 4 * i + 2,
        MultipartPhase::FinalBoundary => 4 * n + 3,
        MultipartPhase::Complete => 4 * n + 4,
    }
}

/// A consistent stream stands inside its body.
pub proof fn lemma_position_in_body(st: MultipartStreamState, mime: Seq<char>, file_size: u64)
    requires
        st.wf(mime, file_size),
    ensures
        0 <= st.position(mime, file_size) <= st.body(mime, file_size).len(),
        st.phase == MultipartPhase::Complete ==> st.position(mime, file_size) == st.body(
            mime,
            file_size,
        ).len(),
        0 <= step_rank(st) <= 4 * st.ranges@.len() + 4,
{
    let rs = st.ranges@;
    let i = st.current_range_index as int;
    lemma_parts_all(rs, mime, file_size);
    if i < rs.len() {
        lemma_parts_take_step(rs, i, mime, file_size);
        lemma_parts_prefix(rs, i + 1, mime, file_size);
    }
}

/// Bytes left in the segment (header, range data, CRLF or closing
/// boundary) that the stream is in.
pub open spec fn remaining_in_segment(st: MultipartStreamState, mime: Seq<char>, file_size: u64) -> int {
    let rs = st.ranges@;
    let i = st.current_range_index as int;
    match st.phase {
        MultipartPhase::Header => if i < rs.len() {
            header_len_at(st, mime, file_size) - st.phase_offset
        } else {
            0
        },
        MultipartPhase::Data => if i < rs.len() {
            data_len(rs[i]) - st.current_range_offset
        } else {
            0
        },
        MultipartPhase::TrailingCrlf => 2 - st.phase_offset,
        MultipartPhase::FinalBoundary => final_boundary_bytes().len() - st.phase_offset,
        MultipartPhase::Complete => 0,
    }
}

/// The body byte `j` places after the stream's position, within its
/// current segment.
pub open spec fn segment_byte(st: MultipartStreamState, mime: Seq<char>, file_size: u64, j: int) -> BodyByte {
    let rs = st.ranges@;
    let i = st.current_range_index as int;
    match st.phase {
        MultipartPhase::Header => BodyByte::Frame(
            header_bytes(mime, rs[i], file_size)[st.phase_offset + j],
        ),
        MultipartPhase::Data => BodyByte::FileData((rs[i].start + st.current_range_offset + j) as u64),
        MultipartPhase::TrailingCrlf => BodyByte::Frame(crlf_bytes()[st.phase_offset + j]),
        _ => BodyByte::Frame(final_boundary_bytes()[st.phase_offset + j]),
    }
}

/// The rest of the current segment lies in the body at the stream's
/// position.
proof fn lemma_segment_in_body(st: MultipartStreamState, mime: Seq<char>, file_size: u64, j: int)
    requires
        st.wf(mime, file_size),
        0 <= j < remaining_in_segment(st, mime, file_size),
    ensures
        st.position(mime, file_size) + j < st.body(mime, file_size).len(),
        st.body(mime, file_size)[st.position(mime, file_size) + j] == segment_byte(
            st,
            mime,
            file_size,
            j,
        ),
{
    let rs = st.ranges@;
    let i = st.current_range_index as int;
    match st.phase {
        MultipartPhase::Header => {
            lemma_body_in_part(rs, i, st.phase_offset + j, mime, file_size);
        },
        MultipartPhase::Data => {
            let hl = header_len_at(st, mime, file_size);
            lemma_body_in_part(rs, i, hl + st.current_range_offset + j, mime, file_size);
        },
        MultipartPhase::TrailingCrlf => {
            let hl = header_len_at(st, mime, file_size);
            lemma_body_in_part(rs, i, hl + data_len(rs[i]) + st.phase_offset + j, mime, file_size);
        },
        MultipartPhase::FinalBoundary => {
            lemma_body_in_final_boundary(rs, st.phase_offset + j, mime, file_size);
        },
        MultipartPhase::Complete => {},
    }
}

/// Bytes left in the stream's current segment.
pub(crate) fn segment_remaining(stream: &MultipartStreamState, mime_type: &str, file_size: u64) -> (r: u64)
    requires
        stream.wf(mime_type@, file_size),
    ensures
        r == remaining_in_segment(*stream, mime_type@, file_size),
        stream.position(mime_type@, file_size) + r <= stream.body(mime_type@, file_size).len(),
        stream.phase != MultipartPhase::Data ==> stream.phase_offset + r <= usize::MAX,
{
    proof {
        lemma_position_in_body(*stream, mime_type@, file_size);
        let rem = remaining_in_segment(*stream, mime_type@, file_size);
        if rem > 0 {
            lemma_segment_in_body(*stream, mime_type@, file_size, rem - 1);
        }
    }
    let i = stream.current_range_index;
    match stream.phase {
        MultipartPhase::Complete => 0,
        MultipartPhase::Header => {
            if i >= stream.ranges.len() {
                0
            } else {
                let header = header_utf8(mime_type, stream.ranges[i], file_size);
                (header.len() - stream.phase_offset) as u64
            }
        },
        MultipartPhase::Data => {
            if i >= stream.ranges.len() {
                0
            } else {
                let range = stream.ranges[i];
                assert(range == stream.ranges@[i as int]);
                range.end - range.start + 1 - stream.current_range_offset
            }
        },
        MultipartPhase::TrailingCrlf => (2 - stream.phase_offset) as u64,
        MultipartPhase::FinalBoundary => {
            let fb = MultipartStreamState::final_boundary();
            (fb.len() - stream.phase_offset) as u64
        },
    }
}

/// Moves a stream whose segment is exhausted on to the next segment.
fn next_segment(stream: &mut MultipartStreamState, mime_type: &str, file_size: u64)
    requires
        old(stream).wf(mime_type@, file_size),
        old(stream).phase != MultipartPhase::Complete,
        remaining_in_segment(*old(stream), mime_type@, file_size) == 0,
    ensures
        final(stream).wf(mime_type@, file_size),
        final(stream).ranges@ == old(stream).ranges@,
        final(stream).total_size == old(stream).total_size,
        final(stream).position(mime_type@, file_size) == old(stream).position(mime_type@, file_size),
        step_rank(*final(stream)) > step_rank(*old(stream)),
        final(stream).phase == MultipartPhase::Complete ==> old(stream).phase
            == MultipartPhase::FinalBoundary,
{
    let ghost mime = mime_type@;
    let ghost rs = stream.ranges@;
    let i = stream.current_range_index;
    proof {
        if (i as int) < rs.len() {
            lemma_parts_take_step(rs, i as int, mime, file_size);
        }
        lemma_parts_all(rs, mime, file_size);
    }
    match stream.phase {
        MultipartPhase::Header => {
            stream.phase = MultipartPhase::Data;
            stream.phase_offset = 0;
        },
        MultipartPhase::Data => {
            if stream.current_range_index >= stream.ranges.len() {
                stream.phase = MultipartPhase::FinalBoundary;
            } else {
                stream.phase = MultipartPhase::TrailingCrlf;
            }
            stream.phase_offset = 0;
        },
        MultipartPhase::TrailingCrlf => {
            assert(stream.current_range_index < stream.ranges.len());
            stream.current_range_index = stream.current_range_index + 1;
            stream.current_range_offset = 0;
            if stream.current_range_index >= stream.ranges.len() {
                stream.phase = MultipartPhase::FinalBoundary;
            } else {
                stream.phase = MultipartPhase::Header;
            }
            stream.phase_offset = 0;
        },
        _ => {
            stream.phase = MultipartPhase::Complete;
        },
    }
}

/// Advances the stream by `n` bytes inside its current segment.
fn advance_in_segment(stream: &mut MultipartStreamState, mime_type: &str, file_size: u64, n: u64)
    requires
        old(stream).wf(mime_type@, file_size),
        0 < n <= remaining_in_segment(*old(stream), mime_type@, file_size),
        old(stream).phase != MultipartPhase::Data ==> old(stream).phase_offset + n <= usize::MAX,
    ensures
        final(stream).wf(mime_type@, file_size),
        final(stream).ranges@ == old(stream).ranges@,
        final(stream).total_size == old(stream).total_size,
        final(stream).phase == old(stream).phase,
        final(stream).position(mime_type@, file_size) == old(stream).position(mime_type@, file_size)
            + n,
{
    assert(old(stream).phase == MultipartPhase::Data ==> (old(stream).current_range_index as int)
        < old(stream).ranges@.len());
    match stream.phase {
        MultipartPhase::Data => {
            stream.current_range_offset = stream.current_range_offset + n;
        },
        _ => {
            stream.phase_offset = stream.phase_offset + n as usize;
        },
    }
}

/// Skips bytes of a multipart response without producing them; returns
/// how many were skipped.
pub fn skip_multipart_streaming(
    stream: &mut MultipartStreamState,
    mime_type: &str,
    file_size: u64,
    bytes_to_skip: usize,
) -> (skipped: usize)
    requires
        old(stream).wf(mime_type@, file_size),
    ensures
        final(stream).wf(mime_type@, file_size),
        final(stream).ranges@ == old(stream).ranges@,
        final(stream).total_size == old(stream).total_size,
        final(stream).position(mime_type@, file_size) == old(stream).position(mime_type@, file_size)
            + skipped,
        skipped as int == if bytes_to_skip as int <= old(stream).body(mime_type@, file_size).len()
            - old(stream).position(mime_type@, file_size) {
            bytes_to_skip as int
        } else {
            old(stream).body(mime_type@, file_size).len() - old(stream).position(
                mime_type@,
                file_size,
            )
        },
        bytes_to_skip as int > old(stream).body(mime_type@, file_size).len() - old(
            stream,
        ).position(mime_type@, file_size) ==> final(stream).phase == MultipartPhase::Complete,
{
    let ghost mime = mime_type@;
    let ghost rs = stream.ranges@;
    let ghost start = stream.position(mime, file_size);
    let ghost blen = stream.body(mime, file_size).len() as int;
    proof {
        lemma_position_in_body(*stream, mime, file_size);
    }
    let mut skipped: usize = 0;
    while skipped < bytes_to_skip
        invariant
            stream.wf(mime, file_size),
            mime == mime_type@,
            stream.ranges@ == rs,
            stream.total_size == old(stream).total_size,
            blen == multipart_body(rs, mime, file_size).len(),
            skipped <= bytes_to_skip,
            0 <= start <= blen,
            stream.position(mime, file_size) == start + skipped,
        ensures
            skipped == bytes_to_skip || stream.phase == MultipartPhase::Complete,
        decreases blen - stream.position(mime, file_size), 4 * rs.len() + 4 - step_rank(*stream),
    {
        proof {
            lemma_position_in_body(*stream, mime, file_size);
        }
        if stream.phase == MultipartPhase::Complete {
            break;
        }
        let remaining = segment_remaining(stream, mime_type, file_size);
        if remaining == 0 {
            next_segment(stream, mime_type, file_size);
            proof {
                lemma_position_in_body(*stream, mime, file_size);
            }
            continue;
        }
        let budget = (bytes_to_skip - skipped) as u64;
        let n = if budget < remaining {
            budget
        } else {
            remaining
        };
        advance_in_segment(stream, mime_type, file_size, n);
        skipped = skipped + n as usize;
    }
    proof {
        lemma_position_in_body(*stream, mime, file_size);
    }
    skipped
}

/// The byte a body byte stands for, given the file's bytes.
pub open spec fn resolve_byte(b: BodyByte, file: Seq<u8>) -> u8 {
    match b {
        BodyByte::Frame(x) => x,
        BodyByte::FileData(o) => file[o as int],
    }
}

/// The bytes of a body, given the file's bytes.
pub open spec fn body_bytes(body: Seq<BodyByte>, file: Seq<u8>) -> Seq<u8> {
    body.map_values(|b: BodyByte| resolve_byte(b, file))
}

/// The file offset of the next data byte of a stream in its data phase.
pub open spec fn data_offset(st: MultipartStreamState) -> int {
    st.ranges@[st.current_range_index as int].start + st.current_range_offset
}

/// The file holds `data` at `offset`.
pub open spec fn file_holds(file: Seq<u8>, offset: int, data: Seq<u8>) -> bool {
    forall|j: int| 0 <= j < data.len() ==> #[trigger] data[j] == file[offset + j]
}

/// One call moves the stream from `st0` to `st1` and writes `chunk`: the
/// body bytes between the two positions, the file's bytes standing in for
/// its data.
pub open spec fn produces(
    st0: MultipartStreamState,
    st1: MultipartStreamState,
    mime: Seq<char>,
    file_size: u64,
    file: Seq<u8>,
    chunk: Seq<u8>,
) -> bool {
    let p0 = st0.position(mime, file_size);
    &&& st0.wf(mime, file_size)
    &&& st1.wf(mime, file_size)
    &&& st1.ranges@ == st0.ranges@
    &&& st1.position(mime, file_size) == p0 + chunk.len()
    &&& forall|k: int|
        0 <= k < chunk.len() ==> #[trigger] chunk[k] == resolve_byte(
            st0.body(mime, file_size)[p0 + k],
            file,
        )
}

/// The chunks one after the other.
pub open spec fn joined(chunks: Seq<Seq<u8>>) -> Seq<u8>
    decreases chunks.len(),
{
    if chunks.len() == 0 {
        Seq::empty()
    } else {
        joined(chunks.drop_last()) + chunks.last()
    }
}

/// Framing bytes written at the stream's position make a `produces` step.
proof fn lemma_frames_produce(
    st0: MultipartStreamState,
    st1: MultipartStreamState,
    mime: Seq<char>,
    file_size: u64,
    out0: Seq<u8>,
    out1: Seq<u8>,
)
    requires
        st0.wf(mime, file_size),
        st1.wf(mime, file_size),
        st1.ranges@ == st0.ranges@,
        out1.len() == out0.len() + (st1.position(mime, file_size) - st0.position(mime, file_size)),
        st0.position(mime, file_size) <= st1.position(mime, file_size),
        forall|k: int|
            0 <= k < st1.position(mime, file_size) - st0.position(mime, file_size)
                ==> st0.body(mime, file_size)[st0.position(mime, file_size) + k] == BodyByte::Frame(
                #[trigger] out1[out0.len() + k],
            ),
    ensures
        forall|file: Seq<u8>|
            #[trigger] produces(st0, st1, mime, file_size, file, out1.skip(out0.len() as int)),
{
    let chunk = out1.skip(out0.len() as int);
    let p0 = st0.position(mime, file_size);
    assert forall|file: Seq<u8>| #[trigger]
        produces(st0, st1, mime, file_size, file, out1.skip(out0.len() as int)) by {
        assert forall|k: int| 0 <= k < chunk.len() implies #[trigger] chunk[k] == resolve_byte(
            st0.body(mime, file_size)[p0 + k],
            file,
        ) by {
            assert(chunk[k] == out1[out0.len() + k]);
        }
    }
}

/// Reading a multipart response call after call, from the start of its
/// body until the stream is complete, writes the whole body: the chunks
/// the calls write, joined, are the body's bytes with the file's bytes in
/// place of its data.
pub proof fn lemma_reads_produce_body(
    sts: Seq<MultipartStreamState>,
    chunks: Seq<Seq<u8>>,
    mime: Seq<char>,
    file_size: u64,
    file: Seq<u8>,
)
    requires
        sts.len() == chunks.len() + 1,
        sts[0].wf(mime, file_size),
        sts[0].position(mime, file_size) == 0,
        forall|i: int|
            0 <= i < chunks.len() ==> #[trigger] produces(
                sts[i],
                sts[i + 1],
                mime,
                file_size,
                file,
                chunks[i],
            ),
        sts.last().phase == MultipartPhase::Complete,
    ensures
        joined(chunks) == body_bytes(sts[0].body(mime, file_size), file),
{
    let n = chunks.len() as int;
    let body = sts[0].body(mime, file_size);
    let bb = body_bytes(body, file);
    lemma_reads_prefix(sts, chunks, mime, file_size, file, n);
    assert(sts[n] == sts.last());
    lemma_position_in_body(sts[n], mime, file_size);
    assert(chunks.take(n) =~= chunks);
    assert(bb.take(body.len() as int) =~= bb);
}

/// After `i` calls the joined chunks are the body up to the stream's
/// position.
proof fn lemma_reads_prefix(
    sts: Seq<MultipartStreamState>,
    chunks: Seq<Seq<u8>>,
    mime: Seq<char>,
    file_size: u64,
    file: Seq<u8>,
    i: int,
)
    requires
        sts.len() == chunks.len() + 1,
        0 <= i <= chunks.len(),
        sts[0].wf(mime, file_size),
        sts[0].position(mime, file_size) == 0,
        forall|j: int|
            0 <= j < chunks.len() ==> #[trigger] produces(
                sts[j],
                sts[j + 1],
                mime,
                file_size,
                file,
                chunks[j],
            ),
    ensures
        sts[i].ranges@ == sts[0].ranges@,
        sts[i].wf(mime, file_size),
        joined(chunks.take(i)) == body_bytes(sts[0].body(mime, file_size), file).take(
            sts[i].position(mime, file_size),
        ),
    decreases i,
{
    let body = sts[0].body(mime, file_size);
    let bb = body_bytes(body, file);
    if i == 0 {
        assert(chunks.take(0) =~= Seq::<Seq<u8>>::empty());
        assert(bb.take(0) =~= Seq::<u8>::empty());
    } else {
        lemma_reads_prefix(sts, chunks, mime, file_size, file, i - 1);
        let j = i - 1;
        assert(produces(sts[j], sts[j + 1], mime, file_size, file, chunks[j]));
        assert(sts[j + 1] == sts[i]);
        let p0 = sts[i - 1].position(mime, file_size);
        let p1 = sts[i].position(mime, file_size);
        lemma_position_in_body(sts[i], mime, file_size);
        lemma_position_in_body(sts[i - 1], mime, file_size);
        assert(chunks.take(i).drop_last() =~= chunks.take(i - 1));
        assert(chunks.take(i).last() == chunks[i - 1]);
        let c = chunks[i - 1];
        assert forall|k: int| 0 <= k < p1 implies #[trigger] (bb.take(p0) + c)[k] == bb.take(p1)[k] by {
            if k >= p0 {
                assert(c[k - p0] == resolve_byte(body[p0 + (k - p0)], file));
            }
        }
        assert(bb.take(p0) + c =~= bb.take(p1));
    }
}

/// What a call of [`read_multipart_step`] ended with.
#[derive(Clone, Copy, Debug, PartialEq, Eq)]
pub enum MultipartRead {
    /// The output buffer is full.
    Filled,
    /// The whole body has been produced.
    Finished,
    /// The next bytes of the body are `len` bytes of the file starting at
    /// `offset`; the caller reads them and hands them to
    /// [`MultipartStreamState::feed_file_data`], or calls
    /// [`MultipartStreamState::abort`] when the file gives none.
    NeedFileData { offset: u64, len: usize },
}

/// The framing bytes of the segment the stream is in (header, CRLF or
/// closing boundary).
fn segment_frame_bytes(stream: &MultipartStreamState, mime_type: &str, file_size: u64) -> (r: Vec<u8>)
    requires
        stream.wf(mime_type@, file_size),
        remaining_in_segment(*stream, mime_type@, file_size) > 0,
        stream.phase != MultipartPhase::Data,
    ensures
        stream.phase_offset + remaining_in_segment(*stream, mime_type@, file_size) <= r@.len(),
        forall|j: int|
            0 <= j < remaining_in_segment(*stream, mime_type@, file_size) ==> segment_byte(
                *stream,
                mime_type@,
                file_size,
                j,
            ) == BodyByte::Frame(#[trigger] r@[stream.phase_offset + j]),
{
    match stream.phase {
        MultipartPhase::Header => header_utf8(
            mime_type,
            stream.ranges[stream.current_range_index],
            file_size,
        ),
        MultipartPhase::TrailingCrlf => {
            let v: Vec<u8> = vec![13u8, 10u8];
            assert(v@ =~= crlf_bytes());
            v
        },
        _ => MultipartStreamState::final_boundary(),
    }
}

/// Produces bytes of a multipart response into `out` until `out` holds
/// `bytes_to_read` bytes, the body ends, or the next bytes must come from
/// the file.
pub fn read_multipart_step(
    stream: &mut MultipartStreamState,
    mime_type: &str,
    file_size: u64,
    out: &mut Vec<u8>,
    bytes_to_read: usize,
) -> (r: MultipartRead)
    requires
        old(stream).wf(mime_type@, file_size),
        old(out)@.len() <= bytes_to_read,
    ensures
        final(stream).wf(mime_type@, file_size),
        final(stream).ranges@ == old(stream).ranges@,
        final(stream).total_size == old(stream).total_size,
        ({
            let p0 = old(stream).position(mime_type@, file_size);
            let p1 = final(stream).position(mime_type@, file_size);
            let body = old(stream).body(mime_type@, file_size);
            &&& p0 <= p1 <= body.len()
            &&& final(out)@.len() == old(out)@.len() + (p1 - p0)
            &&& final(out)@.take(old(out)@.len() as int) == old(out)@
            &&& forall|k: int|
                0 <= k < p1 - p0 ==> body[p0 + k] == BodyByte::Frame(
                    #[trigger] final(out)@[old(out)@.len() + k],
                )
        }),
        final(out)@.len() <= bytes_to_read,
        forall|file: Seq<u8>|
            #[trigger] produces(
                *old(stream),
                *final(stream),
                mime_type@,
                file_size,
                file,
                final(out)@.skip(old(out)@.len() as int),
            ),
        match r {
            MultipartRead::Filled => final(out)@.len() == bytes_to_read,
            MultipartRead::Finished => final(stream).phase == MultipartPhase::Complete,
            MultipartRead::NeedFileData { offset, len } => {
                &&& final(stream).phase == MultipartPhase::Data
                &&& offset == data_offset(*final(stream))
                &&& final(out)@.len() < bytes_to_read
                &&& 0 < len
                &&& len as int == if bytes_to_read - final(out)@.len() <= remaining_in_segment(
                    *final(stream),
                    mime_type@,
                    file_size,
                ) {
                    bytes_to_read - final(out)@.len()
                } else {
                    remaining_in_segment(*final(stream), mime_type@, file_size)
                }
                &&& forall|j: int|
                    0 <= j < len ==> segment_byte(*final(stream), mime_type@, file_size, j)
                        == BodyByte::FileData((offset + j) as u64)
            },
        },
{
    let ghost mime = mime_type@;
    let ghost rs = stream.ranges@;
    let ghost start = stream.position(mime, file_size);
    let ghost blen = stream.body(mime, file_size).len() as int;
    let ghost out0 = out@;
    let ghost body = stream.body(mime, file_size);
    proof {
        lemma_position_in_body(*stream, mime, file_size);
    }
    loop
        invariant
            stream.wf(mime, file_size),
            old(stream).wf(mime, file_size),
            mime == mime_type@,
            stream.ranges@ == rs,
            rs == old(stream).ranges@,
            out0 == old(out)@,
            start == old(stream).position(mime, file_size),
            body == old(stream).body(mime, file_size),
            stream.total_size == old(stream).total_size,
            body == multipart_body(rs, mime, file_size),
            blen == body.len(),
            0 <= start <= stream.position(mime, file_size) <= blen,
            out@.len() == out0.len() + (stream.position(mime, file_size) - start),
            out@.len() <= bytes_to_read,
            out@.take(out0.len() as int) == out0,
            forall|k: int|
                0 <= k < stream.position(mime, file_size) - start ==> body[start + k]
                    == BodyByte::Frame(#[trigger] out@[out0.len() + k]),
        decreases blen - stream.position(mime, file_size), 4 * rs.len() + 4 - step_rank(*stream),
    {
        proof {
            lemma_frames_produce(*old(stream), *stream, mime, file_size, out0, out@);
        }
        if out.len() >= bytes_to_read {
            return MultipartRead::Filled;
        }
        if stream.phase == MultipartPhase::Complete {
            return MultipartRead::Finished;
        }
        let remaining = segment_remaining(stream, mime_type, file_size);
        if remaining == 0 {
            next_segment(stream, mime_type, file_size);
            proof {
                lemma_position_in_body(*stream, mime, file_size);
            }
            continue;
        }
        let budget = bytes_to_read - out.len();
        let n: u64 = if (budget as u64) < remaining {
            budget as u64
        } else {
            remaining
        };
        if stream.phase == MultipartPhase::Data {
            let range = stream.ranges[stream.current_range_index];
            let offset = range.start + stream.current_range_offset;
            return MultipartRead::NeedFileData { offset, len: n as usize };
        }
        assert(n <= budget);
        let ghost st0 = *stream;
        let seg = segment_frame_bytes(stream, mime_type, file_size);
        let off = stream.phase_offset;
        let ghost p = stream.position(mime, file_size);
        let ghost before = out@;
        assert(off + remaining <= seg@.len());
        assert(seg@.subrange(off as int, off as int) =~= Seq::<u8>::empty());
        assert(before + seg@.subrange(off as int, off as int) =~= before);
        proof {
            assert forall|j: int| 0 <= j < n implies p + j < blen && body[p + j]
                == segment_byte(st0, mime, file_size, j) by {
                lemma_segment_in_body(st0, mime, file_size, j);
            }
        }
        let n_us: usize = n as usize;
        let seg_len = seg.len();
        let mut j: usize = 0;
        while j < n_us
            invariant
                n_us == n,
                j <= n <= remaining,
                seg_len == seg@.len(),
                remaining > 0,
                remaining == remaining_in_segment(st0, mime, file_size),
                off == st0.phase_offset,
                off + remaining <= seg@.len(),
                forall|q: int|
                    0 <= q < remaining ==> segment_byte(st0, mime, file_size, q) == BodyByte::Frame(
                        #[trigger] seg@[off + q],
                    ),
                out@ == before + seg@.subrange(off as int, off + j),
            decreases n - j,
        {
            assert(off + j < seg@.len()) by {
                assert(0 <= j < remaining);
            }
            out.push(seg[off + j]);
            j = j + 1;
            assert(out@ =~= before + seg@.subrange(off as int, off + j));
        }
        advance_in_segment(stream, mime_type, file_size, n);
        proof {
            lemma_position_in_body(*stream, mime, file_size);
            assert forall|k: int| 0 <= k < stream.position(mime, file_size) - start implies body[start + k]
                == BodyByte::Frame(#[trigger] out@[out0.len() + k]) by {
                if k < p - start {
                    assert(out@[out0.len() + k] == before[out0.len() + k]);
                } else {
                    let q = k - (p - start);
                    assert(segment_byte(st0, mime, file_size, q) == BodyByte::Frame(seg@[off + q]));
                    assert(out@[out0.len() + k] == seg@[off + q]);
                }
            }
            assert(out@.take(out0.len() as int) =~= out0);
        }
    }
}

impl MultipartStreamState {
    /// Hands the stream file bytes that a [`MultipartRead::NeedFileData`]
    /// asked for; they are appended to `out`.
    pub fn feed_file_data(&mut self, mime_type: &str, file_size: u64, data: &[u8], out: &mut Vec<u8>)
        requires
            old(self).wf(mime_type@, file_size),
            old(self).phase == MultipartPhase::Data,
            0 < data@.len() <= remaining_in_segment(*old(self), mime_type@, file_size),
        ensures
            final(self).wf(mime_type@, file_size),
            final(self).ranges@ == old(self).ranges@,
            final(self).total_size == old(self).total_size,
            final(self).phase == MultipartPhase::Data,
            final(self).position(mime_type@, file_size) == old(self).position(mime_type@, file_size)
                + data@.len(),
            final(out)@ == old(out)@ + data@,
            forall|j: int|
                0 <= j < data@.len() ==> #[trigger] old(self).body(mime_type@, file_size)[old(
                    self,
                ).position(mime_type@, file_size) + j] == BodyByte::FileData(
                    (old(self).ranges@[old(self).current_range_index as int].start
                        + old(self).current_range_offset + j) as u64,
                ),
            forall|file: Seq<u8>|
                file_holds(file, data_offset(*old(self)), data@) ==> #[trigger] produces(
                    *old(self),
                    *final(self),
                    mime_type@,
                    file_size,
                    file,
                    data@,
                ),
    {
        proof {
            assert forall|j: int| 0 <= j < data@.len() implies #[trigger] old(self).body(mime_type@, file_size)[
                old(self).position(mime_type@, file_size) + j] == BodyByte::FileData(
                (old(self).ranges@[old(self).current_range_index as int].start
                    + old(self).current_range_offset + j) as u64,
            ) by {
                lemma_segment_in_body(*old(self), mime_type@, file_size, j);
            }
        }
        let mut i: usize = 0;
        let ghost before = out@;
        while i < data.len()
            invariant
                i <= data@.len(),
                out@ == before + data@.take(i as int),
            decreases data.len() - i,
        {
            out.push(data[i]);
            i = i + 1;
            assert(out@ =~= before + data@.take(i as int));
        }
        assert(data@.take(data@.len() as int) =~= data@);
        advance_in_segment(self, mime_type, file_size, data.len() as u64);
        proof {
            let st0 = *old(self);
            let p0 = st0.position(mime_type@, file_size);
            let body = st0.body(mime_type@, file_size);
            let r = st0.ranges@[st0.current_range_index as int];
            assert((st0.current_range_index as int) < st0.ranges@.len());
            assert forall|file: Seq<u8>| file_holds(file, data_offset(st0), data@) implies #[trigger] produces(
                st0,
                *self,
                mime_type@,
                file_size,
                file,
                data@,
            ) by {
                assert forall|k: int| 0 <= k < data@.len() implies #[trigger] data@[k] == resolve_byte(
                    body[p0 + k],
                    file,
                ) by {
                    assert(body[p0 + k] == BodyByte::FileData((r.start + st0.current_range_offset + k) as u64));
                    assert(r.start + st0.current_range_offset + k <= r.end);
                    assert(file[data_offset(st0) + k] == data@[k]);
                }
            }
        }
    }

    /// Ends the stream early, when the file cannot provide the bytes of a
    /// range; nothing more is produced.
    pub fn abort(&mut self)
        ensures
            final(self).phase == MultipartPhase::Complete,
            final(self).ranges@ == old(self).ranges@,
            final(self).total_size == old(self).total_size,
            final(self).current_range_index == old(self).current_range_index,
    {
        self.phase = MultipartPhase::Complete;
        self.phase_offset = 0;
    }
}

} // verus!
