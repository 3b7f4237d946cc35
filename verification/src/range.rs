//! HTTP `Range` header parsing.
//!
//! Supports single ranges (`bytes=start-end`, `bytes=start-`,
//! `bytes=-suffix_length`) and multi-range requests (`bytes=0-100,200-300`).

use vstd::prelude::*;

use crate::text::{
    chars_of, parse_u64, parse_u64_in, pieces, split, split_bounds, trim, trim_bounds,
};

verus! {

/// Limit on the number of ranges of a multi-range request, against the
/// cost of generating very large multipart responses.
pub const MAX_MULTI_RANGES: usize = 10;

/// An inclusive byte range `start..=end` of a file.
#[derive(Clone, Copy, Debug, PartialEq, Eq, Structural)]
pub struct ByteRange {
    pub start: u64,
    pub end: u64,
}

/// The outcome of parsing a `Range` header that names at least one
/// satisfiable range.
#[derive(Clone, Debug, PartialEq, Eq)]
pub enum ParsedRanges {
    Single(ByteRange),
    Multi(Vec<ByteRange>),
}

/// Mathematical counterpart of [`ParsedRanges`].
pub enum RangeRequest {
    Single(ByteRange),
    Multi(Seq<ByteRange>),
}

impl View for ParsedRanges {
    type V = RangeRequest;

    open spec fn view(&self) -> RangeRequest {
        match self {
            ParsedRanges::Single(r) => RangeRequest::Single(*r),
            ParsedRanges::Multi(v) => RangeRequest::Multi(v@),
        }
    }
}

/// A range lies inside a file of `file_size` bytes and is not empty.
pub open spec fn range_in_file(r: ByteRange, file_size: u64) -> bool {
    r.start <= r.end < file_size
}

/// The range that one `start-end`, `start-` or `-suffix` specification
/// selects in a file of `file_size` bytes, if it selects any.
pub open spec fn single_range_of(spec: Seq<char>, file_size: u64) -> Option<ByteRange> {
    if file_size == 0 {
        None
    } else {
        let parts = split(spec, '-');
        if parts.len() != 2 {
            None
        } else {
            let start_str = trim(parts[0]);
            let end_str = trim(parts[1]);
            if start_str.len() > 0 {
                match parse_u64(start_str) {
                    None => None,
                    Some(start) => if start >= file_size {
                        None
                    } else {
                        let end_opt: Option<u64> = if end_str.len() == 0 {
                            Some((file_size - 1) as u64)
                        } else {
                            match parse_u64(end_str) {
                                Some(e) => Some(if e < file_size - 1 { e } else { (file_size - 1) as u64 }),
                                None => None,
                            }
                        };
                        match end_opt {
                            Some(end) => if start <= end {
                                Some(ByteRange { start, end })
                            } else {
                                None
                            },
                            None => None,
                        }
                    },
                }
            } else if end_str.len() > 0 {
                match parse_u64(end_str) {
                    Some(n) => if n > 0 {
                        Some(
                            ByteRange {
                                start: if n < file_size { (file_size - n) as u64 } else { 0 },
                                end: (file_size - 1) as u64,
                            },
                        )
                    } else {
                        None
                    },
                    None => None,
                }
            } else {
                None
            }
        }
    }
}

/// The satisfiable ranges among comma-separated specifications, in order;
/// the others are dropped.
pub open spec fn ranges_of(specs: Seq<Seq<char>>, file_size: u64) -> Seq<ByteRange>
    decreases specs.len(),
{
    if specs.len() == 0 {
        Seq::empty()
    } else {
        let rest = ranges_of(specs.drop_last(), file_size);
        match single_range_of(trim(specs.last()), file_size) {
            Some(r) => rest.push(r),
            None => rest,
        }
    }
}

pub open spec fn bytes_prefix() -> Seq<char> {
    seq!['b', 'y', 't', 'e', 's', '=']
}

/// What a `Range` header asks of a file of `file_size` bytes: `None` when
/// it is absent, malformed, names no satisfiable range, or names more
/// than [`MAX_MULTI_RANGES`] of them.
pub open spec fn range_request_of(header: Seq<char>, file_size: u64) -> Option<RangeRequest> {
    if header.len() < 6 || header.take(6) != bytes_prefix() {
        None
    } else {
        let part = header.skip(6);
        if part.contains(',') {
            let ranges = ranges_of(split(part, ','), file_size);
            if ranges.len() == 0 {
                None
            } else if ranges.len() == 1 {
                Some(RangeRequest::Single(ranges[0]))
            } else if ranges.len() > MAX_MULTI_RANGES {
                None
            } else {
                Some(RangeRequest::Multi(ranges))
            }
        } else {
            match single_range_of(part, file_size) {
                Some(r) => Some(RangeRequest::Single(r)),
                None => None,
            }
        }
    }
}

proof fn lemma_single_range_in_file(spec: Seq<char>, file_size: u64)
    ensures
        single_range_of(spec, file_size) matches Some(r) ==> range_in_file(r, file_size),
{
}

proof fn lemma_ranges_in_file(specs: Seq<Seq<char>>, file_size: u64)
    ensures
        forall|i: int|
            0 <= i < ranges_of(specs, file_size).len() ==> range_in_file(
                #[trigger] ranges_of(specs, file_size)[i],
                file_size,
            ),
    decreases specs.len(),
{
    if specs.len() > 0 {
        lemma_ranges_in_file(specs.drop_last(), file_size);
        lemma_single_range_in_file(trim(specs.last()), file_size);
        let rest = ranges_of(specs.drop_last(), file_size);
        assert forall|i: int| 0 <= i < ranges_of(specs, file_size).len() implies range_in_file(
            #[trigger] ranges_of(specs, file_size)[i],
            file_size,
        ) by {
            if i < rest.len() {
                assert(ranges_of(specs, file_size)[i] == rest[i]);
            }
        }
    }
}

/// Every range that a `Range` header yields lies inside the file, and a
/// multi-range answer holds between 2 and [`MAX_MULTI_RANGES`] ranges.
pub proof fn lemma_range_request_satisfiable(header: Seq<char>, file_size: u64)
    ensures
        range_request_of(header, file_size) matches Some(req) ==> match req {
            RangeRequest::Single(r) => range_in_file(r, file_size),
            RangeRequest::Multi(rs) => 2 <= rs.len() <= MAX_MULTI_RANGES && forall|i: int|
                0 <= i < rs.len() ==> range_in_file(#[trigger] rs[i], file_size),
        },
{
    let part = header.skip(6);
    lemma_ranges_in_file(split(part, ','), file_size);
    lemma_single_range_in_file(part, file_size);
}

/// Parses the specification `chars[from..to]` of a single range.
fn single_range_in(chars: &Vec<char>, from: usize, to: usize, file_size: u64) -> (r: Option<
    ByteRange,
>)
    requires
        from <= to <= chars@.len(),
    ensures
        r == single_range_of(chars@.subrange(from as int, to as int), file_size),
{
    if file_size == 0 {
        return None;
    }
    let parts = split_bounds(chars, from, to, '-');
    let ghost ps = split(chars@.subrange(from as int, to as int), '-');
    if parts.len() != 2 {
        return None;
    }
    let (a0, a1) = parts[0];
    let (b0, b1) = parts[1];
    assert(ps[0] == chars@.subrange(a0 as int, a1 as int));
    assert(ps[1] == chars@.subrange(b0 as int, b1 as int));
    let (s0, s1) = trim_bounds(chars, a0, a1);
    let (e0, e1) = trim_bounds(chars, b0, b1);
    if s0 < s1 {
        match parse_u64_in(chars, s0, s1) {
            Some(start) => {
                if start >= file_size {
                    return None;
                }
                let end = if e0 == e1 {
                    file_size - 1
                } else {
                    match parse_u64_in(chars, e0, e1) {
                        Some(e) => if e < file_size - 1 {
                            e
                        } else {
                            file_size - 1
                        },
                        None => {
                            return None;
                        },
                    }
                };
                if start <= end {
                    Some(ByteRange { start, end })
                } else {
                    None
                }
            },
            None => None,
        }
    } else if e0 < e1 {
        match parse_u64_in(chars, e0, e1) {
            Some(n) => if n > 0 {
                Some(ByteRange { start: file_size.saturating_sub(n), end: file_size - 1 })
            } else {
                None
            },
            None => None,
        }
    } else {
        None
    }
}

/// Parses one range specification against a file of `file_size` bytes.
pub fn parse_single_range(range_spec: &str, file_size: u64) -> (r: Option<ByteRange>)
    ensures
        r == single_range_of(range_spec@, file_size),
        r matches Some(b) ==> range_in_file(b, file_size),
{
    let chars = chars_of(range_spec);
    assert(chars@.subrange(0, chars@.len() as int) =~= range_spec@);
    single_range_in(&chars, 0, chars.len(), file_size)
}

/// Parses a `Range` header against a file of `file_size` bytes.
pub fn parse_range_header(range_str: &str, file_size: u64) -> (r: Option<ParsedRanges>)
    ensures
        match r {
            Some(p) => range_request_of(range_str@, file_size) == Some(p@),
            None => range_request_of(range_str@, file_size) is None,
        },
{
    let chars = chars_of(range_str);
    let n = chars.len();
    if n < 6 || chars[0] != 'b' || chars[1] != 'y' || chars[2] != 't' || chars[3] != 'e' || chars[4]
        != 's' || chars[5] != '=' {
        proof {
            if n >= 6 {
                assert(range_str@.take(6)[0] == chars@[0]);
                assert(range_str@.take(6)[1] == chars@[1]);
                assert(range_str@.take(6)[2] == chars@[2]);
                assert(range_str@.take(6)[3] == chars@[3]);
                assert(range_str@.take(6)[4] == chars@[4]);
                assert(range_str@.take(6)[5] == chars@[5]);
            }
        }
        return None;
    }
    assert(range_str@.take(6) =~= bytes_prefix());
    let ghost part = range_str@.skip(6);
    assert(part =~= chars@.subrange(6, n as int));
    let mut has_comma = false;
    let mut k: usize = 6;
    while k < n
        invariant
            6 <= k <= n == chars@.len(),
            part == chars@.subrange(6, n as int),
            has_comma <==> exists|j: int| 6 <= j < k && chars@[j] == ',',
        decreases n - k,
    {
        if chars[k] == ',' {
            has_comma = true;
        }
        k = k + 1;
    }
    assert(has_comma <==> part.contains(',')) by {
        if has_comma {
            let j = choose|j: int| 6 <= j < n && chars@[j] == ',';
            assert(part[j - 6] == ',');
        }
        if part.contains(',') {
            let j = choose|j: int| 0 <= j < part.len() && part[j] == ',';
            assert(chars@[j + 6] == ',');
        }
    }
    if has_comma {
        let specs = split_bounds(&chars, 6, n, ',');
        let ghost sp = split(part, ',');
        let mut ranges: Vec<ByteRange> = Vec::new();
        let mut i: usize = 0;
        assert(sp.take(0) =~= Seq::<Seq<char>>::empty());
        while i < specs.len()
            invariant
                i <= specs@.len(),
                n == chars@.len(),
                pieces(chars@, specs@) == sp,
                forall|j: int| 0 <= j < specs@.len() ==> 6 <= #[trigger] specs@[j].0 <= specs@[j].1 <= n,
                ranges@ == ranges_of(sp.take(i as int), file_size),
            decreases specs.len() - i,
        {
            let (a, b) = specs[i];
            assert(sp[i as int] == chars@.subrange(a as int, b as int));
            let (t0, t1) = trim_bounds(&chars, a, b);
            let one = single_range_in(&chars, t0, t1, file_size);
            assert(sp.take(i + 1).drop_last() =~= sp.take(i as int));
            if let Some(rg) = one {
                ranges.push(rg);
            }
            i = i + 1;
        }
        assert(sp.take(specs.len() as int) =~= sp);
        if ranges.len() == 0 {
            None
        } else if ranges.len() == 1 {
            Some(ParsedRanges::Single(ranges[0]))
        } else if ranges.len() > MAX_MULTI_RANGES {
            None
        } else {
            Some(ParsedRanges::Multi(ranges))
        }
    } else {
        match single_range_in(&chars, 6, n, file_size) {
            Some(rg) => Some(ParsedRanges::Single(rg)),
            None => None,
        }
    }
}

} // verus!
