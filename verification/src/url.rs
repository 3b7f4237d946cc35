//! Turning `res://` and `user://` URLs into Godot filesystem paths.
//!
//! A URL is stripped of its query and fragment, of its scheme prefix, and
//! percent-decoded; paths that decode to invalid UTF-8, hold a NUL
//! character or a `..` component are refused; paths that name a directory
//! are completed with `index.html`.

use vstd::prelude::*;
use vstd::utf8::{
    decode_utf8, encode_scalar, encode_utf8, encode_utf8_decode_utf8, encode_utf8_valid_utf8,
    valid_utf8,
};

use crate::scheme::{scheme_prefix, scheme_short_prefix, GodotScheme};
use crate::text::{
    chars_of, contains_char_in, lemma_split_concat, lemma_split_no_sep, lemma_split_nonempty, has_prefix_at, has_suffix_at, pieces, push_char_utf8, split, split_bounds,
    starts_with, ends_with, string_from_chars, string_from_utf8,
};

verus! {

/// The value of a hexadecimal digit.
pub open spec fn hex_digit(c: char) -> Option<u8> {
    if '0' <= c <= '9' {
        Some((c as u32 - '0' as u32) as u8)
    } else if 'a' <= c <= 'f' {
        Some((c as u32 - 'a' as u32 + 10) as u8)
    } else if 'A' <= c <= 'F' {
        Some((c as u32 - 'A' as u32 + 10) as u8)
    } else {
        None
    }
}

/// The byte that two hexadecimal digits denote; `None` unless both are
/// hexadecimal digits.
pub open spec fn hex_pair_value(h1: char, h2: char) -> Option<u8> {
    match (hex_digit(h1), hex_digit(h2)) {
        (Some(a), Some(b)) => Some((a * 16 + b) as u8),
        _ => None,
    }
}

pub open spec fn prepend(prefix: Seq<u8>, rest: Option<Seq<u8>>) -> Option<Seq<u8>> {
    match rest {
        Some(r) => Some(prefix + r),
        None => None,
    }
}

/// The bytes that a percent-encoded text stands for: `%XY` is the byte
/// with hex value `XY`, any other character its own UTF-8 encoding.
/// `None` when a `%` is not followed by two hexadecimal digits.
pub open spec fn percent_decode(s: Seq<char>) -> Option<Seq<u8>>
    decreases s.len(),
{
    if s.len() == 0 {
        Some(Seq::empty())
    } else if s[0] == '%' {
        if s.len() < 3 {
            None
        } else {
            match hex_pair_value(s[1], s[2]) {
                Some(v) => prepend(seq![v], percent_decode(s.skip(3))),
                None => None,
            }
        }
    } else {
        prepend(encode_scalar(s[0] as u32), percent_decode(s.skip(1)))
    }
}

/// The text that a percent-encoded text decodes to, when the decoded
/// bytes are valid UTF-8.
pub open spec fn url_decoded(s: Seq<char>) -> Option<Seq<char>> {
    match percent_decode(s) {
        Some(b) => if valid_utf8(b) {
            Some(decode_utf8(b))
        } else {
            None
        },
        None => None,
    }
}

/// Text without `%` percent-decodes to its own UTF-8 encoding.
proof fn lemma_plain_percent_decode(s: Seq<char>)
    requires
        !s.contains('%'),
    ensures
        percent_decode(s) == Some(encode_utf8(s)),
    decreases s.len(),
{
    if s.len() > 0 {
        let rest = s.drop_first();
        assert(s.skip(1) =~= rest);
        assert(s[0] != '%');
        assert(!rest.contains('%')) by {
            if rest.contains('%') {
                let j = choose|j: int| 0 <= j < rest.len() && rest[j] == '%';
                assert(s[j + 1] == '%');
            }
        }
        lemma_plain_percent_decode(rest);
    }
}

/// Text without `%` decodes to itself.
pub proof fn lemma_plain_text_decodes_to_itself(s: Seq<char>)
    requires
        !s.contains('%'),
    ensures
        url_decoded(s) == Some(s),
{
    lemma_plain_percent_decode(s);
    encode_utf8_valid_utf8(s);
    encode_utf8_decode_utf8(s);
}

fn hex_value(c: char) -> (r: Option<u8>)
    ensures
        r == hex_digit(c),
{
    if '0' <= c && c <= '9' {
        Some((c as u32 - '0' as u32) as u8)
    } else if 'a' <= c && c <= 'f' {
        Some((c as u32 - 'a' as u32 + 10) as u8)
    } else if 'A' <= c && c <= 'F' {
        Some((c as u32 - 'A' as u32 + 10) as u8)
    } else {
        None
    }
}

/// The byte that the two hexadecimal digits `h1 h2` denote.
pub fn hex_pair(h1: char, h2: char) -> (r: Option<u8>)
    ensures
        r == hex_pair_value(h1, h2),
{
    match (hex_value(h1), hex_value(h2)) {
        (Some(a), Some(b)) => Some(a * 16 + b),
        _ => None,
    }
}

/// Percent-decodes `s[from..to]` into bytes.
fn percent_decode_in(s: &Vec<char>, from: usize, to: usize) -> (r: Option<Vec<u8>>)
    requires
        from <= to <= s@.len(),
    ensures
        match r {
            Some(b) => percent_decode(s@.subrange(from as int, to as int)) == Some(b@),
            None => percent_decode(s@.subrange(from as int, to as int)) is None,
        },
{
    let ghost t = s@.subrange(from as int, to as int);
    let mut out: Vec<u8> = Vec::new();
    let mut i = from;
    assert(t.skip(0) =~= t);
    assert(out@ + Seq::<u8>::empty() =~= out@);
    assert(percent_decode(t) == prepend(out@, percent_decode(t.skip(0)))) by {
        match percent_decode(t) {
            Some(b) => {
                assert(Seq::<u8>::empty() + b =~= b);
            },
            None => {},
        }
    }
    while i < to
        invariant
            from <= i <= to <= s@.len(),
            t == s@.subrange(from as int, to as int),
            percent_decode(t) == prepend(out@, percent_decode(t.skip(i - from))),
        decreases to - i,
    {
        let ghost rest = t.skip(i - from);
        assert(rest[0] == s@[i as int]);
        if s[i] == '%' {
            if to - i < 3 {
                return None;
            }
            assert(rest[1] == s@[i + 1]);
            assert(rest[2] == s@[i + 2]);
            match hex_pair(s[i + 1], s[i + 2]) {
                Some(v) => {
                    let ghost before = out@;
                    out.push(v);
                    assert(rest.skip(3) =~= t.skip(i + 3 - from));
                    assert(prepend(before, prepend(seq![v], percent_decode(rest.skip(3))))
                        == prepend(out@, percent_decode(rest.skip(3)))) by {
                        match percent_decode(rest.skip(3)) {
                            Some(b) => {
                                assert(before + (seq![v] + b) =~= out@ + b);
                            },
                            None => {},
                        }
                    }
                    i = i + 3;
                },
                None => {
                    return None;
                },
            }
        } else {
            let ghost before = out@;
            let c = s[i];
            push_char_utf8(&mut out, c);
            assert(rest.skip(1) =~= t.skip(i + 1 - from));
            assert(prepend(before, prepend(encode_scalar(c as u32), percent_decode(rest.skip(1))))
                == prepend(out@, percent_decode(rest.skip(1)))) by {
                match percent_decode(rest.skip(1)) {
                    Some(b) => {
                        assert(before + (encode_scalar(c as u32) + b) =~= out@ + b);
                    },
                    None => {},
                }
            }
            i = i + 1;
        }
    }
    assert(t.skip(to - from) =~= Seq::<char>::empty());
    assert(out@ + Seq::<u8>::empty() =~= out@);
    Some(out)
}

/// Decodes a percent-encoded URL path; `None` when a `%` sequence is
/// incomplete or not hexadecimal, or the result is not valid UTF-8.
pub fn url_decode(input: &str) -> (r: Option<String>)
    ensures
        match r {
            Some(s) => url_decoded(input@) == Some(s@),
            None => url_decoded(input@) is None,
        },
{
    let chars = chars_of(input);
    assert(chars@.subrange(0, chars@.len() as int) =~= input@);
    match percent_decode_in(&chars, 0, chars.len()) {
        Some(bytes) => string_from_utf8(bytes),
        None => None,
    }
}

pub open spec fn dot_dot() -> Seq<char> {
    seq!['.', '.']
}

/// `s` with every backslash turned into a forward slash.
pub open spec fn backslashes_to_slashes(s: Seq<char>) -> Seq<char> {
    s.map_values(|c: char| if c == '\\' { '/' } else { c })
}

/// Whether some `/`- or `\`-separated component of a path is `..`.
pub open spec fn has_parent_component(path: Seq<char>) -> bool {
    let parts = split(backslashes_to_slashes(path), '/');
    exists|i: int| 0 <= i < parts.len() && parts[i] == dot_dot()
}

fn has_parent_component_in(s: &Vec<char>) -> (r: bool)
    ensures
        r == has_parent_component(s@),
{
    let mut norm: Vec<char> = Vec::new();
    let mut i: usize = 0;
    while i < s.len()
        invariant
            i <= s@.len(),
            norm@ == backslashes_to_slashes(s@.take(i as int)),
        decreases s.len() - i,
    {
        let c = s[i];
        norm.push(if c == '\\' { '/' } else { c });
        i = i + 1;
        assert(norm@ =~= backslashes_to_slashes(s@.take(i as int)));
    }
    assert(s@.take(s@.len() as int) =~= s@);
    let parts = split_bounds(&norm, 0, norm.len(), '/');
    assert(norm@.subrange(0, norm@.len() as int) =~= norm@);
    let ghost ps = split(norm@, '/');
    let mut k: usize = 0;
    while k < parts.len()
        invariant
            k <= parts@.len(),
            pieces(norm@, parts@) == ps,
            ps == split(backslashes_to_slashes(s@), '/'),
            forall|j: int| 0 <= j < parts@.len() ==> 0 <= #[trigger] parts@[j].0 <= parts@[j].1 <= norm@.len(),
            forall|j: int| 0 <= j < k ==> ps[j] != dot_dot(),
        decreases parts.len() - k,
    {
        let (a, b) = parts[k];
        assert(ps[k as int] == norm@.subrange(a as int, b as int));
        if b - a == 2 && norm[a] == '.' && norm[a + 1] == '.' {
            assert(ps[k as int] =~= dot_dot());
            return true;
        }
        assert(ps[k as int] != dot_dot()) by {
            let piece = norm@.subrange(a as int, b as int);
            if piece == dot_dot() {
                assert(piece.len() == 2);
                assert(b - a == 2);
                assert(piece[0] == norm@[a as int]);
                assert(piece[1] == norm@[a + 1]);
                assert(dot_dot()[0] == '.' && dot_dot()[1] == '.');
            }
        }
        k = k + 1;
    }
    false
}

/// Whether a decoded path climbs out of its root with a `..` component,
/// with `/` or `\` as separator.
pub fn contains_path_traversal(decoded_path: &str) -> (r: bool)
    ensures
        r == has_parent_component(decoded_path@),
{
    let chars = chars_of(decoded_path);
    has_parent_component_in(&chars)
}

/// `s` without the scheme prefix (`res://` / `user://`, else `res:` /
/// `user:`) it starts with, if any.
pub open spec fn strip_scheme(s: Seq<char>, scheme: GodotScheme) -> Seq<char> {
    if starts_with(s, scheme_prefix(scheme)) {
        s.skip(scheme_prefix(scheme).len() as int)
    } else if starts_with(s, scheme_short_prefix(scheme)) {
        s.skip(scheme_short_prefix(scheme).len() as int)
    } else {
        s
    }
}

/// `s` without its trailing slashes (`trim_end_matches('/')`).
pub open spec fn trim_end_slashes(s: Seq<char>) -> Seq<char>
    decreases s.len(),
{
    if s.len() > 0 && s.last() == '/' {
        trim_end_slashes(s.drop_last())
    } else {
        s
    }
}

/// The last `/`-separated component of a path, trailing slashes ignored.
pub open spec fn last_segment(s: Seq<char>) -> Seq<char> {
    split(trim_end_slashes(s), '/').last()
}

pub open spec fn index_page() -> Seq<char> {
    "index.html"@
}

/// A full path as the handler serves it: a path that names a directory
/// (it ends in `/`, its last component has no `.`, or it is the bare
/// scheme prefix) gets `index.html` appended, after a `/` where needed.
pub open spec fn with_index_page(full: Seq<char>, prefix: Seq<char>) -> Seq<char> {
    if ends_with(full, seq!['/']) || !last_segment(full).contains('.') || ends_with(full, prefix) {
        (if ends_with(full, seq!['/']) {
            full
        } else {
            full.push('/')
        }) + index_page()
    } else {
        full
    }
}

/// The part of a URL before its query (`?`) and fragment (`#`).
pub open spec fn without_query_and_fragment(url: Seq<char>) -> Seq<char> {
    split(split(url, '?')[0], '#')[0]
}

/// The Godot path that a URL names under `scheme`; `None` when the path
/// is not validly percent-encoded UTF-8, holds a NUL character, or has a
/// `..` component.
pub open spec fn godot_path_of(url: Seq<char>, scheme: GodotScheme) -> Option<Seq<char>> {
    let encoded = strip_scheme(without_query_and_fragment(url), scheme);
    match url_decoded(encoded) {
        None => None,
        Some(path) => if path.contains('\0') || has_parent_component(path) {
            None
        } else {
            Some(with_index_page(scheme_prefix(scheme) + path, scheme_prefix(scheme)))
        },
    }
}

/// No piece of a split is `..`.
pub open spec fn no_parent_piece(ps: Seq<Seq<char>>) -> bool {
    forall|i: int| 0 <= i < ps.len() ==> ps[i] != dot_dot()
}

/// A path with no `..` component keeps none when `/index.html` (or
/// `index.html` after its final `/`) is appended.
proof fn lemma_index_keeps_no_parent(rest: Seq<char>)
    requires
        !has_parent_component(rest),
    ensures
        !has_parent_component(rest.push('/') + index_page()),
        rest.len() > 0 && rest.last() == '/' ==> !has_parent_component(rest + index_page()),
{
    reveal_strlit("index.html");
    let page = index_page();
    assert(!page.contains('/') && !page.contains('\\')) by {
        assert(page =~= seq!['i', 'n', 'd', 'e', 'x', '.', 'h', 't', 'm', 'l']);
    }
    assert(backslashes_to_slashes(page) =~= page);
    lemma_split_no_sep(page, '/');
    assert(page != dot_dot());
    let br = backslashes_to_slashes(rest);
    // rest + "/" + page
    let t = rest.push('/') + page;
    assert(backslashes_to_slashes(t) =~= br.push('/') + page);
    lemma_split_concat(br, page, '/');
    assert(split(backslashes_to_slashes(t), '/') == split(br, '/') + seq![page]);
    assert(!has_parent_component(t)) by {
        let ps = split(backslashes_to_slashes(t), '/');
        if has_parent_component(t) {
            let i = choose|i: int| 0 <= i < ps.len() && ps[i] == dot_dot();
            if i < split(br, '/').len() {
                assert(split(br, '/')[i] == dot_dot());
            }
        }
    }
    if rest.len() > 0 && rest.last() == '/' {
        let q = rest.drop_last();
        assert(rest =~= q.push('/'));
        let bq = backslashes_to_slashes(q);
        assert(br =~= bq.push('/'));
        lemma_split_concat(bq, Seq::empty(), '/');
        assert(bq.push('/') + Seq::<char>::empty() =~= bq.push('/'));
        assert(split(br, '/') == split(bq, '/') + seq![Seq::<char>::empty()]);
        let u = rest + page;
        assert(backslashes_to_slashes(u) =~= bq.push('/') + page);
        lemma_split_concat(bq, page, '/');
        assert(!has_parent_component(u)) by {
            let ps = split(backslashes_to_slashes(u), '/');
            if has_parent_component(u) {
                let i = choose|i: int| 0 <= i < ps.len() && ps[i] == dot_dot();
                if i < split(bq, '/').len() {
                    assert(split(br, '/')[i] == split(bq, '/')[i]);
                }
            }
        }
    }
}

/// A path served under a scheme prefix has a `..` component only where the
/// part after the prefix has one.
proof fn lemma_prefix_adds_no_parent(scheme: GodotScheme, rest: Seq<char>)
    requires
        !has_parent_component(rest),
    ensures
        !has_parent_component(scheme_prefix(scheme) + rest),
{
    reveal_strlit("res://");
    reveal_strlit("user://");
    let prefix = scheme_prefix(scheme);
    let p0 = prefix.drop_last();
    assert(prefix =~= p0.push('/'));
    assert(backslashes_to_slashes(p0) =~= p0);
    let bp = backslashes_to_slashes(rest);
    assert(backslashes_to_slashes(prefix + rest) =~= p0.push('/') + bp);
    lemma_split_concat(p0, bp, '/');
    let head = match scheme {
        GodotScheme::Res => seq!['r', 'e', 's', ':'],
        GodotScheme::User => seq!['u', 's', 'e', 'r', ':'],
    };
    assert(p0 =~= head.push('/'));
    assert(!head.contains('/')) by {
        if head.contains('/') {
            let j = choose|j: int| 0 <= j < head.len() && head[j] == '/';
        }
    }
    lemma_split_no_sep(head, '/');
    lemma_split_concat(head, Seq::empty(), '/');
    assert(head.push('/') + Seq::<char>::empty() =~= head.push('/'));
    assert(split(p0, '/') == seq![head, Seq::<char>::empty()]);
    assert(head != dot_dot()) by {
        if head == dot_dot() {
            assert(head[0] == '.');
        }
    }
    let ps = split(backslashes_to_slashes(prefix + rest), '/');
    assert(!has_parent_component(prefix + rest)) by {
        if has_parent_component(prefix + rest) {
            let i = choose|i: int| 0 <= i < ps.len() && ps[i] == dot_dot();
            if i >= 2 {
                assert(split(bp, '/')[i - 2] == dot_dot());
            }
        }
    }
}

/// A path completed by [`with_index_page`] ends in a component that
/// contains a dot, and not in `/`.
proof fn lemma_index_page_names_a_file(full: Seq<char>, prefix: Seq<char>)
    ensures
        !ends_with(with_index_page(full, prefix), seq!['/']),
        split(with_index_page(full, prefix), '/').last().contains('.'),
{
    reveal_strlit("index.html");
    let page = index_page();
    assert(page =~= seq!['i', 'n', 'd', 'e', 'x', '.', 'h', 't', 'm', 'l']);
    let q = with_index_page(full, prefix);
    if ends_with(full, seq!['/']) || !last_segment(full).contains('.') || ends_with(full, prefix) {
        let z = if ends_with(full, seq!['/']) {
            full.drop_last()
        } else {
            full
        };
        if ends_with(full, seq!['/']) {
            assert(full.last() == '/') by {
                assert(full.skip(full.len() - 1)[0] == full.last());
            }
            assert(z.push('/') =~= full);
        }
        assert(q =~= z.push('/') + page);
        assert(!page.contains('/'));
        lemma_split_concat(z, page, '/');
        lemma_split_no_sep(page, '/');
        assert(split(q, '/').last() == page);
        assert(page[5] == '.');
        assert(q.last() == 'l');
        assert(!ends_with(q, seq!['/'])) by {
            if ends_with(q, seq!['/']) {
                assert(q.skip(q.len() - 1)[0] == q.last());
            }
        }
    } else {
        assert(q == full);
        if full.len() > 0 && full.last() == '/' {
            assert(full.skip(full.len() - 1) =~= seq!['/']);
        }
        assert(trim_end_slashes(full) == full);
    }
}

/// Every path the handler serves names a file: it does not end in `/`,
/// and its last component contains a dot (a directory is served as its
/// `index.html`).
pub proof fn lemma_served_path_names_a_file(url: Seq<char>, scheme: GodotScheme)
    ensures
        godot_path_of(url, scheme) matches Some(p) ==> {
            &&& !ends_with(p, seq!['/'])
            &&& split(p, '/').last().contains('.')
        },
{
    let prefix = scheme_prefix(scheme);
    let encoded = strip_scheme(without_query_and_fragment(url), scheme);
    if let Some(path) = url_decoded(encoded) {
        lemma_index_page_names_a_file(prefix + path, prefix);
    }
}

/// Every path the handler serves stays under its scheme's root: it starts
/// with the scheme prefix, holds no NUL character, and no component of it,
/// with `/` or `\` as separator, is `..`.
pub proof fn lemma_served_path_confined(url: Seq<char>, scheme: GodotScheme)
    ensures
        godot_path_of(url, scheme) matches Some(p) ==> {
            &&& starts_with(p, scheme_prefix(scheme))
            &&& !p.contains('\0')
            &&& !has_parent_component(p)
        },
{
    reveal_strlit("res://");
    reveal_strlit("user://");
    reveal_strlit("index.html");
    let prefix = scheme_prefix(scheme);
    let encoded = strip_scheme(without_query_and_fragment(url), scheme);
    if let Some(path) = url_decoded(encoded) {
        if !path.contains('\0') && !has_parent_component(path) {
            let full = prefix + path;
            let p = with_index_page(full, prefix);
            lemma_prefix_adds_no_parent(scheme, path);
            let page = index_page();
            assert(!page.contains('\0')) by {
                assert(page =~= seq!['i', 'n', 'd', 'e', 'x', '.', 'h', 't', 'm', 'l']);
            }
            assert(!prefix.contains('\0'));
            if ends_with(full, seq!['/']) || !last_segment(full).contains('.') || ends_with(full, prefix) {
                if ends_with(full, seq!['/']) {
                    assert(full.last() == '/') by {
                        assert(full.skip(full.len() - 1)[0] == full.last());
                    }
                    lemma_index_keeps_no_parent(full);
                    assert(p =~= full + page);
                    assert(p.take(prefix.len() as int) =~= prefix);
                } else {
                    lemma_index_keeps_no_parent(full);
                    assert(p =~= full.push('/') + page);
                    assert(p.take(prefix.len() as int) =~= prefix);
                }
                assert(!p.contains('\0')) by {
                    if p.contains('\0') {
                        let j = choose|j: int| 0 <= j < p.len() && p[j] == '\0';
                        if j < prefix.len() {
                            assert(prefix[j] == '\0');
                        } else if j < full.len() {
                            assert(path[j - prefix.len()] == '\0');
                        } else if ends_with(full, seq!['/']) {
                            assert(page[j - full.len()] == '\0');
                        } else if j > full.len() {
                            assert(page[j - full.len() - 1] == '\0');
                        }
                    }
                }
            } else {
                assert(p == full);
                assert(p.take(prefix.len() as int) =~= prefix);
                assert(!p.contains('\0')) by {
                    if p.contains('\0') {
                        let j = choose|j: int| 0 <= j < p.len() && p[j] == '\0';
                        if j < prefix.len() {
                            assert(prefix[j] == '\0');
                        } else {
                            assert(path[j - prefix.len()] == '\0');
                        }
                    }
                }
            }
        }
    }
}

/// The start of the first piece of `s[from..to]` split on `sep`, and its end.
fn first_piece(s: &Vec<char>, from: usize, to: usize, sep: char) -> (r: (usize, usize))
    requires
        from <= to <= s@.len(),
    ensures
        from <= r.0 <= r.1 <= to,
        s@.subrange(r.0 as int, r.1 as int) == split(s@.subrange(from as int, to as int), sep)[0],
{
    let parts = split_bounds(s, from, to, sep);
    proof {
        lemma_split_nonempty(s@.subrange(from as int, to as int), sep);
    }
    assert(pieces(s@, parts@)[0] == s@.subrange(parts@[0].0 as int, parts@[0].1 as int));
    parts[0]
}

proof fn lemma_trim_end_slashes_step(s: Seq<char>, j: int)
    requires
        0 < j <= s.len(),
        s[j - 1] == '/',
    ensures
        trim_end_slashes(s.take(j)) == trim_end_slashes(s.take(j - 1)),
{
    assert(s.take(j).drop_last() =~= s.take(j - 1));
}

/// Appends `index.html` to the path `full` when it names a directory.
fn complete_with_index_page(full: &mut Vec<char>, prefix: &Vec<char>)
    ensures
        final(full)@ == with_index_page(old(full)@, prefix@),
{
    let n = full.len();
    let mut hi = n;
    assert(full@.take(n as int) =~= full@);
    while hi > 0 && full[hi - 1] == '/'
        invariant
            hi <= n == full@.len(),
            trim_end_slashes(full@) == trim_end_slashes(full@.take(hi as int)),
        decreases hi,
    {
        proof {
            lemma_trim_end_slashes_step(full@, hi as int);
        }
        hi = hi - 1;
    }
    assert(trim_end_slashes(full@.take(hi as int)) == full@.take(hi as int));
    assert(full@.take(hi as int) =~= full@.subrange(0, hi as int));
    let parts = split_bounds(full, 0, hi, '/');
    proof {
        lemma_split_nonempty(full@.subrange(0, hi as int), '/');
    }
    let (a, b) = parts[parts.len() - 1];
    assert(pieces(full@, parts@).last() == full@.subrange(a as int, b as int));
    let has_extension = contains_char_in(full, a, b, '.');
    let slash = vec!['/'];
    assert(full@.subrange(0, n as int) =~= full@);
    let ends_with_slash = has_suffix_at(full, 0, n, &slash);
    assert(slash@ =~= seq!['/']);
    let ends_with_prefix = has_suffix_at(full, 0, n, prefix);
    if ends_with_slash || !has_extension || ends_with_prefix {
        if !ends_with_slash {
            full.push('/');
        }
        let page = chars_of("index.html");
        let ghost base = full@;
        let mut i: usize = 0;
        while i < page.len()
            invariant
                i <= page@.len(),
                page@ == index_page(),
                full@ == base + page@.take(i as int),
            decreases page.len() - i,
        {
            full.push(page[i]);
            i = i + 1;
            assert(full@ =~= base + page@.take(i as int));
        }
        assert(page@.take(page@.len() as int) =~= page@);
    }
}

/// Appends `s[from..to]` to `out`.
fn extend_from(out: &mut Vec<char>, s: &Vec<char>, from: usize, to: usize)
    requires
        from <= to <= s@.len(),
    ensures
        final(out)@ == old(out)@ + s@.subrange(from as int, to as int),
{
    let ghost base = out@;
    let mut i = from;
    while i < to
        invariant
            from <= i <= to <= s@.len(),
            out@ == base + s@.subrange(from as int, i as int),
        decreases to - i,
    {
        out.push(s[i]);
        i = i + 1;
        assert(out@ =~= base + s@.subrange(from as int, i as int));
    }
}

/// Parses a URL into a Godot filesystem path; `None` for paths that
/// are badly encoded, hold a NUL character or try to leave the root.
pub fn parse_godot_url(url: &str, scheme: GodotScheme) -> (r: Option<String>)
    ensures
        match r {
            Some(s) => godot_path_of(url@, scheme) == Some(s@),
            None => godot_path_of(url@, scheme) is None,
        },
{
    let chars = chars_of(url);
    let n = chars.len();
    assert(chars@.subrange(0, n as int) =~= url@);
    let (q0, q1) = first_piece(&chars, 0, n, '?');
    let (f0, f1) = first_piece(&chars, q0, q1, '#');
    let ghost clean = without_query_and_fragment(url@);
    assert(clean == chars@.subrange(f0 as int, f1 as int));
    let prefix = chars_of(scheme.prefix());
    let short = chars_of(scheme.short_prefix());
    let start = if has_prefix_at(&chars, f0, f1, &prefix) {
        assert(clean.skip(prefix@.len() as int) =~= chars@.subrange(f0 + prefix@.len(), f1 as int));
        f0 + prefix.len()
    } else if has_prefix_at(&chars, f0, f1, &short) {
        assert(clean.skip(short@.len() as int) =~= chars@.subrange(f0 + short@.len(), f1 as int));
        f0 + short.len()
    } else {
        f0
    };
    assert(strip_scheme(clean, scheme) == chars@.subrange(start as int, f1 as int));
    let bytes = match percent_decode_in(&chars, start, f1) {
        Some(b) => b,
        None => {
            return None;
        },
    };
    let path = match string_from_utf8(bytes) {
        Some(p) => p,
        None => {
            return None;
        },
    };
    let pchars = chars_of(path.as_str());
    let pn = pchars.len();
    assert(pchars@.subrange(0, pn as int) =~= pchars@);
    if contains_char_in(&pchars, 0, pn, '\0') {
        return None;
    }
    if has_parent_component_in(&pchars) {
        return None;
    }
    let mut full: Vec<char> = Vec::new();
    assert(prefix@.subrange(0, prefix@.len() as int) =~= prefix@);
    extend_from(&mut full, &prefix, 0, prefix.len());
    extend_from(&mut full, &pchars, 0, pn);
    assert(full@ =~= scheme_prefix(scheme) + pchars@);
    complete_with_index_page(&mut full, &prefix);
    Some(string_from_chars(&full))
}

/// The `res://` path of a URL, completed with `index.html` for
/// directories (no decoding and no checks).
pub open spec fn res_path_of(url: Seq<char>) -> Seq<char> {
    let prefix = scheme_prefix(GodotScheme::Res);
    with_index_page(prefix + strip_scheme(url, GodotScheme::Res), prefix)
}

/// Maps a `res://` URL to the resource path that is loaded for it.
pub fn parse_res_url(url: &str) -> (r: String)
    ensures
        r@ == res_path_of(url@),
{
    let chars = chars_of(url);
    let n = chars.len();
    assert(chars@.subrange(0, n as int) =~= url@);
    let scheme = GodotScheme::Res;
    let prefix = chars_of(scheme.prefix());
    let short = chars_of(scheme.short_prefix());
    let start = if has_prefix_at(&chars, 0, n, &prefix) {
        assert(url@.skip(prefix@.len() as int) =~= chars@.subrange(prefix@.len() as int, n as int));
        prefix.len()
    } else if has_prefix_at(&chars, 0, n, &short) {
        assert(url@.skip(short@.len() as int) =~= chars@.subrange(short@.len() as int, n as int));
        short.len()
    } else {
        0
    };
    let mut full: Vec<char> = Vec::new();
    assert(prefix@.subrange(0, prefix@.len() as int) =~= prefix@);
    extend_from(&mut full, &prefix, 0, prefix.len());
    extend_from(&mut full, &chars, start, n);
    complete_with_index_page(&mut full, &prefix);
    string_from_chars(&full)
}

} // verus!
