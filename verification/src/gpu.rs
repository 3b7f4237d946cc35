//! GPU identities handed from the Godot process to CEF's subprocesses on
//! the command line, so that both render on the same GPU, and the choice
//! of a Vulkan device by its UUID.

use vstd::prelude::*;
use vstd::utf8::{encode_utf8, is_ascii_chars, is_ascii_chars_encode_utf8};

use crate::text::{
    chars_of, decimal, lemma_parse_i32_signed_decimal, lemma_parse_u32_decimal, lemma_split_two,
    parse_i32, parse_i32_in, parse_u32, parse_u32_in, pieces, push_decimal, push_signed_decimal,
    signed_decimal, split, split_bounds, string_from_chars,
};

verus! {

/// Adapter LUID for GPU selection (Windows).
#[derive(Clone, Copy, Debug, Default, PartialEq, Eq, Structural)]
pub struct AdapterLuid {
    pub high: i32,
    pub low: u32,
}

/// The command-line form of an adapter LUID: `high,low` in decimal.
pub open spec fn luid_arg(l: AdapterLuid) -> Seq<char> {
    signed_decimal(l.high as int) + seq![','] + decimal(l.low as nat)
}

/// The adapter LUID a command-line argument names, if it is well formed.
pub open spec fn luid_of_arg(s: Seq<char>) -> Option<AdapterLuid> {
    let parts = split(s, ',');
    if parts.len() != 2 {
        None
    } else {
        match (parse_i32(parts[0]), parse_u32(parts[1])) {
            (Some(high), Some(low)) => Some(AdapterLuid { high, low }),
            _ => None,
        }
    }
}

impl AdapterLuid {
    /// The LUID made of its two halves.
    pub fn new(high: i32, low: u32) -> (r: Self)
        ensures
            r == (AdapterLuid { high, low }),
    {
        Self { high, low }
    }

    /// Formats the LUID as a command-line argument.
    pub fn to_arg_string(&self) -> (r: String)
        ensures
            r@ == luid_arg(*self),
    {
        let mut v: Vec<char> = Vec::new();
        push_signed_decimal(&mut v, self.high);
        v.push(',');
        push_decimal(&mut v, self.low as u64);
        assert(v@ =~= luid_arg(*self));
        string_from_chars(&v)
    }

    /// Parses a command-line argument written by [`Self::to_arg_string`].
    pub fn from_arg_string(s: &str) -> (r: Option<Self>)
        ensures
            r == luid_of_arg(s@),
    {
        let chars = chars_of(s);
        assert(chars@.subrange(0, chars@.len() as int) =~= s@);
        let parts = split_bounds(&chars, 0, chars.len(), ',');
        if parts.len() != 2 {
            return None;
        }
        let (a0, a1) = parts[0];
        let (b0, b1) = parts[1];
        assert(pieces(chars@, parts@)[0] == chars@.subrange(a0 as int, a1 as int));
        assert(pieces(chars@, parts@)[1] == chars@.subrange(b0 as int, b1 as int));
        let high = match parse_i32_in(&chars, a0, a1) {
            Some(h) => h,
            None => {
                return None;
            },
        };
        let low = match parse_u32_in(&chars, b0, b1) {
            Some(l) => l,
            None => {
                return None;
            },
        };
        Some(Self { high, low })
    }
}

proof fn lemma_decimal_has_no_comma(n: nat)
    ensures
        !decimal(n).contains(','),
{
    crate::text::lemma_decimal_reads_back(n);
    if decimal(n).contains(',') {
        let j = choose|j: int| 0 <= j < decimal(n).len() && decimal(n)[j] == ',';
        assert(crate::text::is_ascii_digit(decimal(n)[j]));
    }
}

/// Parsing the command-line form of a LUID gives the LUID back.
pub proof fn lemma_luid_arg_roundtrip(l: AdapterLuid)
    ensures
        luid_of_arg(luid_arg(l)) == Some(l),
{
    let a = signed_decimal(l.high as int);
    let b = decimal(l.low as nat);
    lemma_decimal_has_no_comma(l.low as nat);
    assert(!a.contains(',')) by {
        if l.high < 0 {
            lemma_decimal_has_no_comma((-l.high) as nat);
            if a.contains(',') {
                let j = choose|j: int| 0 <= j < a.len() && a[j] == ',';
                assert(j > 0);
                assert(a[j] == decimal((-l.high) as nat)[j - 1]);
            }
        } else {
            lemma_decimal_has_no_comma(l.high as nat);
        }
    }
    lemma_split_two(a, b, ',');
    lemma_parse_i32_signed_decimal(l.high);
    lemma_parse_u32_decimal(l.low);
}

/// The lowercase hexadecimal digit for `d < 16`.
pub open spec fn hex_char(d: nat) -> char {
    if d < 10 {
        crate::text::digit_char(d)
    } else if d == 10 {
        'a'
    } else if d == 11 {
        'b'
    } else if d == 12 {
        'c'
    } else if d == 13 {
        'd'
    } else if d == 14 {
        'e'
    } else {
        'f'
    }
}

fn hex_char_exec(d: u8) -> (c: char)
    requires
        d < 16,
    ensures
        c == hex_char(d as nat),
{
    if d == 0 {
        '0'
    } else if d == 1 {
        '1'
    } else if d == 2 {
        '2'
    } else if d == 3 {
        '3'
    } else if d == 4 {
        '4'
    } else if d == 5 {
        '5'
    } else if d == 6 {
        '6'
    } else if d == 7 {
        '7'
    } else if d == 8 {
        '8'
    } else if d == 9 {
        '9'
    } else if d == 10 {
        'a'
    } else if d == 11 {
        'b'
    } else if d == 12 {
        'c'
    } else if d == 13 {
        'd'
    } else if d == 14 {
        'e'
    } else {
        'f'
    }
}

/// A byte as two lowercase hex digits (`{:02x}`).
pub open spec fn hex_byte(b: u8) -> Seq<char> {
    seq![hex_char((b / 16) as nat), hex_char((b % 16) as nat)]
}

/// The hex text of a byte string, two digits per byte.
pub open spec fn hex_text(bytes: Seq<u8>) -> Seq<char>
    decreases bytes.len(),
{
    if bytes.len() == 0 {
        Seq::empty()
    } else {
        hex_text(bytes.drop_last()) + hex_byte(bytes.last())
    }
}

/// The value of a hexadecimal digit given as a byte.
pub open spec fn hex_digit_byte(b: u8) -> Option<u8> {
    if 48 <= b <= 57 {
        Some((b - 48) as u8)
    } else if 97 <= b <= 102 {
        Some((b - 87) as u8)
    } else if 65 <= b <= 70 {
        Some((b - 55) as u8)
    } else {
        None
    }
}

/// The byte that two hexadecimal digits, given as bytes, denote; `None`
/// unless both are hexadecimal digits.
pub open spec fn hex_pair_byte(b1: u8, b2: u8) -> Option<u8> {
    match (hex_digit_byte(b1), hex_digit_byte(b2)) {
        (Some(x), Some(y)) => Some((x * 16 + y) as u8),
        _ => None,
    }
}

/// The 16 bytes that 32 bytes of hex text stand for.
pub open spec fn uuid_of_hex(b: Seq<u8>) -> Option<Seq<u8>> {
    if b.len() != 32 {
        None
    } else if forall|i: int| 0 <= i < 16 ==> #[trigger] hex_pair_byte(b[2 * i], b[2 * i + 1]) is Some {
        Some(Seq::new(16, |i: int| hex_pair_byte(b[2 * i], b[2 * i + 1])->0))
    } else {
        None
    }
}

fn hex_digit_byte_exec(b: u8) -> (r: Option<u8>)
    ensures
        r == hex_digit_byte(b),
{
    if 48 <= b && b <= 57 {
        Some(b - 48)
    } else if 97 <= b && b <= 102 {
        Some(b - 87)
    } else if 65 <= b && b <= 70 {
        Some(b - 55)
    } else {
        None
    }
}

fn hex_pair_byte_exec(b1: u8, b2: u8) -> (r: Option<u8>)
    ensures
        r == hex_pair_byte(b1, b2),
{
    match (hex_digit_byte_exec(b1), hex_digit_byte_exec(b2)) {
        (Some(x), Some(y)) => Some(x * 16 + y),
        _ => None,
    }
}

/// Device UUID for GPU selection (Linux): identifies a Vulkan physical
/// device.
#[derive(Clone, Copy, Debug, Default, PartialEq, Eq)]
pub struct DeviceUuid {
    pub bytes: [u8; 16],
}

impl DeviceUuid {
    /// The UUID made of its sixteen bytes.
    pub fn new(bytes: [u8; 16]) -> (r: Self)
        ensures
            r.bytes == bytes,
    {
        Self { bytes }
    }

    /// The UUID as 32 lowercase hex digits.
    pub fn to_arg_string(&self) -> (r: String)
        ensures
            r@ == hex_text(self.bytes@),
    {
        let mut v: Vec<char> = Vec::new();
        let mut i: usize = 0;
        assert(self.bytes@.take(0) =~= Seq::<u8>::empty());
        while i < 16
            invariant
                i <= 16,
                self.bytes@.len() == 16,
                v@ == hex_text(self.bytes@.take(i as int)),
            decreases 16 - i,
        {
            let b = self.bytes[i];
            v.push(hex_char_exec(b / 16));
            v.push(hex_char_exec(b % 16));
            assert(self.bytes@.take(i + 1).drop_last() =~= self.bytes@.take(i as int));
            i = i + 1;
            assert(v@ =~= hex_text(self.bytes@.take(i as int)));
        }
        assert(self.bytes@.take(16) =~= self.bytes@);
        string_from_chars(&v)
    }

    /// Parses 32 hex digits (as UTF-8 bytes) into a UUID.
    pub fn from_arg_string(s: &str) -> (r: Option<Self>)
        ensures
            match r {
                Some(u) => uuid_of_hex(encode_utf8(s@)) == Some(u.bytes@),
                None => uuid_of_hex(encode_utf8(s@)) is None,
            },
    {
        let b = s.as_bytes();
        if b.len() != 32 {
            return None;
        }
        let mut bytes = [0u8; 16];
        let mut i: usize = 0;
        while i < 16
            invariant
                i <= 16,
                b@ == encode_utf8(s@),
                b@.len() == 32,
                bytes@.len() == 16,
                forall|j: int| 0 <= j < i ==> #[trigger] hex_pair_byte(b@[2 * j], b@[2 * j + 1]) == Some(bytes@[j]),
            decreases 16 - i,
        {
            match hex_pair_byte_exec(b[2 * i], b[2 * i + 1]) {
                Some(v) => {
                    bytes[i] = v;
                },
                None => {
                    assert(!(hex_pair_byte(b@[2 * i as int], b@[2 * i as int + 1]) is Some));
                    return None;
                },
            }
            i = i + 1;
        }
        let r = Self { bytes };
        assert(r.bytes@ =~= Seq::new(16, |j: int| hex_pair_byte(b@[2 * j], b@[2 * j + 1])->0));
        Some(r)
    }
}

proof fn lemma_hex_text_shape(bytes: Seq<u8>)
    ensures
        hex_text(bytes).len() == 2 * bytes.len(),
        forall|i: int|
            #![trigger bytes[i]]
            0 <= i < bytes.len() ==> hex_text(bytes)[2 * i] == hex_char((bytes[i] / 16) as nat)
                && hex_text(bytes)[2 * i + 1] == hex_char((bytes[i] % 16) as nat),
        is_ascii_chars(hex_text(bytes)),
    decreases bytes.len(),
{
    if bytes.len() > 0 {
        let d = bytes.drop_last();
        lemma_hex_text_shape(d);
        let t = hex_text(bytes);
        assert(t == hex_text(d) + hex_byte(bytes.last()));
        assert(t.len() == 2 * bytes.len());
        assert forall|i: int|
            #![trigger bytes[i]]
            0 <= i < bytes.len() implies t[2 * i] == hex_char((bytes[i] / 16) as nat) && t[2 * i + 1]
                == hex_char((bytes[i] % 16) as nat) by {
            if i < d.len() {
                assert(bytes[i] == d[i]);
                assert(t[2 * i] == hex_text(d)[2 * i]);
                assert(t[2 * i + 1] == hex_text(d)[2 * i + 1]);
            } else {
                assert(bytes[i] == bytes.last());
                assert(t[2 * i] == hex_byte(bytes.last())[0]);
                assert(t[2 * i + 1] == hex_byte(bytes.last())[1]);
            }
        }
        assert forall|i: int| 0 <= i < t.len() implies '\0' <= #[trigger] t[i] <= '\u{7f}' by {
            if i < hex_text(d).len() {
                assert(t[i] == hex_text(d)[i]);
            }
        }
    }
}

proof fn lemma_hex_char_reads_back(d: nat)
    requires
        d < 16,
    ensures
        hex_digit_byte(hex_char(d) as u8) == Some(d as u8),
        hex_char(d) as u8 != 43,
{
}

/// Parsing the command-line form of a device UUID gives it back.
pub proof fn lemma_uuid_arg_roundtrip(u: DeviceUuid)
    ensures
        uuid_of_hex(encode_utf8(hex_text(u.bytes@))) == Some(u.bytes@),
{
    let t = hex_text(u.bytes@);
    lemma_hex_text_shape(u.bytes@);
    is_ascii_chars_encode_utf8(t);
    let b = encode_utf8(t);
    assert forall|i: int| 0 <= i < 16 implies #[trigger] hex_pair_byte(b[2 * i], b[2 * i + 1])
        == Some(u.bytes@[i]) by {
        let x = u.bytes@[i];
        lemma_hex_char_reads_back((x / 16) as nat);
        lemma_hex_char_reads_back((x % 16) as nat);
        assert(b[2 * i] == t[2 * i] as u8);
        assert(b[2 * i + 1] == t[2 * i + 1] as u8);
        assert((x / 16) * 16 + x % 16 == x) by (nonlinear_arith);
    }
    assert(Seq::new(16, |i: int| hex_pair_byte(b[2 * i], b[2 * i + 1])->0) =~= u.bytes@);
}

/// GPU vendor and device identifiers, passed to CEF as `--gpu-vendor-id`
/// and `--gpu-device-id`.
#[derive(Clone, Copy, Debug, Default, PartialEq, Eq, Structural)]
pub struct GpuDeviceIds {
    pub vendor_id: u32,
    pub device_id: u32,
}

impl GpuDeviceIds {
    /// The pair of PCI vendor and device ids.
    pub fn new(vendor_id: u32, device_id: u32) -> (r: Self)
        ensures
            r == (GpuDeviceIds { vendor_id, device_id }),
    {
        Self { vendor_id, device_id }
    }

    /// The vendor ID in decimal.
    pub fn to_vendor_arg(&self) -> (r: String)
        ensures
            r@ == decimal(self.vendor_id as nat),
    {
        let mut v: Vec<char> = Vec::new();
        push_decimal(&mut v, self.vendor_id as u64);
        string_from_chars(&v)
    }

    /// The device ID in decimal.
    pub fn to_device_arg(&self) -> (r: String)
        ensures
            r@ == decimal(self.device_id as nat),
    {
        let mut v: Vec<char> = Vec::new();
        push_decimal(&mut v, self.device_id as u64);
        string_from_chars(&v)
    }
}

} // verus!
