//! Choice of the Vulkan physical device that the helper process should use,
//! so that CEF renders on the same GPU as Godot (Linux).
//!
//! The caller enumerates the devices through the Vulkan loader and hands
//! their identities over; the choice and the values of the two environment
//! variables that steer the Mesa and Khronos device selection layers are
//! computed here.

use vstd::prelude::*;
use crate::gpu::hex_char;
use crate::text::{decimal, push_decimal, string_from_chars};

verus! {

/// The identity of one Vulkan physical device.
#[derive(Clone, Copy, Debug)]
pub struct PhysicalDeviceInfo {
    /// `VkPhysicalDeviceIDProperties::deviceUUID`.
    pub device_uuid: [u8; 16],
    /// `VkPhysicalDeviceProperties::vendorID`.
    pub vendor_id: u32,
    /// `VkPhysicalDeviceProperties::deviceID`.
    pub device_id: u32,
}

/// The device chosen, with the environment values that select it.
#[derive(Debug)]
pub struct DeviceSelection {
    /// Its position in the enumeration.
    pub index: usize,
    /// The value of `MESA_VK_DEVICE_SELECT`: `vendor:device` in hex.
    pub mesa_device_select: String,
    /// The value of `VK_LOADER_DEVICE_SELECT`: the index in decimal.
    pub loader_device_select: String,
}

/// The lowercase hexadecimal numeral of `n` (`{:x}`).
pub open spec fn lower_hex(n: nat) -> Seq<char>
    decreases n,
{
    if n < 16 {
        seq![hex_char(n)]
    } else {
        lower_hex(n / 16).push(hex_char(n % 16))
    }
}

/// `s` with zeros in front up to `width` characters (`{:0width$}`).
pub open spec fn zero_padded(s: Seq<char>, width: nat) -> Seq<char> {
    if s.len() < width {
        Seq::new((width - s.len()) as nat, |_i: int| '0') + s
    } else {
        s
    }
}

/// `MESA_VK_DEVICE_SELECT` for a device: `{:04x}:{:04x}` of its vendor and
/// device IDs.
pub open spec fn mesa_select_value(vendor_id: u32, device_id: u32) -> Seq<char> {
    zero_padded(lower_hex(vendor_id as nat), 4) + seq![':'] + zero_padded(lower_hex(device_id as nat), 4)
}

/// Whether `i` is the first position whose device has the UUID `target`.
pub open spec fn is_first_match(devices: Seq<PhysicalDeviceInfo>, target: Seq<u8>, i: int) -> bool {
    &&& 0 <= i < devices.len()
    &&& devices[i].device_uuid@ == target
    &&& forall|j: int| 0 <= j < i ==> devices[j].device_uuid@ != target
}

fn hex_digit(d: u32) -> (c: char)
    requires
        d < 16,
    ensures
        c == hex_char(d as nat),
{
    if d < 10 {
        if d == 0 {
            '0'
        } else if d == 1 {
            '1'
        } else if d == 2 {
            '2'
        } else if d == 3 {
            '3'
        } else if d == 4 {
            '4'
        } else if d == 5 {
            '5'
        } else if d == 6 {
            '6'
        } else if d == 7 {
            '7'
        } else if d == 8 {
            '8'
        } else {
            '9'
        }
    } else if d == 10 {
        'a'
    } else if d == 11 {
        'b'
    } else if d == 12 {
        'c'
    } else if d == 13 {
        'd'
    } else if d == 14 {
        'e'
    } else {
        'f'
    }
}

/// Appends the lowercase hexadecimal numeral of `n` to `out`.
fn push_lower_hex(out: &mut Vec<char>, n: u32)
    ensures
        final(out)@ == old(out)@ + lower_hex(n as nat),
    decreases n,
{
    let ghost before = out@;
    if n >= 16 {
        push_lower_hex(out, n / 16);
    }
    out.push(hex_digit(n % 16));
    assert(final(out)@ =~= before + lower_hex(n as nat)) by {
        if n >= 16 {
            assert(lower_hex(n as nat) == lower_hex((n / 16) as nat).push(hex_char((n % 16) as nat)));
        }
    }
}

/// Appends `n` in hex, zero-padded to four digits, to `out`.
fn push_hex4(out: &mut Vec<char>, n: u32)
    ensures
        final(out)@ == old(out)@ + zero_padded(lower_hex(n as nat), 4),
{
    let ghost before = out@;
    let mut digits: Vec<char> = Vec::new();
    push_lower_hex(&mut digits, n);
    assert(digits@ =~= lower_hex(n as nat));
    let len = digits.len();
    let mut k: usize = len;
    while k < 4
        invariant
            len <= k <= 4 || (len > 4 && k == len),
            len == digits@.len(),
            out@ == before + Seq::new((k - len) as nat, |_i: int| '0'),
        decreases 4 - k,
    {
        out.push('0');
        k = k + 1;
        assert(out@ =~= before + Seq::new((k - len) as nat, |_i: int| '0'));
    }
    let ghost padded = out@;
    let mut i: usize = 0;
    while i < len
        invariant
            i <= len == digits@.len(),
            out@ == padded + digits@.take(i as int),
        decreases len - i,
    {
        out.push(digits[i]);
        i = i + 1;
        assert(out@ =~= padded + digits@.take(i as int));
    }
    assert(digits@.take(len as int) =~= digits@);
    assert(final(out)@ =~= before + zero_padded(lower_hex(n as nat), 4)) by {
        if len < 4 {
            assert(padded =~= before + Seq::new((4 - len) as nat, |_i: int| '0'));
        } else {
            assert(padded =~= before);
        }
    }
}

/// Whether two UUIDs are equal.
fn uuid_eq(a: &[u8; 16], b: &[u8; 16]) -> (r: bool)
    ensures
        r == (a@ == b@),
{
    let mut i: usize = 0;
    while i < 16
        invariant
            i <= 16,
            a@.len() == 16,
            b@.len() == 16,
            forall|j: int| 0 <= j < i ==> a@[j] == b@[j],
        decreases 16 - i,
    {
        if a[i] != b[i] {
            return false;
        }
        i = i + 1;
    }
    assert(a@ =~= b@);
    true
}

/// Chooses the first device whose UUID is `target_uuid`, with the
/// environment values that make the Vulkan loader and Mesa pick it; `None`
/// where no device has that UUID.
pub fn select_device_by_uuid(target_uuid: [u8; 16], devices: &[PhysicalDeviceInfo]) -> (r: Option<
    DeviceSelection,
>)
    ensures
        r is None <==> forall|i: int|
            0 <= i < devices@.len() ==> (#[trigger] devices@[i]).device_uuid@ != target_uuid@,
        r matches Some(s) ==> {
            &&& is_first_match(devices@, target_uuid@, s.index as int)
            &&& s.mesa_device_select@ == mesa_select_value(
                devices@[s.index as int].vendor_id,
                devices@[s.index as int].device_id,
            )
            &&& s.loader_device_select@ == decimal(s.index as nat)
        },
{
    let mut i: usize = 0;
    while i < devices.len()
        invariant
            i <= devices@.len(),
            forall|j: int| 0 <= j < i ==> (#[trigger] devices@[j]).device_uuid@ != target_uuid@,
        decreases devices.len() - i,
    {
        let d = devices[i];
        if uuid_eq(&d.device_uuid, &target_uuid) {
            let mut mesa: Vec<char> = Vec::new();
            push_hex4(&mut mesa, d.vendor_id);
            mesa.push(':');
            push_hex4(&mut mesa, d.device_id);
            let mut loader: Vec<char> = Vec::new();
            push_decimal(&mut loader, i as u64);
            assert(mesa@ =~= mesa_select_value(d.vendor_id, d.device_id));
            return Some(
                DeviceSelection {
                    index: i,
                    mesa_device_select: string_from_chars(&mesa),
                    loader_device_select: string_from_chars(&loader),
                },
            );
        }
        i = i + 1;
    }
    None
}

} // verus!
