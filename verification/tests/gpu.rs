use gdcef::gpu::{AdapterLuid, DeviceUuid, GpuDeviceIds};

#[test]
fn luid_round_trips_through_its_argument() {
    let l = AdapterLuid::new(-5, 123456);
    assert_eq!(l.to_arg_string(), "-5,123456");
    assert_eq!(AdapterLuid::from_arg_string("-5,123456"), Some(l));
    assert_eq!(AdapterLuid::from_arg_string("1"), None);
    assert_eq!(AdapterLuid::from_arg_string("a,1"), None);
    let m = AdapterLuid::new(i32::MIN, u32::MAX);
    assert_eq!(AdapterLuid::from_arg_string(&m.to_arg_string()), Some(m));
}

#[test]
fn uuid_round_trips_through_hex() {
    let bytes: [u8; 16] = [0, 1, 2, 3, 0xab, 0xcd, 0xef, 0x10, 0x20, 0x30, 0x40, 0x50, 0x60, 0x70, 0x80, 0xff];
    let u = DeviceUuid::new(bytes);
    let s = u.to_arg_string();
    assert_eq!(s, "00010203abcdef1020304050607080ff");
    assert_eq!(DeviceUuid::from_arg_string(&s), Some(u));
    assert_eq!(DeviceUuid::from_arg_string("00"), None);
    assert_eq!(DeviceUuid::from_arg_string(&"zz".repeat(16)), None);
}

#[test]
fn device_ids_in_decimal() {
    let ids = GpuDeviceIds::new(4318, 9860);
    assert_eq!(ids.to_vendor_arg(), "4318");
    assert_eq!(ids.to_device_arg(), "9860");
}

#[test]
fn uuid_needs_hex_digits_in_every_pair() {
    assert_eq!(DeviceUuid::from_arg_string(&"+f".repeat(16)), None);
    assert_eq!(DeviceUuid::from_arg_string(&"zz".repeat(16)), None);
    assert_eq!(DeviceUuid::from_arg_string(&"0f".repeat(15)), None);
    assert_eq!(
        DeviceUuid::from_arg_string(&"0f".repeat(16)).map(|u| u.bytes),
        Some([15u8; 16])
    );
}
