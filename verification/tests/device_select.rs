use gdcef::device_select::{select_device_by_uuid, PhysicalDeviceInfo};

fn dev(tag: u8, vendor_id: u32, device_id: u32) -> PhysicalDeviceInfo {
    PhysicalDeviceInfo { device_uuid: [tag; 16], vendor_id, device_id }
}

#[test]
fn selects_first_device_with_the_uuid() {
    let devices = vec![dev(1, 0x10de, 0x2684), dev(2, 0x1002, 0x73bf), dev(2, 0x8086, 0x56a0)];
    let s = select_device_by_uuid([2; 16], &devices).unwrap();
    assert_eq!(s.index, 1);
    assert_eq!(s.mesa_device_select, "1002:73bf");
    assert_eq!(s.loader_device_select, "1");
}

#[test]
fn ids_are_padded_to_four_hex_digits() {
    let devices = vec![dev(7, 0x5, 0xab)];
    let s = select_device_by_uuid([7; 16], &devices).unwrap();
    assert_eq!(s.mesa_device_select, "0005:00ab");
    assert_eq!(s.loader_device_select, "0");
    let wide = vec![dev(7, 0x12345, 0xfffff)];
    assert_eq!(select_device_by_uuid([7; 16], &wide).unwrap().mesa_device_select, "12345:fffff");
}

#[test]
fn no_match_selects_nothing() {
    let devices = vec![dev(1, 1, 1)];
    assert!(select_device_by_uuid([9; 16], &devices).is_none());
    assert!(select_device_by_uuid([9; 16], &[]).is_none());
}
