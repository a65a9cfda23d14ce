use rusb::usbfs::{
    descriptor_from_attributes, node_path, parse_numeric_auto, parse_u16_auto, parse_u8_auto,
    read_u8_auto, read_u8_auto_optional, SysfsAttributes,
};
use rusb::{devices, Backend, Error, Esp32SerialBridge, FtdiDevice, Stm32DfuDevice};

fn attrs(pairs: &[(&str, &str)]) -> SysfsAttributes {
    let get = |name: &str| {
        pairs
            .iter()
            .find(|(n, _)| *n == name)
            .map(|(_, v)| v.as_bytes().to_vec())
    };
    SysfsAttributes {
        busnum: get("busnum"),
        devnum: get("devnum"),
        bcd_usb: get("bcdUSB"),
        device_class: get("bDeviceClass"),
        device_subclass: get("bDeviceSubClass"),
        device_protocol: get("bDeviceProtocol"),
        max_packet_size_0: get("bMaxPacketSize0"),
        id_vendor: get("idVendor"),
        id_product: get("idProduct"),
        bcd_device: get("bcdDevice"),
        manufacturer: get("iManufacturer"),
        product: get("iProduct"),
        serial_number: get("iSerialNumber"),
        num_configurations: get("bNumConfigurations"),
    }
}

fn full_device(bus: &str, dev: &str) -> SysfsAttributes {
    attrs(&[
        ("busnum", bus),
        ("devnum", dev),
        ("bcdUSB", "0200\n"),
        ("bDeviceClass", "09\n"),
        ("bDeviceSubClass", "00\n"),
        ("bDeviceProtocol", "01\n"),
        ("bMaxPacketSize0", "64\n"),
        ("idVendor", "1d6b\n"),
        ("idProduct", "0002\n"),
        ("bcdDevice", "0515\n"),
        ("iManufacturer", "3\n"),
        ("iProduct", "2\n"),
        ("bNumConfigurations", "1\n"),
    ])
}

#[test]
fn parses_decimal_values() {
    assert_eq!(parse_u8_auto("10").unwrap(), 10);
    assert_eq!(parse_u16_auto("255").unwrap(), 255);
}

#[test]
fn parses_hex_values_with_and_without_prefix() {
    assert_eq!(parse_u8_auto("0x0A").unwrap(), 10);
    assert_eq!(parse_u16_auto("1d6b").unwrap(), 0x1d6b);
}

#[test]
fn all_spellings_of_ten_parse_to_ten() {
    for s in ["10", "0x0A", "0a", "0X0A"] {
        assert_eq!(parse_u8_auto(s), Ok(10), "{s}");
    }
}

#[test]
fn whitespace_around_values_is_trimmed() {
    assert_eq!(parse_u8_auto(" 10\n"), Ok(10));
    assert_eq!(parse_u16_auto("\t0x1d6b \r\n"), Ok(0x1d6b));
}

#[test]
fn unparsable_values_are_unknown() {
    assert_eq!(parse_u8_auto(""), Err(Error::Unknown));
    assert_eq!(parse_u8_auto("0x"), Err(Error::Unknown));
    assert_eq!(parse_u8_auto("zz"), Err(Error::Unknown));
    assert_eq!(parse_u8_auto("1 0"), Err(Error::Unknown));
    // 256 is no u8 in decimal, and 0x256 is none in hex either.
    assert_eq!(parse_u8_auto("256"), Err(Error::Unknown));
    assert_eq!(parse_u16_auto("65535"), Ok(65535));
    assert_eq!(parse_u16_auto("65536"), Err(Error::Unknown));
    assert_eq!(parse_numeric_auto(b"ffff", 65535), Ok(0xffff));
}

#[test]
fn unicode_whitespace_and_plus_sign() {
    assert_eq!(parse_u8_auto("\u{a0}10"), Ok(10));
    assert_eq!(parse_u8_auto("10\u{3000}\u{2028}"), Ok(10));
    assert_eq!(parse_u8_auto("\u{85}\u{2009} 0x0A\u{1680}"), Ok(10));
    assert_eq!(parse_u8_auto("+10"), Ok(10));
    assert_eq!(parse_u8_auto("+0a"), Ok(10));
    assert_eq!(parse_u8_auto("0x+a"), Ok(10));
    assert_eq!(parse_u8_auto("+"), Err(Error::Unknown));
    assert_eq!(parse_u8_auto("++1"), Err(Error::Unknown));
    assert_eq!(parse_u8_auto("-1"), Err(Error::Unknown));
    assert_eq!(parse_u8_auto("1\u{200b}"), Err(Error::Unknown));
}

#[test]
fn decimal_is_tried_before_hex() {
    assert_eq!(parse_u16_auto("0100"), Ok(100));
    assert_eq!(parse_u16_auto("0x0100"), Ok(0x100));
}

#[test]
fn missing_attributes_are_disconnected_or_zero() {
    assert_eq!(read_u8_auto(&None), Err(Error::Disconnected));
    assert_eq!(read_u8_auto_optional(&None), Ok(0));
    assert_eq!(read_u8_auto_optional(&Some(b"7\n".to_vec())), Ok(7));
}

#[test]
fn enumerating_nothing_gives_an_empty_list() {
    let list = devices(Vec::new()).unwrap();
    assert_eq!(list.iter().count(), 0);
}

#[test]
fn interface_nodes_are_skipped() {
    let nodes = vec![
        attrs(&[("bInterfaceClass", "03")]),
        attrs(&[("busnum", "1")]),
        attrs(&[("devnum", "4")]),
    ];
    let list = devices(nodes).unwrap();
    assert_eq!(list.iter().count(), 0);
}

#[test]
fn device_nodes_are_listed_in_order() {
    let nodes = vec![
        full_device("1\n", "1\n"),
        attrs(&[]),
        full_device("2\n", "7\n"),
    ];
    let list = devices(nodes).unwrap();
    let found: Vec<(u16, u16)> = list.iter().map(|d| (d.bus_number, d.address)).collect();
    assert_eq!(found, vec![(1, 1), (2, 7)]);
    assert!(list.iter().all(|d| d.backend == Backend::Usbfs));
}

#[test]
fn unreadable_bus_number_fails_enumeration() {
    let nodes = vec![full_device("1", "1"), full_device("x", "2")];
    assert!(matches!(devices(nodes), Err(Error::Unknown)));
}

#[test]
fn descriptor_is_read_from_attributes() {
    let desc = descriptor_from_attributes(&full_device("1", "1")).unwrap();
    assert_eq!(desc.length, 18);
    assert_eq!(desc.descriptor_type, 1);
    assert_eq!(desc.usb_version, 200);
    assert_eq!(desc.device_class, 9);
    assert_eq!(desc.device_protocol, 1);
    assert_eq!(desc.max_packet_size_0, 64);
    assert_eq!(desc.vendor_id, 0x1d6b);
    assert_eq!(desc.product_id, 2);
    assert_eq!(desc.device_version, 515);
    assert_eq!(desc.manufacturer_string_index, 3);
    assert_eq!(desc.product_string_index, 2);
    assert_eq!(desc.serial_number_string_index, 0);
    assert_eq!(desc.num_configurations, 1);
}

#[test]
fn descriptor_reports_first_failing_attribute() {
    let mut a = full_device("1", "1");
    a.device_class = Some(b"bogus".to_vec());
    a.id_vendor = None;
    assert_eq!(descriptor_from_attributes(&a), Err(Error::Unknown));
    let mut b = full_device("1", "1");
    b.id_vendor = None;
    assert_eq!(descriptor_from_attributes(&b), Err(Error::Disconnected));
}

#[test]
fn device_descriptor_through_device() {
    let list = devices(vec![full_device("3", "9")]).unwrap();
    let dev = list.iter().next().unwrap();
    assert_eq!(dev.get_device_descriptor().unwrap().vendor_id, 0x1d6b);
    assert_eq!(dev.node_path(), "/dev/bus/usb/003/009");
}

#[test]
fn node_paths_are_zero_padded() {
    assert_eq!(node_path(1, 2), "/dev/bus/usb/001/002");
    assert_eq!(node_path(0, 127), "/dev/bus/usb/000/127");
    assert_eq!(node_path(1234, 65535), "/dev/bus/usb/1234/65535");
}

#[test]
fn class_helpers_open_first_from_sysfs() {
    let mut esp = full_device("1", "5");
    esp.id_vendor = Some(b"303a\n".to_vec());
    let (bridge, first) = Esp32SerialBridge::open_first(vec![full_device("1", "1"), esp]).unwrap();
    assert_eq!(first.setup.value, 3);
    assert_eq!((bridge.handle.bus_number, bridge.handle.address), (1, 5));
    assert!(matches!(Esp32SerialBridge::open_first(Vec::new()), Err(Error::NotSupported)));
    assert!(matches!(
        Esp32SerialBridge::open_first(vec![full_device("xyz", "1")]),
        Err(Error::Unknown)
    ));
    let mut ftdi = full_device("2", "3");
    ftdi.id_vendor = Some(b"0x0403".to_vec());
    ftdi.id_product = Some(b"0x6001".to_vec());
    let (f, _) = FtdiDevice::open_first(vec![ftdi]).unwrap();
    assert_eq!(f.handle.address, 3);
    let mut dfu = full_device("4", "4");
    dfu.id_vendor = Some(b"0x0483".to_vec());
    dfu.id_product = Some(b"df11".to_vec());
    assert!(Stm32DfuDevice::open_first(vec![dfu]).is_ok());
    assert!(matches!(Stm32DfuDevice::open_first(vec![full_device("1", "1")]), Err(Error::NotSupported)));
}
