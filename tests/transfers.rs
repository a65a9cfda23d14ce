use rusb::descriptor::LANG_ID_EN_US;
use rusb::parse_string_descriptor_ascii as parse;
use rusb::transfer::{duration_to_timeout, usize_to_u16, usize_to_u32};
use rusb::usbfs::{ioctl_outcome, max_bulk_chunk, retry_read_only, translate_errno};
use rusb::{
    Backend, Chunk, ChunkedTransfer, ControlRequest, ControlSubmission, ControlTransferData,
    Device, DeviceDescriptor, DeviceHandle, Error, SetupPacket, TransferBuffer, TransferDirection,
};

fn handle(backend: Backend, caps: u32) -> DeviceHandle {
    DeviceHandle { backend, bus_number: 1, address: 2, caps, claimed: Vec::new() }
}

fn get_descriptor_request() -> ControlRequest {
    ControlRequest { request_type: 0x80, request: 0x06, value: 0x0100, index: 0 }
}

#[test]
fn control_direction_mismatch_is_rejected() {
    let h = handle(Backend::Usbfs, 0);
    let out_request = ControlRequest { request_type: 0x40, request: 1, value: 0, index: 0 };
    let mut buf = [0u8; 4];
    assert_eq!(
        h.control_transfer(out_request, &ControlTransferData::In(&mut buf), 100),
        Err(Error::InvalidArgument)
    );
    let data = [1u8, 2];
    assert_eq!(
        h.control_transfer(get_descriptor_request(), &ControlTransferData::Out(&data), 100),
        Err(Error::InvalidArgument)
    );
    // An empty buffer still carries a direction.
    let empty: [u8; 0] = [];
    assert_eq!(
        h.control_transfer(get_descriptor_request(), &ControlTransferData::Out(&empty), 100),
        Err(Error::InvalidArgument)
    );
    // No data stage: either direction bit is accepted.
    assert!(h.control_transfer(out_request, &ControlTransferData::NoData, 100).is_ok());
    assert!(h.control_transfer(get_descriptor_request(), &ControlTransferData::NoData, 100).is_ok());
}

#[test]
fn control_payload_longer_than_16_bits_is_rejected() {
    let h = handle(Backend::Usbfs, 0);
    let big = vec![0u8; 65536];
    let req = ControlRequest { request_type: 0x40, request: 1, value: 0, index: 0 };
    assert_eq!(
        h.control_transfer(req, &ControlTransferData::Out(&big), 100),
        Err(Error::InvalidArgument)
    );
    let max = vec![0u8; 65535];
    assert_eq!(
        h.control_transfer(req, &ControlTransferData::Out(&max), 100).unwrap().setup.length,
        65535
    );
}

#[test]
fn get_descriptor_control_transfer() {
    let h = handle(Backend::Usbfs, 0);
    let mut buf = [0u8; 18];
    let sub = h
        .control_transfer(get_descriptor_request(), &ControlTransferData::In(&mut buf), 1000)
        .unwrap();
    assert_eq!(
        sub,
        ControlSubmission {
            setup: SetupPacket {
                request_type: 0x80,
                request: 0x06,
                value: 0x0100,
                index: 0,
                length: 18
            },
            timeout_ms: 1000
        }
    );
    assert_eq!(sub.setup.to_bytes(), [0x80, 0x06, 0x00, 0x01, 0x00, 0x00, 0x12, 0x00]);
    // The device answers with all 18 bytes.
    assert_eq!(ioctl_outcome(18, 0, sub.setup.length as usize), Ok(18));
    let reply = [
        18u8, 0x01, 0x00, 0x02, 0x09, 0x00, 0x01, 0x40, 0x6b, 0x1d, 0x02, 0x00, 0x15, 0x05, 3, 2,
        1, 1,
    ];
    let desc = DeviceDescriptor::from_bytes(&reply).unwrap();
    assert_eq!(desc.length, 18);
    assert_eq!(desc.descriptor_type, 0x01);
    assert_eq!(desc.usb_version, 0x0200);
    assert_eq!(desc.vendor_id, 0x1d6b);
    assert_eq!(desc.product_id, 0x0002);
    assert_eq!(desc.device_version, 0x0515);
    assert_eq!(desc.serial_number_string_index, 1);
}

#[test]
fn completed_control_counts() {
    let h = handle(Backend::Usbfs, 0);
    let mut buf = [0u8; 18];
    let sub = h
        .control_transfer(get_descriptor_request(), &ControlTransferData::In(&mut buf), 1000)
        .unwrap();
    assert_eq!(h.complete_control(&sub, 18, 0), Ok(18));
    assert_eq!(h.complete_control(&sub, 19, 0), Err(Error::Unknown));
    assert_eq!(h.complete_control(&sub, -1, 19), Err(Error::Disconnected));
}

#[test]
fn mismatch_is_refused_before_the_backend() {
    let none = handle(Backend::Unsupported, 0);
    let data = [1u8];
    assert_eq!(
        none.control_transfer(get_descriptor_request(), &ControlTransferData::Out(&data), 0),
        Err(Error::InvalidArgument)
    );
    assert!(matches!(
        none.bulk_transfer(0x81, &TransferBuffer::Out(&data), 0),
        Err(Error::InvalidArgument)
    ));
    assert!(matches!(
        none.bulk_transfer(0x01, &TransferBuffer::Out(&data), 0),
        Err(Error::NotSupported)
    ));
}

#[test]
fn malformed_device_descriptors_are_invalid() {
    assert_eq!(DeviceDescriptor::from_bytes(&[18, 1, 0]), Err(Error::InvalidArgument));
    let mut wrong_type = [0u8; 18];
    wrong_type[0] = 18;
    wrong_type[1] = 2;
    assert_eq!(DeviceDescriptor::from_bytes(&wrong_type), Err(Error::InvalidArgument));
}

#[test]
fn timeouts_map_to_32_bit_milliseconds() {
    assert_eq!(duration_to_timeout(0), 0);
    assert_eq!(duration_to_timeout(1500), 1500);
    assert_eq!(duration_to_timeout(u32::MAX as u128 + 5), u32::MAX);
    assert_eq!(usize_to_u16(65535), Ok(65535));
    assert_eq!(usize_to_u16(65536), Err(Error::InvalidArgument));
    assert_eq!(usize_to_u32(7), Ok(7));
}

#[test]
fn errno_translation() {
    assert_eq!(translate_errno(2), Error::Disconnected);
    assert_eq!(translate_errno(19), Error::Disconnected);
    assert_eq!(translate_errno(110), Error::Timeout);
    assert_eq!(translate_errno(22), Error::InvalidArgument);
    assert_eq!(translate_errno(5), Error::Io(5));
    assert_eq!(ioctl_outcome(-1, 110, 8), Err(Error::Timeout));
    assert_eq!(ioctl_outcome(-1, 32, 8), Err(Error::Io(32)));
    assert_eq!(ioctl_outcome(3, 0, 8), Ok(3));
    assert_eq!(ioctl_outcome(9, 0, 8), Err(Error::Unknown));
    assert!(retry_read_only(13));
    assert!(retry_read_only(1));
    assert!(!retry_read_only(2));
}

#[test]
fn bulk_direction_must_match_endpoint() {
    let h = handle(Backend::Usbfs, 0);
    let mut buf = [0u8; 8];
    assert!(matches!(
        h.bulk_transfer(0x02, &TransferBuffer::In(&mut buf), 500),
        Err(Error::InvalidArgument)
    ));
    let data = [1u8; 8];
    assert!(matches!(
        h.interrupt_transfer(0x81, &TransferBuffer::Out(&data), 500),
        Err(Error::InvalidArgument)
    ));
    let plan = h.bulk_transfer(0x81, &TransferBuffer::In(&mut buf), 500).unwrap();
    assert_eq!(plan.direction, TransferDirection::In);
    assert_eq!(plan.len, 8);
    assert_eq!(plan.timeout_ms, 500);
}

#[test]
fn chunked_out_transfer_of_three_submissions() {
    let h = handle(Backend::Usbfs, 0);
    let data = vec![0u8; 39936];
    let mut plan = h.bulk_transfer(0x02, &TransferBuffer::Out(&data), 500).unwrap();
    let mut sizes = Vec::new();
    while let Some(chunk) = plan.next_chunk() {
        sizes.push(chunk.len);
        plan.record(chunk.len as usize).unwrap();
    }
    assert_eq!(sizes, vec![16384, 16384, 7168]);
    assert_eq!(plan.total(), 39936);
}

#[test]
fn chunked_transfer_stops_at_short_submission() {
    let h = handle(Backend::Usbfs, 0);
    let data = vec![0u8; 40 * 1024];
    let mut plan = h.bulk_transfer(0x02, &TransferBuffer::Out(&data), 500).unwrap();
    assert_eq!(plan.next_chunk(), Some(Chunk { offset: 0, len: 16384 }));
    plan.record(16384).unwrap();
    assert_eq!(plan.next_chunk(), Some(Chunk { offset: 16384, len: 16384 }));
    plan.record(8192).unwrap();
    assert_eq!(plan.next_chunk(), None);
    assert!(plan.is_done());
    assert_eq!(plan.total(), 24576);
}

#[test]
fn uncapped_handles_submit_once() {
    assert_eq!(max_bulk_chunk(0x04), u32::MAX as usize);
    assert_eq!(max_bulk_chunk(0x03), 16384);
    let h = handle(Backend::Usbfs, 0x04);
    let data = vec![0u8; 40 * 1024];
    let plan = h.bulk_transfer(0x02, &TransferBuffer::Out(&data), 0).unwrap();
    assert_eq!(plan.next_chunk(), Some(Chunk { offset: 0, len: 40 * 1024 }));
}

#[test]
fn overlong_count_is_refused() {
    let mut plan = ChunkedTransfer::new(0x81, TransferDirection::In, 10, 4, 0);
    assert_eq!(plan.record(5), Err(Error::Unknown));
    assert_eq!(plan.total(), 0);
    plan.record(4).unwrap();
    plan.record(4).unwrap();
    assert_eq!(plan.next_chunk(), Some(Chunk { offset: 8, len: 2 }));
    plan.record(2).unwrap();
    assert_eq!(plan.next_chunk(), None);
    assert_eq!(plan.total(), 10);
}

#[test]
fn string_descriptor_request() {
    let h = handle(Backend::Usbfs, 0);
    let mut buf = [0u8; 255];
    let sub = h.read_string_descriptor(2, LANG_ID_EN_US, &mut buf).unwrap();
    assert_eq!(sub.setup.request_type, 0x80);
    assert_eq!(sub.setup.request, 0x06);
    assert_eq!(sub.setup.value, 0x0302);
    assert_eq!(sub.setup.index, 0x0409);
    assert_eq!(sub.setup.length, 255);
    assert_eq!(sub.timeout_ms, 1000);
    let reply = [8u8, 3, b'a', 0, b'b', 0, b'c', 0];
    assert_eq!(h.read_string_descriptor_ascii(&reply).unwrap(), "abc");
}

#[test]
fn string_descriptor_ascii_rules() {
    assert_eq!(parse(&[1]), Err(Error::Unknown));
    assert_eq!(parse(&[1, 3]), Err(Error::Unknown));
    assert_eq!(parse(&[4, 2, b'a', 0]), Err(Error::Unknown));
    assert_eq!(parse(&[6, 3, b'a', 0]), Err(Error::Unknown));
    assert_eq!(parse(&[6, 3, b'a', 0, b'b', 1]), Err(Error::Unknown));
    assert_eq!(parse(&[2, 3]).unwrap(), "");
    assert_eq!(parse(&[7, 3, b'H', 0, b'i', 0, 0xff]).unwrap(), "Hi");
    let s = parse(&[10, 3, b'U', 0, b'S', 0, b'B', 0, b'!', 0]).unwrap();
    assert_eq!(s.chars().count(), 4);
}

#[test]
fn claimed_interfaces_form_a_set() {
    let dev = Device::with_descriptor(
        Backend::WinUsb,
        0,
        0,
        DeviceDescriptor::from_bytes(&[18, 1, 0, 2, 0, 0, 0, 64, 3, 4, 1, 0x60, 0, 6, 0, 0, 0, 1])
            .unwrap(),
    );
    let mut h = dev.open().unwrap();
    assert_eq!(h.release_interface(1), Err(Error::NotSupported));
    assert_eq!(h.set_interface_alt_setting(1, 0), Err(Error::NotSupported));
    h.claim_interface(1).unwrap();
    h.claim_interface(1).unwrap();
    h.claim_interface(2).unwrap();
    assert_eq!(h.claimed, vec![1, 2]);
    assert_eq!(h.set_interface_alt_setting(1, 3), Ok(()));
    h.release_interface(1).unwrap();
    assert_eq!(h.claimed, vec![2]);
    assert_eq!(h.release_interface(1), Err(Error::NotSupported));
}

#[test]
fn backend_capabilities() {
    let usbfs = handle(Backend::Usbfs, 0);
    let winusb = handle(Backend::WinUsb, 0);
    let mut iokit = handle(Backend::IoKit, 0);
    let web = handle(Backend::WebUsb, 0);
    let none = handle(Backend::Unsupported, 0);
    assert_eq!(usbfs.reset_device(), Ok(()));
    assert_eq!(winusb.reset_device(), Err(Error::NotSupported));
    assert_eq!(iokit.reset_device(), Ok(()));
    assert_eq!(usbfs.detach_kernel_driver(0), Ok(()));
    assert_eq!(winusb.attach_kernel_driver(0), Err(Error::NotSupported));
    assert_eq!(iokit.detach_kernel_driver(0), Err(Error::NotSupported));
    assert_eq!(winusb.clear_halt(0x81), Ok(()));
    assert_eq!(iokit.clear_halt(0x81), Err(Error::NotSupported));
    let mut buf = [0u8; 4];
    assert!(matches!(
        iokit.bulk_transfer(0x81, &TransferBuffer::In(&mut buf), 0),
        Err(Error::NotSupported)
    ));
    iokit.claim_interface(0).unwrap();
    assert_eq!(iokit.clear_halt(0x81), Ok(()));
    assert!(iokit.bulk_transfer(0x81, &TransferBuffer::In(&mut buf), 0).is_ok());
    assert_eq!(web.reset_device(), Err(Error::NotSupported));
    let mut web2 = handle(Backend::WebUsb, 0);
    assert_eq!(web2.claim_interface(0), Err(Error::NotSupported));
    assert!(matches!(
        none.control_transfer(get_descriptor_request(), &ControlTransferData::NoData, 0),
        Err(Error::NotSupported)
    ));
}
