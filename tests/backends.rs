use rusb::iokit::{get_pipe_ref, io_result, timeout_components, IOUSBFindInterfaceRequest, PipeProperties};
use rusb::unsupported;
use rusb::webusb::{
    build_control_parameters, claim_failure_is_fatal, copy_in_data, ensure_ready, ReadySteps, endpoint_number, ensure_status_ok, get_device_descriptor,
    is_already_claimed, js_error, UsbRecipient, UsbRequestType,
};
use rusb::winusb::{
    device_path_from_wide, ensure_u32_len, maybe_set_timeout, InterfaceSearch, SearchStep,
    GUID_DEVINTERFACE_USB_DEVICE,
};
use rusb::{
    Backend, ConfigurationDescriptor, ControlRequest, ControlTransferData, Device, DeviceDescriptor,
    DeviceHandle, Error, NotSupportedDevice, Speed, TransferBuffer, TransferDirection,
};

#[test]
fn iokit_pipes_and_codes() {
    let pipes = [
        PipeProperties { direction: 0, number: 2 },
        PipeProperties { direction: 1, number: 1 },
        PipeProperties { direction: 1, number: 3 },
    ];
    assert_eq!(get_pipe_ref(&pipes, 0x02), Ok(1));
    assert_eq!(get_pipe_ref(&pipes, 0x81), Ok(2));
    assert_eq!(get_pipe_ref(&pipes, 0x83), Ok(3));
    assert_eq!(get_pipe_ref(&pipes, 0x01), Err(Error::NotSupported));
    assert_eq!(io_result(0), Ok(()));
    assert_eq!(io_result(-536870212), Err(Error::Io(-536870212)));
    assert_eq!(timeout_components(0), (0, 0));
    assert_eq!(timeout_components(250), (250, 250));
    assert_eq!(timeout_components(1u128 << 40), (u32::MAX, u32::MAX));
    let any = IOUSBFindInterfaceRequest::dont_care();
    assert_eq!(any.interface_class, 0xFFFF);
    assert_eq!(any.alternate_setting, 0xFFFF);
}

#[test]
fn winusb_helpers() {
    assert_eq!(maybe_set_timeout(0), None);
    assert_eq!(maybe_set_timeout(100), Some(100));
    assert_eq!(ensure_u32_len(5), Ok(()));
    assert_eq!(device_path_from_wide(&[0x5c, 0x5c, 0x3f, 0, 0x41]), vec![0x5c, 0x5c, 0x3f]);
    assert_eq!(device_path_from_wide(&[0x41, 0x42]), vec![0x41, 0x42]);
    assert_eq!(GUID_DEVINTERFACE_USB_DEVICE >> 96, 0xA5DCBF10);
}

#[test]
fn webusb_control_parameters() {
    let p = build_control_parameters(ControlRequest { request_type: 0xA1, request: 3, value: 0, index: 2 }).unwrap();
    assert_eq!(p.direction, TransferDirection::In);
    assert_eq!(p.request_type, UsbRequestType::Class);
    assert_eq!(p.recipient, UsbRecipient::Interface);
    assert_eq!((p.request, p.value, p.index), (3, 0, 2));
    let v = build_control_parameters(ControlRequest { request_type: 0x43, request: 1, value: 9, index: 0 }).unwrap();
    assert_eq!((v.direction, v.request_type, v.recipient), (TransferDirection::Out, UsbRequestType::Vendor, UsbRecipient::Other));
    let s = build_control_parameters(ControlRequest { request_type: 0x02, request: 1, value: 0, index: 0x81 }).unwrap();
    assert_eq!((s.request_type, s.recipient), (UsbRequestType::Standard, UsbRecipient::Endpoint));
    assert_eq!(
        build_control_parameters(ControlRequest { request_type: 0x60, request: 0, value: 0, index: 0 }),
        Err(Error::NotSupported)
    );
}

#[test]
fn webusb_results() {
    assert_eq!(ensure_status_ok("ok"), Ok(()));
    assert_eq!(ensure_status_ok("stall"), Err(Error::Unknown));
    assert_eq!(ensure_status_ok("babble"), Err(Error::Unknown));
    assert!(is_already_claimed("InvalidStateError"));
    assert!(!is_already_claimed("NetworkError"));
    let mut target = [9u8; 4];
    assert_eq!(copy_in_data(Some(&[1, 2]), &mut target), 2);
    assert_eq!(target, [1, 2, 9, 9]);
    assert_eq!(copy_in_data(Some(&[5, 6, 7, 8, 9, 10]), &mut target), 4);
    assert_eq!(target, [5, 6, 7, 8]);
    assert_eq!(copy_in_data(None, &mut target), 0);
    assert_eq!(endpoint_number(0x81), 1);
    assert_eq!(js_error(Some(11), Some(b"x")), Error::Io(11));
    assert_eq!(js_error(None, Some(b"ab")), Error::Io(97 + 98));
    assert_eq!(js_error(None, None), Error::Unknown);
}

#[test]
fn webusb_descriptor_is_synthesised() {
    let d = get_device_descriptor(0x2341, 0x0043, 2, 0, 0, 2, 1, 1);
    assert_eq!(d.length, 18);
    assert_eq!(d.descriptor_type, 1);
    assert_eq!(d.usb_version, 2);
    assert_eq!(d.device_version, 1);
    assert_eq!(d.max_packet_size_0, 0);
    assert_eq!(d.manufacturer_string_index, 0);
    assert_eq!(d.vendor_id, 0x2341);
    assert_eq!(d.num_configurations, 1);
}

#[test]
fn configuration_descriptor_header() {
    let c = ConfigurationDescriptor::from_bytes(&[9, 2, 0x20, 0x00, 1, 1, 0, 0x80, 50]).unwrap();
    assert_eq!(c.total_length, 32);
    assert_eq!(c.num_interfaces, 1);
    assert_eq!(c.max_power, 50);
    assert_eq!(ConfigurationDescriptor::from_bytes(&[9, 1, 0, 0, 0, 0, 0, 0, 0]), Err(Error::InvalidArgument));
}

#[test]
fn unsupported_backend_refuses_everything() {
    let dev = NotSupportedDevice;
    assert_eq!((dev.bus_number(), dev.address(), dev.speed()), (0, 0, Speed::Unknown));
    assert!(matches!(unsupported::devices(), Err(Error::NotSupported)));
    let desc = DeviceDescriptor::from_bytes(&[18, 1, 0, 2, 0, 0, 0, 64, 1, 0, 1, 0, 0, 1, 0, 0, 0, 1]).unwrap();
    let device = Device::with_descriptor(Backend::Unsupported, 0, 0, desc);
    assert!(matches!(device.open(), Err(Error::NotSupported)));
    assert_eq!(device.get_device_descriptor(), Err(Error::NotSupported));
    assert!(matches!(unsupported::open(&device), Err(Error::NotSupported)));
    assert_eq!(unsupported::get_device_descriptor(&device), Err(Error::NotSupported));
    assert_eq!(unsupported::get_active_configuration(&device), Err(Error::NotSupported));
    assert_eq!(unsupported::get_configuration_descriptor(&device, 0), Err(Error::NotSupported));
    assert_eq!(unsupported::get_config_descriptor_by_value(&device, 1), Err(Error::NotSupported));
    let h = DeviceHandle { backend: Backend::Unsupported, bus_number: 0, address: 0, caps: 0, claimed: Vec::new() };
    let req = ControlRequest { request_type: 0x80, request: 6, value: 0x100, index: 0 };
    assert_eq!(unsupported::control_transfer(&h, req, &ControlTransferData::NoData, 0), Err(Error::NotSupported));
    let mut buf = [0u8; 2];
    assert_eq!(unsupported::bulk_transfer(&h, 0x81, &TransferBuffer::In(&mut buf), 0), Err(Error::NotSupported));
    assert_eq!(unsupported::interrupt_transfer(&h, 0x81, &TransferBuffer::In(&mut buf), 0), Err(Error::NotSupported));
    assert_eq!(unsupported::claim_interface(&h, 0), Err(Error::NotSupported));
    assert_eq!(unsupported::release_interface(&h, 0), Err(Error::NotSupported));
    assert_eq!(unsupported::set_interface_alt_setting(&h, 0, 1), Err(Error::NotSupported));
    assert_eq!(unsupported::reset_device(&h), Err(Error::NotSupported));
    assert_eq!(unsupported::clear_halt(&h, 0x81), Err(Error::NotSupported));
    assert_eq!(unsupported::detach_kernel_driver(&h, 0), Err(Error::NotSupported));
    assert_eq!(unsupported::attach_kernel_driver(&h, 0), Err(Error::NotSupported));
    assert_eq!(Error::Timeout.describe(), "operation timed out");
}

#[test]
fn winusb_interface_search() {
    // The initial handle serves interface 0.
    let mut s = InterfaceSearch::new(0);
    assert_eq!(s.on_settings(Some(0)), SearchStep::Take);
    // Interface 2 is the second associated interface.
    let mut s = InterfaceSearch::new(2);
    assert_eq!(s.on_settings(Some(0)), SearchStep::Fetch(0));
    assert_eq!(s.on_settings(Some(1)), SearchStep::Fetch(1));
    assert_eq!(s.on_settings(Some(2)), SearchStep::Take);
    // A failed query moves on; running out of associated interfaces ends it.
    let mut s = InterfaceSearch::new(5);
    assert_eq!(s.on_settings(None), SearchStep::Fetch(0));
    assert_eq!(s.on_fetch_failed(), SearchStep::NotFound);
    // At most 256 associated interfaces are asked for.
    let mut s = InterfaceSearch::new(9);
    let mut fetched = 0;
    while let SearchStep::Fetch(_) = s.on_settings(Some(1)) {
        fetched += 1;
    }
    assert_eq!(fetched, 256);
}

#[test]
fn webusb_readiness() {
    assert_eq!(
        ensure_ready(false, false, &[1, 2]),
        Ok(ReadySteps { open: true, select_configuration: Some(1) })
    );
    assert_eq!(ensure_ready(true, true, &[]), Ok(ReadySteps { open: false, select_configuration: None }));
    assert_eq!(ensure_ready(true, false, &[]), Err(Error::NotSupported));
    assert!(!claim_failure_is_fatal(Some("InvalidStateError")));
    assert!(claim_failure_is_fatal(Some("SecurityError")));
    assert!(claim_failure_is_fatal(None));
}
