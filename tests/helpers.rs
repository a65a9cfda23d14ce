use rusb::esp32::{push_le32, ESPRESSIF_VID};
use rusb::ftdi::compute_ftdi_divisor;
use rusb::logger::log_frame;
use rusb::slip::{slip_decode, slip_encode, SlipDecoder};
use rusb::{
    Backend, BitMode, ChannelLogger, Device, DeviceDescriptor, DeviceHandle, DeviceList, DfuPoll,
    Error, Esp32SerialBridge, FlowControl, FtdiDevice, LogLabel, Stm32DfuDevice,
    Stm32VirtualCom, TransferDirection,
};

fn handle() -> DeviceHandle {
    DeviceHandle { backend: Backend::Usbfs, bus_number: 1, address: 1, caps: 0, claimed: Vec::new() }
}

fn descriptor(vendor: u16, product: u16) -> DeviceDescriptor {
    let v = vendor.to_le_bytes();
    let p = product.to_le_bytes();
    DeviceDescriptor::from_bytes(&[18, 1, 0, 2, 0, 0, 0, 64, v[0], v[1], p[0], p[1], 0, 1, 1, 2, 3, 1])
        .unwrap()
}

fn list_of(ids: &[(u16, u16)]) -> DeviceList {
    DeviceList {
        devices: ids
            .iter()
            .enumerate()
            .map(|(i, &(v, p))| Device::with_descriptor(Backend::Usbfs, 1, i as u16 + 1, descriptor(v, p)))
            .collect(),
    }
}

#[test]
fn slip_encode_escapes_both_special_bytes() {
    assert_eq!(
        slip_encode(&[0xC0, 0x01, 0xDB]),
        vec![0xC0, 0xDB, 0xDC, 0x01, 0xDB, 0xDD, 0xC0]
    );
    assert_eq!(slip_encode(&[]), vec![0xC0, 0xC0]);
}

#[test]
fn slip_round_trip() {
    let payloads: [&[u8]; 5] = [&[], &[0xC0, 0x01, 0xDB], &[0x00], &[0xDB, 0xDB, 0xC0, 0xC0], &[1, 2, 3, 4, 5]];
    for p in payloads {
        assert_eq!(slip_decode(&slip_encode(p)), Ok(Some(p.to_vec())));
    }
}

#[test]
fn slip_decoder_across_reads() {
    let frame = slip_encode(&[0x10, 0xC0, 0x20]);
    let mut dec = SlipDecoder::new();
    assert_eq!(dec.feed(&frame[..2]), Ok(None));
    assert_eq!(dec.feed(&frame[2..4]), Ok(None));
    assert_eq!(dec.feed(&frame[4..]), Ok(Some(vec![0x10, 0xC0, 0x20])));
}

#[test]
fn slip_decoder_ends_empty_frames_and_drops_leading_noise() {
    assert_eq!(slip_decode(&[0x55, 0xC0, 0x07, 0xC0]), Ok(Some(vec![0x07])));
    assert_eq!(slip_decode(&[0x55, 0xC0, 0xC0, 0x07, 0xC0]), Ok(Some(vec![])));
    assert_eq!(slip_decode(&[0xC0, 0xC0]), Ok(Some(vec![])));
    assert_eq!(slip_decode(&[0xC0, 0x01]), Ok(None));
    assert_eq!(slip_decode(&[0xC0, 0xDB, 0x01, 0xC0]), Err(Error::Unknown));
}

#[test]
fn esp32_bridge_requests() {
    let list = list_of(&[(0x1234, 1), (ESPRESSIF_VID, 0x1001)]);
    let (bridge, open) = Esp32SerialBridge::open_from_list(&list).unwrap();
    assert_eq!((bridge.in_ep, bridge.out_ep, bridge.interface), (0x81, 0x02, 0));
    assert_eq!((bridge.handle.bus_number, bridge.handle.address), (1, 2));
    assert_eq!(open, bridge.set_control_lines(true, true).unwrap());
    assert_eq!(open.setup.request_type, 0x21);
    assert_eq!(open.setup.request, 0x22);
    assert_eq!(open.setup.value, 3);
    assert_eq!(open.timeout_ms, 100);
    assert_eq!(bridge.set_control_lines(false, true).unwrap().setup.value, 2);
    let (sub, payload) = bridge.set_line_coding(921_600, 0, 0, 8).unwrap();
    assert_eq!(payload, vec![0x00, 0x10, 0x0E, 0x00, 0, 0, 8]);
    assert_eq!((sub.setup.request, sub.setup.length), (0x20, 7));
    let seq = bridge.enter_bootloader_sequence().unwrap();
    let values: Vec<u16> = seq.iter().map(|s| s.setup.value).collect();
    assert_eq!(values, vec![2, 3, 1, 0]);
    assert!(matches!(
        Esp32SerialBridge::open_from_list(&list_of(&[(1, 1)])),
        Err(Error::NotSupported)
    ));
}

#[test]
fn esp32_flash_block_frame() {
    let list = list_of(&[(ESPRESSIF_VID, 1)]);
    let (bridge, _) = Esp32SerialBridge::open_from_list(&list).unwrap();
    let (frame, plan) = bridge.write_flash_block(0x1000, &[0xC0, 0xAA]).unwrap();
    assert_eq!(
        frame,
        vec![0xC0, 0x00, 0x10, 0x00, 0x00, 0x02, 0x00, 0x00, 0x00, 0xDB, 0xDC, 0xAA, 0xC0]
    );
    assert_eq!(plan.len, frame.len());
    assert_eq!(plan.endpoint, 0x02);
    let mut dec = SlipDecoder::new();
    assert_eq!(
        bridge.receive_slip_frame(&mut dec, &frame),
        Ok(Some(vec![0x00, 0x10, 0x00, 0x00, 0x02, 0x00, 0x00, 0x00, 0xC0, 0xAA]))
    );
    let mut v = Vec::new();
    push_le32(&mut v, 0x0102_0304);
    assert_eq!(v, vec![4, 3, 2, 1]);
}

#[test]
fn ftdi_baud_9600() {
    assert_eq!(compute_ftdi_divisor(9600), Some(2500));
    let ftdi = FtdiDevice { handle: handle(), in_ep: 0x81, out_ep: 0x02, interface: 1 };
    let sub = ftdi.set_baud_rate(9600).unwrap();
    assert_eq!(sub.setup.request_type, 0x40);
    assert_eq!(sub.setup.request, 3);
    assert_eq!(sub.setup.value, 2500);
    assert_eq!(sub.setup.index & 0x00FF, 0);
    assert_eq!(sub.setup.index >> 8, 1);
    assert_eq!(ftdi.set_baud_rate(0), Err(Error::NotSupported));
}

#[test]
fn ftdi_divisor_limits() {
    assert_eq!(compute_ftdi_divisor(0), None);
    assert_eq!(compute_ftdi_divisor(1), Some(0x1FFFF));
    assert_eq!(compute_ftdi_divisor(100), Some(0x1FFFF));
    assert_eq!(compute_ftdi_divisor(3_000_000), Some(8));
    assert_eq!(compute_ftdi_divisor(48_000_000), Some(1));
    assert_eq!(compute_ftdi_divisor(115_200), Some(208));
    for baud in [300u32, 1200, 9600, 19200, 57600, 115200, 230400, 460800] {
        let d = compute_ftdi_divisor(baud).unwrap() as f64;
        let rate = 24_000_000.0 / d;
        assert!((rate - baud as f64).abs() / (baud as f64) < 0.031, "{baud}");
    }
}

#[test]
fn ftdi_vendor_requests() {
    let list = list_of(&[(0x0403, 0x1234), (0x0403, 0x6014)]);
    let (ftdi, reset) = FtdiDevice::open_from_list(&list).unwrap();
    assert_eq!(ftdi.handle.address, 2);
    assert_eq!((reset.setup.request_type, reset.setup.request, reset.setup.value, reset.setup.index), (0x40, 0, 0, 0));
    assert_eq!(ftdi.reset().unwrap(), reset);
    let flow = ftdi.set_flow_control(FlowControl::XonXoff).unwrap();
    assert_eq!((flow.setup.request, flow.setup.value, flow.setup.index), (2, 0x1311, 0));
    let rts = ftdi.set_flow_control(FlowControl::RtsCts).unwrap();
    assert_eq!((rts.setup.value, rts.setup.index), (0, 0x0100));
    assert_eq!(ftdi.set_flow_control(FlowControl::DtrDsr).unwrap().setup.index, 0x0200);
    assert_eq!(ftdi.set_flow_control(FlowControl::Disabled).unwrap().setup.index, 0);
    assert_eq!(ftdi.set_latency_timer(0).unwrap().setup.value, 1);
    assert_eq!(ftdi.set_latency_timer(16).unwrap().setup.value, 16);
    let bits = ftdi.set_bit_mode(0xF0, BitMode::Mpsse).unwrap();
    assert_eq!((bits.setup.request, bits.setup.value), (0x0B, 0x02F0));
    assert_eq!(BitMode::SyncFifo.code(), 0x40);
    assert_eq!(ftdi.configure_line(0x0008).unwrap().setup.value, 8);
    assert_eq!(ftdi.purge_rx().unwrap().setup.value, 1);
    assert_eq!(ftdi.purge_tx().unwrap().setup.value, 2);
    let data = [1u8, 2, 3];
    assert_eq!(ftdi.write(&data).unwrap().endpoint, 0x02);
    let mut buf = [0u8; 64];
    let read = ftdi.read(&mut buf).unwrap();
    assert_eq!((read.endpoint, read.direction, read.len), (0x81, TransferDirection::In, 64));
    assert!(matches!(FtdiDevice::open_from_list(&list_of(&[(0x0403, 1)])), Err(Error::NotSupported)));
}

#[test]
fn dfu_mass_erase_and_wait() {
    let list = list_of(&[(0x0483, 0xDF11)]);
    let dfu = Stm32DfuDevice::open_from_list(&list).unwrap();
    let (sub, payload) = dfu.mass_erase().unwrap();
    assert_eq!(payload, vec![0x41, 0x00]);
    assert_eq!(
        (sub.setup.request_type, sub.setup.request, sub.setup.value, sub.setup.length),
        (0x21, 1, 0, 2)
    );
    let busy = [1u8, 0x10, 0x00, 0x00, 4, 0];
    assert_eq!(Stm32DfuDevice::wait_while_busy(&busy, 0, 5000), DfuPoll::Sleep(16));
    assert_eq!(Stm32DfuDevice::wait_while_busy(&[1, 0x01, 0x02, 0x03, 4, 0], 10, 5000), DfuPoll::Sleep(0x030201));
    assert_eq!(Stm32DfuDevice::wait_while_busy(&busy, 5001, 5000), DfuPoll::TimedOut);
    assert_eq!(Stm32DfuDevice::wait_while_busy(&[0, 9, 9, 9, 2, 0], 9000, 5000), DfuPoll::Ready);
    assert_eq!(Stm32DfuDevice::wait_result(DfuPoll::TimedOut), Some(Err(Error::Timeout)));
    assert_eq!(Stm32DfuDevice::wait_result(DfuPoll::Ready), Some(Ok(())));
    assert_eq!(Stm32DfuDevice::wait_result(DfuPoll::Sleep(3)), None);
}

#[test]
fn dfu_requests() {
    let dfu = Stm32DfuDevice { handle: handle(), interface: 2 };
    let det = dfu.detach(1000).unwrap();
    assert_eq!((det.setup.request, det.setup.value, det.setup.index), (0, 1000, 2));
    assert_eq!(dfu.leave_dfu().unwrap(), det);
    let mut status = [0u8; 6];
    let st = dfu.get_status(&mut status).unwrap();
    assert_eq!((st.setup.request_type, st.setup.request, st.setup.length), (0xA1, 3, 6));
    let mut block = [0u8; 2048];
    let up = dfu.upload_block(5, &mut block).unwrap();
    assert_eq!((up.setup.request, up.setup.value, up.setup.length), (2, 5, 2048));
    let down = dfu.download_block(7, &[1, 2, 3]).unwrap();
    assert_eq!((down.setup.request, down.setup.value, down.setup.length), (1, 7, 3));
    assert!(matches!(Stm32DfuDevice::open_from_list(&list_of(&[(0x0483, 1)])), Err(Error::NotSupported)));
}

#[test]
fn virtual_com_transfers() {
    let vcom = Stm32VirtualCom::new(handle(), 0x82, 0x01);
    assert_eq!(vcom.write(&[1, 2]).unwrap().timeout_ms, 200);
    let mut buf = [0u8; 16];
    assert_eq!(vcom.read(&mut buf).unwrap().endpoint, 0x82);
    assert!(matches!(vcom.read(&mut []), Ok(_)));
}

#[test]
fn logger_lines() {
    assert_eq!(log_frame(LogLabel::Tx, 1700000000, 5, &[0x0A, 0xFF]), "[TX] 1700000000.005: 0A FF \n");
    assert_eq!(log_frame(LogLabel::Rx, 0, 999, &[]), "[RX] 0.999: \n");
    assert_eq!(log_frame(LogLabel::Ctrl, 42, 120, &[0x00]), "[CTRL] 42.120: 00 \n");
    let logger = ChannelLogger::new(handle(), 0x81, 0x02);
    assert_eq!(logger.tx_line(&[1, 2, 0xAB], 2, 7, 30), "[TX] 7.030: 01 02 \n");
    assert_eq!(logger.rx_line(&[0xFF, 0], 0, 7, 30), "[RX] 7.030: \n");
    assert_eq!(logger.write(b"AT\r\n").unwrap().len, 4);
    let mut buf = [0u8; 256];
    assert_eq!(logger.read(&mut buf).unwrap().endpoint, 0x81);
    assert_eq!(logger.into_handle().backend, Backend::Usbfs);
}
