use vstd::prelude::*;

use crate::descriptor::{ControlRequest, TransferDirection};
use crate::usbfs::SysfsAttributes;
use crate::device::{devices, enumeration, is_first_match, 
    data_outcome, handle_control, matches_ids, moves_data, Device, DeviceHandle, DeviceList,
};
use crate::error::Error;
use crate::slip::{slip_encode, slip_frame, slip_run, SlipDecoder, SlipRun};
use crate::transfer::{
    control_outcome, ChunkedTransfer, ControlSubmission, ControlTransferData, TransferBuffer,
};

verus! {

/// Vendor id of Espressif.
pub const ESPRESSIF_VID: u16 = 0x303A;
/// CDC request SET_LINE_CODING.
pub const CDC_SET_LINE_CODING: u8 = 0x20;
/// CDC request SET_CONTROL_LINE_STATE.
pub const CDC_SET_CONTROL_LINE_STATE: u8 = 0x22;
/// Request type of a class request, host to device, addressed to an interface.
pub const USB_CLASS_REQUEST_OUT: u8 = 0x21;
/// Timeout of the CDC control requests, in milliseconds.
pub const CDC_CONTROL_TIMEOUT_MS: u128 = 100;
/// Timeout of the serial reads and writes, in milliseconds.
pub const CDC_DATA_TIMEOUT_MS: u128 = 500;
/// Size of each read while a SLIP frame is assembled.
pub const SLIP_READ_CHUNK: usize = 64;

/// The four little-endian bytes of a 32-bit value.
pub open spec fn le32(v: u32) -> Seq<u8> {
    seq![
        (v % 256) as u8,
        ((v / 256) % 256) as u8,
        ((v / 65536) % 256) as u8,
        (v / 16777216) as u8,
    ]
}

/// Appends the four little-endian bytes of `v`.
pub fn push_le32(out: &mut Vec<u8>, v: u32)
    ensures
        final(out)@ == old(out)@ + le32(v),
{
    out.push((v % 256) as u8);
    out.push(((v / 256) % 256) as u8);
    out.push(((v / 65536) % 256) as u8);
    out.push((v / 16777216) as u8);
    assert(final(out)@ =~= old(out)@ + le32(v));
}

/// The control-line value: DTR is bit 0, RTS bit 1.
pub open spec fn control_lines_value(dtr: bool, rts: bool) -> u16 {
    ((if dtr { 1int } else { 0int }) + (if rts { 2int } else { 0int })) as u16
}

/// The payload of SET_LINE_CODING: baud rate (little-endian), stop bits, parity, data bits.
pub open spec fn line_coding_payload(baud: u32, stop_bits: u8, parity: u8, data_bits: u8) -> Seq<u8> {
    le32(baud) + seq![stop_bits, parity, data_bits]
}

/// The payload of a flash block: address and length (little-endian), then the data.
pub open spec fn flash_block_payload(address: u32, data: Seq<u8>) -> Seq<u8> {
    le32(address) + le32(data.len() as u32) + data
}

/// Serial bridge for the native USB CDC-ACM interface of ESP32-Sx chips.
pub struct Esp32SerialBridge {
    pub handle: DeviceHandle,
    pub in_ep: u8,
    pub out_ep: u8,
    pub interface: u8,
}

impl Esp32SerialBridge {
    /// The request of a CDC class command on this bridge's interface.
    pub open spec fn class_request(&self, request: u8, value: u16) -> ControlRequest {
        ControlRequest {
            request_type: USB_CLASS_REQUEST_OUT,
            request,
            value,
            index: self.interface as u16,
        }
    }

    /// Enumerates the sysfs nodes and opens the first matching device there
    /// (see `open_from_list`); an enumeration error comes back as it is.
    pub fn open_first(nodes: Vec<SysfsAttributes>) -> (r: Result<(Self, ControlSubmission), Error>)
        ensures
            enumeration(nodes@) matches Err(e) ==> r == Err::<(Self, ControlSubmission), Error>(e),
            enumeration(nodes@) matches Ok(found) ==> ((exists|i: int|
                0 <= i < found.len() && matches_ids(&found[i], ESPRESSIF_VID, Seq::empty())) <==> r is Ok),
            enumeration(nodes@) matches Ok(found) ==> ((forall|j: int|
                0 <= j < found.len() ==> !matches_ids(&found[j], ESPRESSIF_VID, Seq::empty()))
                ==> r == Err::<(Self, ControlSubmission), Error>(Error::NotSupported)),
            r matches Ok((b, _)) ==> (enumeration(nodes@) matches Ok(found) && exists|i: int|
                is_first_match(found, i, ESPRESSIF_VID, Seq::empty()) && b.handle.bus_number
                    == found[i].bus_number && b.handle.address == found[i].address),
            r matches Ok((b, first)) ==> b.in_ep == 0x81 && b.out_ep == 0x02 && b.interface == 0
                && handle_control(
                &b.handle,
                b.class_request(CDC_SET_CONTROL_LINE_STATE, control_lines_value(true, true)),
                None,
                0,
                CDC_CONTROL_TIMEOUT_MS,
            ) == Ok::<ControlSubmission, Error>(first),
    {
        let list = devices(nodes)?;
        Self::open_from_list(&list)
    }

    /// Opens the first device of the list that carries the ids, with the
    /// default endpoints and interface; `NotSupported` when none does.
    pub fn open_from_list(list: &DeviceList) -> (r: Result<(Self, ControlSubmission), Error>)
        ensures
            r matches Ok((b, _)) ==> exists|i: int|
                is_first_match(list.devices@, i, ESPRESSIF_VID, Seq::empty()) && b.handle.bus_number
                    == list.devices@[i].bus_number && b.handle.address == list.devices@[i].address,
            (exists|i: int|
                0 <= i < list.devices@.len() && matches_ids(&list.devices@[i], ESPRESSIF_VID, Seq::empty()))
                ==> r is Ok,
            (forall|j: int|
                0 <= j < list.devices@.len() ==> !matches_ids(&list.devices@[j], ESPRESSIF_VID, Seq::empty()))
                ==> r == Err::<(Self, ControlSubmission), Error>(Error::NotSupported),
            r matches Ok((b, first)) ==> b.in_ep == 0x81 && b.out_ep == 0x02 && b.interface == 0
                && handle_control(
                &b.handle,
                b.class_request(CDC_SET_CONTROL_LINE_STATE, control_lines_value(true, true)),
                None,
                0,
                CDC_CONTROL_TIMEOUT_MS,
            ) == Ok::<ControlSubmission, Error>(first),
    {
        let pids: [u16; 0] = [];
        assert(pids@ =~= Seq::<u16>::empty());
        match list.find_first(ESPRESSIF_VID, pids.as_slice()) {
            Some(i) => {
                assert(is_first_match(list.devices@, i as int, ESPRESSIF_VID, Seq::empty()));
                Self::open_device(&list.devices[i], 0x81, 0x02, 0)
            },
            None => Err(Error::NotSupported),
        }
    }

    /// Opens a known device with the given endpoints and interface, and gives
    /// the request that raises DTR and RTS, the state the bridge starts in;
    /// the host sends it before anything else.
    pub fn open_device(device: &Device, in_ep: u8, out_ep: u8, interface: u8) -> (r: Result<
        (Self, ControlSubmission),
        Error,
    >)
        ensures
            device.backend == crate::device::Backend::Unsupported ==> r == Err::<
                (Self, ControlSubmission),
                Error,
            >(Error::NotSupported),
            device.backend != crate::device::Backend::Unsupported ==> (r matches Ok((b, first))
                && b.in_ep == in_ep && b.out_ep == out_ep && b.interface == interface
                && b.handle.wf() && b.handle.backend == device.backend && b.handle.bus_number
                == device.bus_number && b.handle.address == device.address && handle_control(
                &b.handle,
                b.class_request(CDC_SET_CONTROL_LINE_STATE, control_lines_value(true, true)),
                None,
                0,
                CDC_CONTROL_TIMEOUT_MS,
            ) == Ok::<ControlSubmission, Error>(first)),
    {
        let handle = device.open()?;
        let bridge = Esp32SerialBridge { handle, in_ep, out_ep, interface };
        let first = bridge.set_control_lines(true, true)?;
        Ok((bridge, first))
    }

    /// SET_LINE_CODING: the submission and its seven-byte payload.
    pub fn set_line_coding(&self, baud: u32, stop_bits: u8, parity: u8, data_bits: u8) -> (r:
        Result<(ControlSubmission, Vec<u8>), Error>)
        ensures
            match r {
                Ok((sub, payload)) => payload@ == line_coding_payload(
                    baud,
                    stop_bits,
                    parity,
                    data_bits,
                ) && control_outcome(
                    self.class_request(CDC_SET_LINE_CODING, 0),
                    Some(TransferDirection::Out),
                    7,
                    CDC_CONTROL_TIMEOUT_MS,
                ) == Ok::<ControlSubmission, Error>(sub),
                Err(e) => handle_control(
                    &self.handle,
                    self.class_request(CDC_SET_LINE_CODING, 0),
                    Some(TransferDirection::Out),
                    7,
                    CDC_CONTROL_TIMEOUT_MS,
                ) == Err::<ControlSubmission, Error>(e),
            },
            moves_data(self.handle.backend) ==> r is Ok,
    {
        let mut payload: Vec<u8> = Vec::new();
        push_le32(&mut payload, baud);
        payload.push(stop_bits);
        payload.push(parity);
        payload.push(data_bits);
        assert(payload@ =~= line_coding_payload(baud, stop_bits, parity, data_bits));
        let request = ControlRequest {
            request_type: USB_CLASS_REQUEST_OUT,
            request: CDC_SET_LINE_CODING,
            value: 0,
            index: self.interface as u16,
        };
        proof {
            crate::descriptor::lemma_direction_constants();
        }
        let sub = {
            let data = ControlTransferData::Out(payload.as_slice());
            self.handle.control_transfer(request, &data, CDC_CONTROL_TIMEOUT_MS)?
        };
        Ok((sub, payload))
    }

    /// SET_CONTROL_LINE_STATE with DTR in bit 0 and RTS in bit 1.
    pub fn set_control_lines(&self, dtr: bool, rts: bool) -> (r: Result<ControlSubmission, Error>)
        ensures
            r == handle_control(
                &self.handle,
                self.class_request(CDC_SET_CONTROL_LINE_STATE, control_lines_value(dtr, rts)),
                None,
                0,
                CDC_CONTROL_TIMEOUT_MS,
            ),
    {
        let mut value: u16 = 0;
        if dtr {
            value = value + 1;
        }
        if rts {
            value = value + 2;
        }
        let request = ControlRequest {
            request_type: USB_CLASS_REQUEST_OUT,
            request: CDC_SET_CONTROL_LINE_STATE,
            value,
            index: self.interface as u16,
        };
        self.handle.control_transfer(request, &ControlTransferData::NoData, CDC_CONTROL_TIMEOUT_MS)
    }

    /// A bulk write of `data` to the OUT endpoint.
    pub fn write(&self, data: &[u8]) -> (r: Result<ChunkedTransfer, Error>)
        ensures
            r == data_outcome(
                &self.handle,
                self.out_ep,
                TransferDirection::Out,
                data@.len(),
                CDC_DATA_TIMEOUT_MS,
            ),
    {
        self.handle.bulk_transfer(self.out_ep, &TransferBuffer::Out(data), CDC_DATA_TIMEOUT_MS)
    }

    /// A bulk read into `buf` from the IN endpoint.
    pub fn read(&self, buf: &mut [u8]) -> (r: Result<ChunkedTransfer, Error>)
        ensures
            final(buf)@ == old(buf)@,
            r == data_outcome(
                &self.handle,
                self.in_ep,
                TransferDirection::In,
                old(buf)@.len(),
                CDC_DATA_TIMEOUT_MS,
            ),
    {
        let buffer = TransferBuffer::In(buf);
        self.handle.bulk_transfer(self.in_ep, &buffer, CDC_DATA_TIMEOUT_MS)
    }

    /// The control-line states that reset the chip into its ROM bootloader, in
    /// order; the host waits 50 ms after each of the first three.
    pub fn enter_bootloader_sequence(&self) -> (r: Result<Vec<ControlSubmission>, Error>)
        ensures
            !moves_data(self.handle.backend) ==> r == Err::<Vec<ControlSubmission>, Error>(
                Error::NotSupported,
            ),
            moves_data(self.handle.backend) ==> (r matches Ok(v) && v@.len() == 4 && control_outcome(
                self.class_request(CDC_SET_CONTROL_LINE_STATE, control_lines_value(false, true)),
                None,
                0,
                CDC_CONTROL_TIMEOUT_MS,
            ) == Ok::<ControlSubmission, Error>(v@[0]) && control_outcome(
                self.class_request(CDC_SET_CONTROL_LINE_STATE, control_lines_value(true, true)),
                None,
                0,
                CDC_CONTROL_TIMEOUT_MS,
            ) == Ok::<ControlSubmission, Error>(v@[1]) && control_outcome(
                self.class_request(CDC_SET_CONTROL_LINE_STATE, control_lines_value(true, false)),
                None,
                0,
                CDC_CONTROL_TIMEOUT_MS,
            ) == Ok::<ControlSubmission, Error>(v@[2]) && control_outcome(
                self.class_request(CDC_SET_CONTROL_LINE_STATE, control_lines_value(false, false)),
                None,
                0,
                CDC_CONTROL_TIMEOUT_MS,
            ) == Ok::<ControlSubmission, Error>(v@[3])),
    {
        let mut steps: Vec<ControlSubmission> = Vec::new();
        steps.push(self.set_control_lines(false, true)?);
        steps.push(self.set_control_lines(true, true)?);
        steps.push(self.set_control_lines(true, false)?);
        steps.push(self.set_control_lines(false, false)?);
        Ok(steps)
    }

    /// The SLIP frame of `payload` and the bulk write that sends it.
    pub fn send_slip_frame(&self, payload: &[u8]) -> (r: Result<(Vec<u8>, ChunkedTransfer), Error>)
        ensures
            match r {
                Ok((frame, plan)) => frame@ == slip_frame(payload@) && data_outcome(
                    &self.handle,
                    self.out_ep,
                    TransferDirection::Out,
                    frame@.len(),
                    CDC_DATA_TIMEOUT_MS,
                ) == Ok::<ChunkedTransfer, Error>(plan),
                Err(e) => data_outcome(
                    &self.handle,
                    self.out_ep,
                    TransferDirection::Out,
                    slip_frame(payload@).len(),
                    CDC_DATA_TIMEOUT_MS,
                ) == Err::<ChunkedTransfer, Error>(e),
            },
    {
        let frame = slip_encode(payload);
        let plan = self.write(frame.as_slice())?;
        Ok((frame, plan))
    }

    /// Hands the bytes of one read to the frame decoder; the payload once a
    /// frame is complete. The host reads `SLIP_READ_CHUNK` bytes at a time
    /// and goes on while this returns `None`.
    pub fn receive_slip_frame(&self, decoder: &mut SlipDecoder, received: &[u8]) -> (r: Result<
        Option<Vec<u8>>,
        Error,
    >)
        ensures
            match slip_run(old(decoder)@, received@) {
                SlipRun::Done(p) => (r matches Ok(Some(v)) && v@ == p),
                SlipRun::Fail => r == Err::<Option<Vec<u8>>, Error>(Error::Unknown),
                SlipRun::Pending(st) => r == Ok::<Option<Vec<u8>>, Error>(None) && final(decoder)@
                    == st,
            },
    {
        decoder.feed(received)
    }

    /// A flash block: address and length, little-endian, then the data,
    /// wrapped in a SLIP frame, with the bulk write that sends it. A block
    /// longer than a 32-bit length can say is refused.
    pub fn write_flash_block(&self, address: u32, data: &[u8]) -> (r: Result<
        (Vec<u8>, ChunkedTransfer),
        Error,
    >)
        ensures
            data@.len() > u32::MAX ==> r == Err::<(Vec<u8>, ChunkedTransfer), Error>(
                Error::InvalidArgument,
            ),
            r matches Ok((frame, plan)) ==> frame@ == slip_frame(flash_block_payload(address, data@))
                && data_outcome(
                &self.handle,
                self.out_ep,
                TransferDirection::Out,
                frame@.len(),
                CDC_DATA_TIMEOUT_MS,
            ) == Ok::<ChunkedTransfer, Error>(plan),
            data@.len() <= u32::MAX ==> (r is Err <==> data_outcome(
                &self.handle,
                self.out_ep,
                TransferDirection::Out,
                slip_frame(flash_block_payload(address, data@)).len(),
                CDC_DATA_TIMEOUT_MS,
            ) is Err),
    {
        if data.len() as u128 > u32::MAX as u128 {
            return Err(Error::InvalidArgument);
        }
        let mut payload: Vec<u8> = Vec::new();
        push_le32(&mut payload, address);
        push_le32(&mut payload, data.len() as u32);
        let mut i: usize = 0;
        while i < data.len()
            invariant
                i <= data@.len(),
                payload@ == le32(address) + le32(data@.len() as u32) + data@.take(i as int),
            decreases data@.len() - i,
        {
            payload.push(data[i]);
            assert(data@.take(i + 1) =~= data@.take(i as int).push(data@[i as int]));
            i = i + 1;
        }
        assert(data@.take(i as int) =~= data@);
        assert(payload@ =~= flash_block_payload(address, data@));
        self.send_slip_frame(payload.as_slice())
    }
}

} // verus!
