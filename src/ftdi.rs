use vstd::prelude::*;

use crate::descriptor::{ControlRequest, TransferDirection};
use crate::usbfs::SysfsAttributes;
use crate::device::{devices, enumeration, is_first_match, data_outcome, matches_ids, moves_data, Backend, Device, DeviceHandle, DeviceList};
use crate::error::Error;
use crate::transfer::{ChunkedTransfer, ControlSubmission, ControlTransferData, SetupPacket, TransferBuffer};

verus! {

/// Vendor id of FTDI.
pub const FTDI_VID: u16 = 0x0403;
/// Reference clock of the baud-rate generator times eight: divisors count eighths.
pub const FTDI_DIVISOR_CLOCK: u32 = 24_000_000;
/// Largest divisor the chip takes.
pub const FTDI_MAX_DIVISOR: u32 = 0x1FFFF;
pub const FTDI_SIO_RESET_REQUEST: u8 = 0;
pub const FTDI_SIO_SET_FLOW_CTRL_REQUEST: u8 = 2;
pub const FTDI_SIO_SET_BAUDRATE_REQUEST: u8 = 3;
pub const FTDI_SIO_SET_DATA_REQUEST: u8 = 4;
pub const FTDI_SIO_SET_LATENCY_TIMER_REQUEST: u8 = 9;
pub const FTDI_SIO_SET_BITMODE_REQUEST: u8 = 0x0B;
pub const FTDI_SIO_RESET_PURGE_RX: u16 = 1;
pub const FTDI_SIO_RESET_PURGE_TX: u16 = 2;
/// Request type of a vendor request, host to device, addressed to the device.
pub const USB_WRITE_REQUEST: u8 = 0x40;
/// Timeout of the vendor requests, in milliseconds.
pub const FTDI_CONTROL_TIMEOUT_MS: u32 = 100;
/// Timeout of the serial reads and writes, in milliseconds.
pub const FTDI_DATA_TIMEOUT_MS: u128 = 500;

/// Whether a product id is one of the adapters that `open_from_list` looks for.
pub open spec fn is_default_pid(pid: u16) -> bool {
    pid == 0x6001 || pid == 0x6010 || pid == 0x6011 || pid == 0x6014
}

/// Bit-bang operating modes.
#[derive(Debug, Clone, Copy, PartialEq, Eq, Structural)]
pub enum BitMode {
    Reset,
    BitBang,
    Mpsse,
    SyncBitBang,
    MCUHost,
    FastOpto,
    CBusBitBang,
    SyncFifo,
}

pub open spec fn bit_mode_code(mode: BitMode) -> u8 {
    match mode {
        BitMode::Reset => 0x00,
        BitMode::BitBang => 0x01,
        BitMode::Mpsse => 0x02,
        BitMode::SyncBitBang => 0x04,
        BitMode::MCUHost => 0x08,
        BitMode::FastOpto => 0x10,
        BitMode::CBusBitBang => 0x20,
        BitMode::SyncFifo => 0x40,
    }
}

impl BitMode {
    /// The mode byte of SET_BITMODE.
    pub fn code(&self) -> (r: u8)
        ensures
            r == bit_mode_code(*self),
    {
        match self {
            BitMode::Reset => 0x00,
            BitMode::BitBang => 0x01,
            BitMode::Mpsse => 0x02,
            BitMode::SyncBitBang => 0x04,
            BitMode::MCUHost => 0x08,
            BitMode::FastOpto => 0x10,
            BitMode::CBusBitBang => 0x20,
            BitMode::SyncFifo => 0x40,
        }
    }
}

/// Hardware and software flow control.
#[derive(Debug, Clone, Copy, PartialEq, Eq, Structural)]
pub enum FlowControl {
    Disabled,
    RtsCts,
    DtrDsr,
    XonXoff,
}

/// The (mask, mode) pair of a flow-control setting.
pub open spec fn flow_control_pair(mode: FlowControl) -> (u16, u16) {
    match mode {
        FlowControl::Disabled => (0, 0),
        FlowControl::RtsCts => (0, 0x0100),
        FlowControl::DtrDsr => (0, 0x0200),
        FlowControl::XonXoff => (0x1311, 0),
    }
}

/// The divisor for a baud rate: 24 MHz over the rate, within [1, 0x1FFFF].
pub open spec fn ftdi_divisor(baud: u32) -> u32 {
    let d = FTDI_DIVISOR_CLOCK / baud;
    if d < 1 {
        1
    } else if d > FTDI_MAX_DIVISOR {
        FTDI_MAX_DIVISOR
    } else {
        d
    }
}

/// Computes the baud-rate divisor; `None` for a rate of zero.
pub fn compute_ftdi_divisor(baud: u32) -> (r: Option<u32>)
    ensures
        baud == 0 ==> r is None,
        baud > 0 ==> r == Some(ftdi_divisor(baud)),
{
    if baud == 0 {
        return None;
    }
    let base_clock: u32 = 3_000_000;
    let divisor = (base_clock * 8) / baud;
    let divisor = if divisor < 1 {
        1
    } else {
        divisor
    };
    let divisor = if divisor > FTDI_MAX_DIVISOR {
        FTDI_MAX_DIVISOR
    } else {
        divisor
    };
    Some(divisor)
}

/// For every rate above zero the divisor lies in [1, 0x1FFFF]. Where the
/// exact quotient 24 MHz / rate is at least 33 and at most 0x1FFFF, the rate
/// that the divisor gives, 24 MHz / D, is at or above the asked rate B and
/// off by less than 3.1%: 24 MHz / D - B < 0.031 * B.
pub proof fn lemma_ftdi_divisor_accuracy(baud: u32)
    requires
        baud > 0,
    ensures
        1 <= ftdi_divisor(baud) <= FTDI_MAX_DIVISOR,
        33 <= FTDI_DIVISOR_CLOCK / baud <= FTDI_MAX_DIVISOR ==> ftdi_divisor(baud) as int
            * baud as int <= FTDI_DIVISOR_CLOCK as int && 1000 * (FTDI_DIVISOR_CLOCK as int) < 1031
            * (ftdi_divisor(baud) as int) * (baud as int),
{
    let q = FTDI_DIVISOR_CLOCK / baud;
    if 33 <= q && q <= FTDI_MAX_DIVISOR {
        let c = FTDI_DIVISOR_CLOCK as int;
        let b = baud as int;
        let qi = q as int;
        assert(qi * b <= c && c < (qi + 1) * b) by (nonlinear_arith)
            requires
                qi == c / b,
                b > 0,
        ;
        assert(1000 * c < 1031 * qi * b) by (nonlinear_arith)
            requires
                c < (qi + 1) * b,
                qi >= 33,
                b > 0,
        ;
    }
}

/// The submission of a vendor request without data stage on a working handle.
pub open spec fn vendor_submission(request: u8, value: u16, index: u16) -> ControlSubmission {
    ControlSubmission {
        setup: SetupPacket { request_type: USB_WRITE_REQUEST, request, value, index, length: 0 },
        timeout_ms: FTDI_CONTROL_TIMEOUT_MS,
    }
}

/// An FTDI USB-to-serial adapter: the handle, its endpoints and interface.
pub struct FtdiDevice {
    pub handle: DeviceHandle,
    pub in_ep: u8,
    pub out_ep: u8,
    pub interface: u8,
}

impl FtdiDevice {
    /// The outcome of a vendor request on this adapter.
    pub open spec fn command(&self, request: u8, value: u16, index: u16) -> Result<ControlSubmission, Error> {
        if moves_data(self.handle.backend) {
            Ok(vendor_submission(request, value, index))
        } else {
            Err(Error::NotSupported)
        }
    }

    fn vendor_command(&self, request: u8, value: u16, index: u16) -> (r: Result<ControlSubmission, Error>)
        ensures
            r == self.command(request, value, index),
    {
        let req = ControlRequest { request_type: USB_WRITE_REQUEST, request, value, index };
        self.handle.control_transfer(req, &ControlTransferData::NoData, FTDI_CONTROL_TIMEOUT_MS as u128)
    }

    /// Enumerates the sysfs nodes and opens the first matching device there
    /// (see `open_from_list`); an enumeration error comes back as it is.
    pub fn open_first(nodes: Vec<SysfsAttributes>) -> (r: Result<(Self, ControlSubmission), Error>)
        ensures
            enumeration(nodes@) matches Err(e) ==> r == Err::<(Self, ControlSubmission), Error>(e),
            enumeration(nodes@) matches Ok(found) ==> ((exists|i: int|
                0 <= i < found.len() && matches_ids(&found[i], FTDI_VID, seq![0x6001u16, 0x6010u16, 0x6011u16, 0x6014u16])) <==> r is Ok),
            enumeration(nodes@) matches Ok(found) ==> ((forall|j: int|
                0 <= j < found.len() ==> !matches_ids(&found[j], FTDI_VID, seq![0x6001u16, 0x6010u16, 0x6011u16, 0x6014u16]))
                ==> r == Err::<(Self, ControlSubmission), Error>(Error::NotSupported)),
            r matches Ok((b, _)) ==> (enumeration(nodes@) matches Ok(found) && exists|i: int|
                is_first_match(found, i, FTDI_VID, seq![0x6001u16, 0x6010u16, 0x6011u16, 0x6014u16]) && b.handle.bus_number
                    == found[i].bus_number && b.handle.address == found[i].address),
            r matches Ok((b, first)) ==> b.in_ep == 0x81 && b.out_ep == 0x02 && b.interface == 0
                && first == vendor_submission(FTDI_SIO_RESET_REQUEST, 0, 0),
    {
        let list = devices(nodes)?;
        Self::open_from_list(&list)
    }

    /// Opens the first device of the list that carries the ids, with the
    /// default endpoints and interface; `NotSupported` when none does.
    pub fn open_from_list(list: &DeviceList) -> (r: Result<(Self, ControlSubmission), Error>)
        ensures
            r matches Ok((b, _)) ==> exists|i: int|
                is_first_match(list.devices@, i, FTDI_VID, seq![0x6001u16, 0x6010u16, 0x6011u16, 0x6014u16]) && b.handle.bus_number
                    == list.devices@[i].bus_number && b.handle.address == list.devices@[i].address,
            (exists|i: int|
                0 <= i < list.devices@.len() && matches_ids(&list.devices@[i], FTDI_VID, seq![0x6001u16, 0x6010u16, 0x6011u16, 0x6014u16]))
                ==> r is Ok,
            (forall|j: int|
                0 <= j < list.devices@.len() ==> !matches_ids(&list.devices@[j], FTDI_VID, seq![0x6001u16, 0x6010u16, 0x6011u16, 0x6014u16]))
                ==> r == Err::<(Self, ControlSubmission), Error>(Error::NotSupported),
            r matches Ok((b, first)) ==> b.in_ep == 0x81 && b.out_ep == 0x02 && b.interface == 0
                && first == vendor_submission(FTDI_SIO_RESET_REQUEST, 0, 0),
    {
        let pids: [u16; 4] = [0x6001, 0x6010, 0x6011, 0x6014];
        assert(pids@ =~= seq![0x6001u16, 0x6010u16, 0x6011u16, 0x6014u16]);
        match list.find_first(FTDI_VID, pids.as_slice()) {
            Some(i) => {
                assert(is_first_match(list.devices@, i as int, FTDI_VID, seq![0x6001u16, 0x6010u16, 0x6011u16, 0x6014u16]));
                Self::open_device(&list.devices[i], 0x81, 0x02, 0)
            },
            None => Err(Error::NotSupported),
        }
    }

    /// Opens a known adapter with the given endpoints and interface, and gives
    /// the reset request that the host sends before anything else.
    pub fn open_device(device: &Device, in_ep: u8, out_ep: u8, interface: u8) -> (r: Result<
        (Self, ControlSubmission),
        Error,
    >)
        ensures
            device.backend == Backend::Unsupported ==> r == Err::<(Self, ControlSubmission), Error>(
                Error::NotSupported,
            ),
            device.backend != Backend::Unsupported ==> (r matches Ok((f, first)) && f.in_ep == in_ep
                && f.out_ep == out_ep && f.interface == interface && f.handle.wf()
                && f.handle.backend == device.backend && f.handle.bus_number == device.bus_number
                && f.handle.address == device.address && first == vendor_submission(
                FTDI_SIO_RESET_REQUEST,
                0,
                interface as u16,
            )),
    {
        let handle = device.open()?;
        let ftdi = FtdiDevice { handle, in_ep, out_ep, interface };
        let first = ftdi.reset()?;
        Ok((ftdi, first))
    }

    /// The reset request.
    pub fn reset(&self) -> (r: Result<ControlSubmission, Error>)
        ensures
            r == self.command(FTDI_SIO_RESET_REQUEST, 0, self.interface as u16),
    {
        self.vendor_command(FTDI_SIO_RESET_REQUEST, 0, self.interface as u16)
    }

    /// The baud-rate request: the divisor's low 16 bits in the value, its bit
    /// 16 in the low byte of the index, the interface in the high byte.
    /// `NotSupported` for a rate of zero.
    pub fn set_baud_rate(&self, baud: u32) -> (r: Result<ControlSubmission, Error>)
        ensures
            baud == 0 ==> r == Err::<ControlSubmission, Error>(Error::NotSupported),
            baud > 0 ==> r == self.command(
                FTDI_SIO_SET_BAUDRATE_REQUEST,
                (ftdi_divisor(baud) % 65536) as u16,
                (ftdi_divisor(baud) / 65536 + self.interface * 256) as u16,
            ),
    {
        let divisor = match compute_ftdi_divisor(baud) {
            Some(d) => d,
            None => return Err(Error::NotSupported),
        };
        let value = (divisor % 65536) as u16;
        let index = (divisor / 65536) as u16 + (self.interface as u16) * 256;
        self.vendor_command(FTDI_SIO_SET_BAUDRATE_REQUEST, value, index)
    }

    /// The line-format request (word length, parity, stop bits).
    pub fn configure_line(&self, value: u16) -> (r: Result<ControlSubmission, Error>)
        ensures
            r == self.command(FTDI_SIO_SET_DATA_REQUEST, value, self.interface as u16),
    {
        self.vendor_command(FTDI_SIO_SET_DATA_REQUEST, value, self.interface as u16)
    }

    /// The flow-control request: the mask in the value, the mode ORed with the
    /// interface in the high byte in the index.
    pub fn set_flow_control(&self, mode: FlowControl) -> (r: Result<ControlSubmission, Error>)
        ensures
            r == self.command(
                FTDI_SIO_SET_FLOW_CTRL_REQUEST,
                flow_control_pair(mode).0,
                ((flow_control_pair(mode).1 as u32) | ((self.interface as u32) << 8u32)) as u16,
            ),
    {
        let (mask, value): (u16, u16) = match mode {
            FlowControl::Disabled => (0, 0),
            FlowControl::RtsCts => (0, 0x0100),
            FlowControl::DtrDsr => (0, 0x0200),
            FlowControl::XonXoff => (0x1311, 0),
        };
        let index = ((value as u32) | ((self.interface as u32) << 8u32)) as u16;
        self.vendor_command(FTDI_SIO_SET_FLOW_CTRL_REQUEST, mask, index)
    }

    /// The latency-timer request, with the timer raised to at least 1 ms.
    pub fn set_latency_timer(&self, timer_ms: u8) -> (r: Result<ControlSubmission, Error>)
        ensures
            r == self.command(
                FTDI_SIO_SET_LATENCY_TIMER_REQUEST,
                if timer_ms < 1 { 1 } else { timer_ms as u16 },
                self.interface as u16,
            ),
    {
        let value = if timer_ms < 1 {
            1
        } else {
            timer_ms
        };
        self.vendor_command(FTDI_SIO_SET_LATENCY_TIMER_REQUEST, value as u16, self.interface as u16)
    }

    /// The bit-mode request: the mode byte high, the pin mask low.
    pub fn set_bit_mode(&self, mask: u8, mode: BitMode) -> (r: Result<ControlSubmission, Error>)
        ensures
            r == self.command(
                FTDI_SIO_SET_BITMODE_REQUEST,
                (bit_mode_code(mode) * 256 + mask) as u16,
                self.interface as u16,
            ),
    {
        let value = (mode.code() as u16) * 256 + mask as u16;
        self.vendor_command(FTDI_SIO_SET_BITMODE_REQUEST, value, self.interface as u16)
    }

    /// The request that clears the receive FIFO.
    pub fn purge_rx(&self) -> (r: Result<ControlSubmission, Error>)
        ensures
            r == self.command(FTDI_SIO_RESET_REQUEST, FTDI_SIO_RESET_PURGE_RX, self.interface as u16),
    {
        self.reset_pipe(FTDI_SIO_RESET_PURGE_RX)
    }

    /// The request that clears the transmit FIFO.
    pub fn purge_tx(&self) -> (r: Result<ControlSubmission, Error>)
        ensures
            r == self.command(FTDI_SIO_RESET_REQUEST, FTDI_SIO_RESET_PURGE_TX, self.interface as u16),
    {
        self.reset_pipe(FTDI_SIO_RESET_PURGE_TX)
    }

    fn reset_pipe(&self, pipe: u16) -> (r: Result<ControlSubmission, Error>)
        ensures
            r == self.command(FTDI_SIO_RESET_REQUEST, pipe, self.interface as u16),
    {
        self.vendor_command(FTDI_SIO_RESET_REQUEST, pipe, self.interface as u16)
    }

    /// A bulk write of `data` to the OUT endpoint.
    pub fn write(&self, data: &[u8]) -> (r: Result<ChunkedTransfer, Error>)
        ensures
            r == data_outcome(
                &self.handle,
                self.out_ep,
                TransferDirection::Out,
                data@.len(),
                FTDI_DATA_TIMEOUT_MS,
            ),
    {
        self.handle.bulk_transfer(self.out_ep, &TransferBuffer::Out(data), FTDI_DATA_TIMEOUT_MS)
    }

    /// A bulk read into `data` from the IN endpoint.
    pub fn read(&self, data: &mut [u8]) -> (r: Result<ChunkedTransfer, Error>)
        ensures
            final(data)@ == old(data)@,
            r == data_outcome(
                &self.handle,
                self.in_ep,
                TransferDirection::In,
                old(data)@.len(),
                FTDI_DATA_TIMEOUT_MS,
            ),
    {
        let buffer = TransferBuffer::In(data);
        self.handle.bulk_transfer(self.in_ep, &buffer, FTDI_DATA_TIMEOUT_MS)
    }
}

} // verus!
