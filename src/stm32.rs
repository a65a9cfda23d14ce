use vstd::prelude::*;

use crate::descriptor::{ControlRequest, TransferDirection};
use crate::usbfs::SysfsAttributes;
use crate::device::{devices, enumeration, is_first_match, data_outcome, handle_control, matches_ids, moves_data, Backend, Device, DeviceHandle, DeviceList};
use crate::error::Error;
use crate::transfer::{
    control_outcome, ChunkedTransfer, ControlSubmission, ControlTransferData, TransferBuffer,
};

verus! {

/// Vendor id of STMicroelectronics.
pub const STM32_VID: u16 = 0x0483;
/// Product id of the STM32 DFU bootloader.
pub const DFU_PID: u16 = 0xDF11;
/// Request type of a class request, host to device, addressed to an interface.
pub const USB_TYPE_CLASS_INTERFACE_OUT: u8 = 0x21;
/// Request type of a class request, device to host, addressed to an interface.
pub const USB_TYPE_CLASS_INTERFACE_IN: u8 = 0xA1;
pub const DFU_DETACH: u8 = 0;
pub const DFU_DNLOAD: u8 = 1;
pub const DFU_UPLOAD: u8 = 2;
pub const DFU_GETSTATUS: u8 = 3;
/// Timeout of DETACH and GETSTATUS, in milliseconds.
pub const DFU_SHORT_TIMEOUT_MS: u128 = 100;
/// Timeout of DNLOAD and UPLOAD, in milliseconds.
pub const DFU_BLOCK_TIMEOUT_MS: u128 = 1000;
/// How long a mass erase may keep the device busy, in milliseconds.
pub const MASS_ERASE_TIMEOUT_MS: u64 = 5000;
/// Detach timeout that `leave_dfu` announces, in milliseconds.
pub const LEAVE_DFU_DETACH_MS: u16 = 1000;
/// How long the host waits after `leave_dfu`, in milliseconds.
pub const LEAVE_DFU_WAIT_MS: u64 = 1200;
/// Timeout of the virtual COM port's reads and writes, in milliseconds.
pub const VCOM_TIMEOUT_MS: u128 = 200;

/// The poll timeout of a GETSTATUS reply: bytes 1-3, little-endian milliseconds.
pub open spec fn poll_timeout_of(status: Seq<u8>) -> u32 {
    (status[1] as int + 256 * status[2] as int + 65536 * status[3] as int) as u32
}

/// What the host does after a GETSTATUS reply while it waits for the device.
#[derive(Debug, Clone, Copy, PartialEq, Eq, Structural)]
pub enum DfuPoll {
    /// The status byte is zero: the device is done.
    Ready,
    /// Still busy: sleep this many milliseconds, then ask again.
    Sleep(u32),
    /// Still busy after the allowed time.
    TimedOut,
}

/// The decision on a GETSTATUS reply, `elapsed_ms` after the wait began.
pub open spec fn dfu_poll_spec(status: Seq<u8>, elapsed_ms: u64, timeout_ms: u64) -> DfuPoll {
    if status[0] == 0 {
        DfuPoll::Ready
    } else if elapsed_ms > timeout_ms {
        DfuPoll::TimedOut
    } else {
        DfuPoll::Sleep(poll_timeout_of(status))
    }
}

/// An STM32 DFU bootloader.
pub struct Stm32DfuDevice {
    pub handle: DeviceHandle,
    pub interface: u8,
}

impl Stm32DfuDevice {
    pub open spec fn class_request(&self, request_type: u8, request: u8, value: u16) -> ControlRequest {
        ControlRequest { request_type, request, value, index: self.interface as u16 }
    }

    /// Enumerates the sysfs nodes and opens the first matching device there
    /// (see `open_from_list`); an enumeration error comes back as it is.
    pub fn open_first(nodes: Vec<SysfsAttributes>) -> (r: Result<Self, Error>)
        ensures
            enumeration(nodes@) matches Err(e) ==> r == Err::<Self, Error>(e),
            enumeration(nodes@) matches Ok(found) ==> ((exists|i: int|
                0 <= i < found.len() && matches_ids(&found[i], STM32_VID, seq![DFU_PID])) <==> r is Ok),
            enumeration(nodes@) matches Ok(found) ==> ((forall|j: int|
                0 <= j < found.len() ==> !matches_ids(&found[j], STM32_VID, seq![DFU_PID]))
                ==> r == Err::<Self, Error>(Error::NotSupported)),
            r matches Ok(b) ==> (enumeration(nodes@) matches Ok(found) && exists|i: int|
                is_first_match(found, i, STM32_VID, seq![DFU_PID]) && b.handle.bus_number
                    == found[i].bus_number && b.handle.address == found[i].address),
            r matches Ok(b) ==> b.interface == 0,
    {
        let list = devices(nodes)?;
        Self::open_from_list(&list)
    }

    /// Opens the first device of the list that carries the ids, with the
    /// default endpoints and interface; `NotSupported` when none does.
    pub fn open_from_list(list: &DeviceList) -> (r: Result<Self, Error>)
        ensures
            r matches Ok(b) ==> exists|i: int|
                is_first_match(list.devices@, i, STM32_VID, seq![DFU_PID]) && b.handle.bus_number
                    == list.devices@[i].bus_number && b.handle.address == list.devices@[i].address,
            (exists|i: int|
                0 <= i < list.devices@.len() && matches_ids(&list.devices@[i], STM32_VID, seq![DFU_PID]))
                ==> r is Ok,
            (forall|j: int|
                0 <= j < list.devices@.len() ==> !matches_ids(&list.devices@[j], STM32_VID, seq![DFU_PID]))
                ==> r == Err::<Self, Error>(Error::NotSupported),
            r matches Ok(b) ==> b.interface == 0,
    {
        let pids: [u16; 1] = [DFU_PID];
        assert(pids@ =~= seq![DFU_PID]);
        match list.find_first(STM32_VID, pids.as_slice()) {
            Some(i) => {
                assert(is_first_match(list.devices@, i as int, STM32_VID, seq![DFU_PID]));
                Self::open_device(&list.devices[i], 0)
            },
            None => Err(Error::NotSupported),
        }
    }

    /// Opens a known DFU device on the given interface.
    pub fn open_device(device: &Device, interface: u8) -> (r: Result<Self, Error>)
        ensures
            device.backend == Backend::Unsupported ==> r == Err::<Self, Error>(Error::NotSupported),
            device.backend != Backend::Unsupported ==> (r matches Ok(d) && d.interface == interface
                && d.handle.wf() && d.handle.backend == device.backend && d.handle.bus_number
                == device.bus_number && d.handle.address == device.address),
    {
        let handle = device.open()?;
        Ok(Stm32DfuDevice { handle, interface })
    }

    /// DFU_DETACH, so that the device can reset into its firmware.
    pub fn detach(&self, timeout_ms: u16) -> (r: Result<ControlSubmission, Error>)
        ensures
            r == handle_control(
                &self.handle,
                self.class_request(USB_TYPE_CLASS_INTERFACE_OUT, DFU_DETACH, timeout_ms),
                None,
                0,
                DFU_SHORT_TIMEOUT_MS,
            ),
    {
        let request = ControlRequest {
            request_type: USB_TYPE_CLASS_INTERFACE_OUT,
            request: DFU_DETACH,
            value: timeout_ms,
            index: self.interface as u16,
        };
        self.handle.control_transfer(request, &ControlTransferData::NoData, DFU_SHORT_TIMEOUT_MS)
    }

    /// DFU_DNLOAD of `payload` as block `block_num`.
    pub fn download_block(&self, block_num: u16, payload: &[u8]) -> (r: Result<ControlSubmission, Error>)
        ensures
            r == handle_control(
                &self.handle,
                self.class_request(USB_TYPE_CLASS_INTERFACE_OUT, DFU_DNLOAD, block_num),
                Some(TransferDirection::Out),
                payload@.len(),
                DFU_BLOCK_TIMEOUT_MS,
            ),
    {
        let request = ControlRequest {
            request_type: USB_TYPE_CLASS_INTERFACE_OUT,
            request: DFU_DNLOAD,
            value: block_num,
            index: self.interface as u16,
        };
        self.handle.control_transfer(request, &ControlTransferData::Out(payload), DFU_BLOCK_TIMEOUT_MS)
    }

    /// DFU_UPLOAD of block `block_num` into `buf`.
    pub fn upload_block(&self, block_num: u16, buf: &mut [u8]) -> (r: Result<ControlSubmission, Error>)
        ensures
            final(buf)@ == old(buf)@,
            r == handle_control(
                &self.handle,
                self.class_request(USB_TYPE_CLASS_INTERFACE_IN, DFU_UPLOAD, block_num),
                Some(TransferDirection::In),
                old(buf)@.len(),
                DFU_BLOCK_TIMEOUT_MS,
            ),
    {
        let request = ControlRequest {
            request_type: USB_TYPE_CLASS_INTERFACE_IN,
            request: DFU_UPLOAD,
            value: block_num,
            index: self.interface as u16,
        };
        let data = ControlTransferData::In(buf);
        self.handle.control_transfer(request, &data, DFU_BLOCK_TIMEOUT_MS)
    }

    /// DFU_GETSTATUS into the six-byte status block.
    pub fn get_status(&self, buf: &mut [u8; 6]) -> (r: Result<ControlSubmission, Error>)
        ensures
            final(buf)@ == old(buf)@,
            r == handle_control(
                &self.handle,
                self.class_request(USB_TYPE_CLASS_INTERFACE_IN, DFU_GETSTATUS, 0),
                Some(TransferDirection::In),
                6,
                DFU_SHORT_TIMEOUT_MS,
            ),
    {
        let request = ControlRequest {
            request_type: USB_TYPE_CLASS_INTERFACE_IN,
            request: DFU_GETSTATUS,
            value: 0,
            index: self.interface as u16,
        };
        let slice: &mut [u8] = buf;
        let data = ControlTransferData::In(slice);
        self.handle.control_transfer(request, &data, DFU_SHORT_TIMEOUT_MS)
    }

    /// One step of waiting for the device: given a GETSTATUS reply that came
    /// `elapsed_ms` after the wait began, ready when its status byte is zero,
    /// timed out past `timeout_ms`, else sleep for its poll timeout.
    pub fn wait_while_busy(status: &[u8; 6], elapsed_ms: u64, timeout_ms: u64) -> (r: DfuPoll)
        ensures
            r == dfu_poll_spec(status@, elapsed_ms, timeout_ms),
    {
        if status[0] == 0 {
            DfuPoll::Ready
        } else if elapsed_ms > timeout_ms {
            DfuPoll::TimedOut
        } else {
            DfuPoll::Sleep(status[1] as u32 + 256 * status[2] as u32 + 65536 * status[3] as u32)
        }
    }

    /// What a finished wait reports: success once ready, `Timeout` when the
    /// device stayed busy too long.
    pub fn wait_result(poll: DfuPoll) -> (r: Option<Result<(), Error>>)
        ensures
            poll == DfuPoll::Ready ==> r == Some(Ok::<(), Error>(())),
            poll == DfuPoll::TimedOut ==> r == Some(Err::<(), Error>(Error::Timeout)),
            poll is Sleep ==> r is None,
    {
        match poll {
            DfuPoll::Ready => Some(Ok(())),
            DfuPoll::TimedOut => Some(Err(Error::Timeout)),
            DfuPoll::Sleep(_) => None,
        }
    }

    /// The mass-erase command: DNLOAD of `0x41 0x00` as block 0, with its
    /// payload. The host then waits with `wait_while_busy` for up to
    /// `MASS_ERASE_TIMEOUT_MS`.
    pub fn mass_erase(&self) -> (r: Result<(ControlSubmission, Vec<u8>), Error>)
        ensures
            !moves_data(self.handle.backend) ==> r is Err,
            moves_data(self.handle.backend) ==> (r matches Ok((sub, payload)) && payload@ == seq![
                0x41u8,
                0x00u8,
            ] && control_outcome(
                self.class_request(USB_TYPE_CLASS_INTERFACE_OUT, DFU_DNLOAD, 0),
                Some(TransferDirection::Out),
                2,
                DFU_BLOCK_TIMEOUT_MS,
            ) == Ok::<ControlSubmission, Error>(sub)),
    {
        proof {
            crate::descriptor::lemma_direction_constants();
        }
        let payload: Vec<u8> = vec![0x41, 0x00];
        let sub = self.download_block(0, payload.as_slice())?;
        Ok((sub, payload))
    }

    /// DETACH with a one-second timeout; the host then waits `LEAVE_DFU_WAIT_MS`.
    pub fn leave_dfu(&self) -> (r: Result<ControlSubmission, Error>)
        ensures
            r == handle_control(
                &self.handle,
                self.class_request(USB_TYPE_CLASS_INTERFACE_OUT, DFU_DETACH, LEAVE_DFU_DETACH_MS),
                None,
                0,
                DFU_SHORT_TIMEOUT_MS,
            ),
    {
        self.detach(LEAVE_DFU_DETACH_MS)
    }
}

/// The CDC-ACM virtual COM port of an ST-LINK.
pub struct Stm32VirtualCom {
    pub handle: DeviceHandle,
    pub in_ep: u8,
    pub out_ep: u8,
}

impl Stm32VirtualCom {
    pub fn new(handle: DeviceHandle, in_ep: u8, out_ep: u8) -> (r: Self)
        ensures
            r.handle == handle,
            r.in_ep == in_ep,
            r.out_ep == out_ep,
    {
        Stm32VirtualCom { handle, in_ep, out_ep }
    }

    /// A bulk write of `data` to the OUT endpoint.
    pub fn write(&self, data: &[u8]) -> (r: Result<ChunkedTransfer, Error>)
        ensures
            r == data_outcome(
                &self.handle,
                self.out_ep,
                TransferDirection::Out,
                data@.len(),
                VCOM_TIMEOUT_MS,
            ),
    {
        self.handle.bulk_transfer(self.out_ep, &TransferBuffer::Out(data), VCOM_TIMEOUT_MS)
    }

    /// A bulk read into `buf` from the IN endpoint.
    pub fn read(&self, buf: &mut [u8]) -> (r: Result<ChunkedTransfer, Error>)
        ensures
            final(buf)@ == old(buf)@,
            r == data_outcome(
                &self.handle,
                self.in_ep,
                TransferDirection::In,
                old(buf)@.len(),
                VCOM_TIMEOUT_MS,
            ),
    {
        let buffer = TransferBuffer::In(buf);
        self.handle.bulk_transfer(self.in_ep, &buffer, VCOM_TIMEOUT_MS)
    }
}

} // verus!
