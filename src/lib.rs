//! Direct, synchronous access to USB devices without a C USB library.
//!
//! The crate is the platform-independent core of the host stack: descriptor
//! parsing, the checks made before a transfer reaches the host, the plan of
//! the chunked bulk path, the translation of native status codes, and the
//! device-class helpers (CDC-ACM, FTDI, DFU, transfer logging). The host
//! calls themselves are made by the caller with the values this crate hands
//! out, and their results come back through it.

pub mod descriptor;
pub mod device;
pub mod error;
pub mod transfer;

mod text;

pub mod iokit;
pub mod unsupported;
pub mod usbfs;
pub mod webusb;
pub mod winusb;

pub mod esp32;
pub mod ftdi;
pub mod logger;
pub mod slip;
pub mod stm32;

pub use descriptor::{
    parse_string_descriptor_ascii, ConfigurationDescriptor, ControlRequest, DeviceDescriptor,
    Speed, TransferDirection,
};
pub use device::{devices, Backend, DescriptorSource, Device, DeviceHandle, DeviceList};
pub use error::Error;
pub use esp32::Esp32SerialBridge;
pub use ftdi::{BitMode, FlowControl, FtdiDevice};
pub use logger::{ChannelLogger, LogLabel};
pub use stm32::{DfuPoll, Stm32DfuDevice, Stm32VirtualCom};
pub use transfer::{
    Chunk, ChunkedTransfer, ControlSubmission, ControlTransferData, SetupPacket, TransferBuffer,
};
pub use unsupported::{NotSupportedDevice, NotSupportedDeviceHandle};
pub use usbfs::SysfsAttributes;
