use vstd::prelude::*;

use crate::descriptor::{ConfigurationDescriptor, ControlRequest, DeviceDescriptor, Speed};
use crate::device::{Device, DeviceHandle, DeviceList};
use crate::error::Error;
use crate::transfer::{ControlTransferData, TransferBuffer};

verus! {

/// The device of a host without USB access.
pub struct NotSupportedDevice;

impl NotSupportedDevice {
    pub fn bus_number(&self) -> (r: u8)
        ensures
            r == 0,
    {
        0
    }

    pub fn address(&self) -> (r: u8)
        ensures
            r == 0,
    {
        0
    }

    pub fn speed(&self) -> (r: Speed)
        ensures
            r == Speed::Unknown,
    {
        Speed::Unknown
    }
}

/// The device handle of a host without USB access.
pub struct NotSupportedDeviceHandle;

/// Enumeration on a host without USB access.
pub fn devices() -> (r: Result<DeviceList, Error>)
    ensures
        r matches Err(e) && e == Error::NotSupported,
{
    Err(Error::NotSupported)
}

pub fn open(device: &Device) -> (r: Result<DeviceHandle, Error>)
    ensures
        r matches Err(e) && e == Error::NotSupported,
{
    Err(Error::NotSupported)
}

pub fn get_device_descriptor(device: &Device) -> (r: Result<DeviceDescriptor, Error>)
    ensures
        r == Err::<DeviceDescriptor, Error>(Error::NotSupported),
{
    Err(Error::NotSupported)
}

pub fn control_transfer(
    handle: &DeviceHandle,
    request: ControlRequest,
    data: &ControlTransferData,
    timeout_ms: u128,
) -> (r: Result<usize, Error>)
    ensures
        r == Err::<usize, Error>(Error::NotSupported),
{
    Err(Error::NotSupported)
}

pub fn get_active_configuration(device: &Device) -> (r: Result<ConfigurationDescriptor, Error>)
    ensures
        r == Err::<ConfigurationDescriptor, Error>(Error::NotSupported),
{
    Err(Error::NotSupported)
}

pub fn get_configuration_descriptor(device: &Device, index: u8) -> (r: Result<
    ConfigurationDescriptor,
    Error,
>)
    ensures
        r == Err::<ConfigurationDescriptor, Error>(Error::NotSupported),
{
    Err(Error::NotSupported)
}

pub fn get_config_descriptor_by_value(device: &Device, value: u8) -> (r: Result<
    ConfigurationDescriptor,
    Error,
>)
    ensures
        r == Err::<ConfigurationDescriptor, Error>(Error::NotSupported),
{
    Err(Error::NotSupported)
}

pub fn claim_interface(handle: &DeviceHandle, interface: u8) -> (r: Result<(), Error>)
    ensures
        r == Err::<(), Error>(Error::NotSupported),
{
    Err(Error::NotSupported)
}

pub fn release_interface(handle: &DeviceHandle, interface: u8) -> (r: Result<(), Error>)
    ensures
        r == Err::<(), Error>(Error::NotSupported),
{
    Err(Error::NotSupported)
}

pub fn set_interface_alt_setting(handle: &DeviceHandle, interface: u8, alt_setting: u8) -> (r:
    Result<(), Error>)
    ensures
        r == Err::<(), Error>(Error::NotSupported),
{
    Err(Error::NotSupported)
}

pub fn reset_device(handle: &DeviceHandle) -> (r: Result<(), Error>)
    ensures
        r == Err::<(), Error>(Error::NotSupported),
{
    Err(Error::NotSupported)
}

pub fn clear_halt(handle: &DeviceHandle, endpoint: u8) -> (r: Result<(), Error>)
    ensures
        r == Err::<(), Error>(Error::NotSupported),
{
    Err(Error::NotSupported)
}

pub fn detach_kernel_driver(handle: &DeviceHandle, interface: u8) -> (r: Result<(), Error>)
    ensures
        r == Err::<(), Error>(Error::NotSupported),
{
    Err(Error::NotSupported)
}

pub fn attach_kernel_driver(handle: &DeviceHandle, interface: u8) -> (r: Result<(), Error>)
    ensures
        r == Err::<(), Error>(Error::NotSupported),
{
    Err(Error::NotSupported)
}

pub fn bulk_transfer(handle: &DeviceHandle, endpoint: u8, buffer: &TransferBuffer, timeout_ms: u128) -> (r:
    Result<usize, Error>)
    ensures
        r == Err::<usize, Error>(Error::NotSupported),
{
    Err(Error::NotSupported)
}

pub fn interrupt_transfer(
    handle: &DeviceHandle,
    endpoint: u8,
    buffer: &TransferBuffer,
    timeout_ms: u128,
) -> (r: Result<usize, Error>)
    ensures
        r == Err::<usize, Error>(Error::NotSupported),
{
    Err(Error::NotSupported)
}

} // verus!
