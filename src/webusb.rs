use vstd::prelude::*;
use vstd::string::StringSliceAdditionalSpecFns;

use crate::descriptor::{direction_of, ControlRequest, DeviceDescriptor, TransferDirection};
use crate::error::Error;

verus! {

/// Kind of a request, bits 6-5 of the request type.
#[derive(Debug, Clone, Copy, PartialEq, Eq, Structural)]
pub enum UsbRequestType {
    Standard,
    Class,
    Vendor,
}

/// Recipient of a request, bits 4-0 of the request type.
#[derive(Debug, Clone, Copy, PartialEq, Eq, Structural)]
pub enum UsbRecipient {
    Device,
    Interface,
    Endpoint,
    Other,
}

/// The parameter object of a browser control transfer.
#[derive(Debug, Clone, Copy, PartialEq, Eq, Structural)]
pub struct ControlParameters {
    pub direction: TransferDirection,
    pub request_type: UsbRequestType,
    pub recipient: UsbRecipient,
    pub request: u8,
    pub value: u16,
    pub index: u16,
}

pub open spec fn recipient_of(bits: u8) -> UsbRecipient {
    let r = bits % 32;
    if r == 0 {
        UsbRecipient::Device
    } else if r == 1 {
        UsbRecipient::Interface
    } else if r == 2 {
        UsbRecipient::Endpoint
    } else {
        UsbRecipient::Other
    }
}

/// Splits a request type into the browser's direction, type and recipient.
/// The reserved type 3 is `NotSupported`.
pub fn build_control_parameters(request: ControlRequest) -> (r: Result<ControlParameters, Error>)
    ensures
        (request.request_type / 32) % 4 == 3 ==> r == Err::<ControlParameters, Error>(
            Error::NotSupported,
        ),
        (request.request_type / 32) % 4 != 3 ==> r == Ok::<ControlParameters, Error>(
            ControlParameters {
                direction: direction_of(request.request_type),
                request_type: if (request.request_type / 32) % 4 == 0 {
                    UsbRequestType::Standard
                } else if (request.request_type / 32) % 4 == 1 {
                    UsbRequestType::Class
                } else {
                    UsbRequestType::Vendor
                },
                recipient: recipient_of(request.request_type),
                request: request.request,
                value: request.value,
                index: request.index,
            },
        ),
{
    let kind = (request.request_type / 32) % 4;
    let request_type = if kind == 0 {
        UsbRequestType::Standard
    } else if kind == 1 {
        UsbRequestType::Class
    } else if kind == 2 {
        UsbRequestType::Vendor
    } else {
        return Err(Error::NotSupported);
    };
    let r = request.request_type % 32;
    let recipient = if r == 0 {
        UsbRecipient::Device
    } else if r == 1 {
        UsbRecipient::Interface
    } else if r == 2 {
        UsbRecipient::Endpoint
    } else {
        UsbRecipient::Other
    };
    Ok(
        ControlParameters {
            direction: request.direction(),
            request_type,
            recipient,
            request: request.request,
            value: request.value,
            index: request.index,
        },
    )
}

/// The endpoint number the browser takes: the address without its direction bit.
pub fn endpoint_number(endpoint: u8) -> (r: u8)
    ensures
        r == endpoint % 128,
{
    endpoint % 128
}

/// Checks a transfer result's status string: anything but `ok` is `Unknown`.
pub fn ensure_status_ok(status: &str) -> (r: Result<(), Error>)
    ensures
        status.spec_bytes() == seq![0x6fu8, 0x6bu8] ==> r == Ok::<(), Error>(()),
        status.spec_bytes() != seq![0x6fu8, 0x6bu8] ==> r == Err::<(), Error>(Error::Unknown),
{
    let b = status.as_bytes();
    if b.len() == 2 && b[0] == 0x6f && b[1] == 0x6b {
        assert(b@ =~= seq![0x6fu8, 0x6bu8]);
        Ok(())
    } else {
        Err(Error::Unknown)
    }
}

/// Whether a DOMException name says that the interface is already claimed.
pub fn is_already_claimed(name: &str) -> (r: bool)
    ensures
        r == (name.spec_bytes() == "InvalidStateError".spec_bytes()),
{
    let expected = "InvalidStateError".as_bytes();
    let b = name.as_bytes();
    if b.len() != expected.len() {
        return false;
    }
    let mut i: usize = 0;
    while i < b.len()
        invariant
            b@ == name.spec_bytes(),
            expected@ == "InvalidStateError".spec_bytes(),
            b@.len() == expected@.len(),
            i <= b@.len(),
            forall|j: int| 0 <= j < i ==> b@[j] == expected@[j],
        decreases b@.len() - i,
    {
        if b[i] != expected[i] {
            assert(b@[i as int] != expected@[i as int]);
            assert(b@ != expected@);
            return false;
        }
        i = i + 1;
    }
    assert(b@ =~= expected@);
    true
}

/// Copies the bytes that came back into the caller's buffer, as many as fit;
/// the count copied.
pub fn copy_in_data(data: Option<&[u8]>, target: &mut [u8]) -> (r: usize)
    ensures
        r <= old(target)@.len(),
        final(target)@.len() == old(target)@.len(),
        data is None ==> r == 0 && final(target)@ == old(target)@,
        data matches Some(d) ==> r == if d@.len() < old(target)@.len() {
            d@.len()
        } else {
            old(target)@.len()
        } && final(target)@ == d@.take(r as int) + old(target)@.skip(r as int),
{
    match data {
        None => 0,
        Some(d) => {
            let n = if d.len() < target.len() {
                d.len()
            } else {
                target.len()
            };
            let mut i: usize = 0;
            while i < n
                invariant
                    n <= d@.len(),
                    n <= old(target)@.len(),
                    i <= n,
                    target@.len() == old(target)@.len(),
                    forall|j: int| 0 <= j < i ==> target@[j] == d@[j],
                    forall|j: int| i <= j < target@.len() ==> target@[j] == old(target)@[j],
                decreases n - i,
            {
                target[i] = d[i];
                i = i + 1;
            }
            assert(target@ =~= d@.take(n as int) + old(target)@.skip(n as int));
            n
        },
    }
}

/// The sum of bytes, wrapping at 32 bits.
pub open spec fn message_hash(s: Seq<u8>) -> i32
    decreases s.len(),
{
    if s.len() == 0 {
        0
    } else {
        message_hash(s.drop_last()).wrapping_add(s.last() as i32)
    }
}

/// The error of a rejected browser promise: a DOMException's code, else an
/// error message's byte sum, else `Unknown`.
pub fn js_error(dom_code: Option<u16>, message: Option<&[u8]>) -> (r: Error)
    ensures
        dom_code matches Some(c) ==> r == Error::Io(c as i32),
        dom_code is None ==> (message matches Some(m) ==> r == Error::Io(message_hash(m@))),
        dom_code is None && message is None ==> r == Error::Unknown,
{
    if let Some(code) = dom_code {
        return Error::Io(code as i32);
    }
    match message {
        Some(m) => {
            let mut acc: i32 = 0;
            let mut i: usize = 0;
            while i < m.len()
                invariant
                    i <= m@.len(),
                    acc == message_hash(m@.take(i as int)),
                decreases m@.len() - i,
            {
                assert(m@.take(i + 1).drop_last() =~= m@.take(i as int));
                acc = acc.wrapping_add(m[i] as i32);
                i = i + 1;
            }
            assert(m@.take(i as int) =~= m@);
            Error::Io(acc)
        },
        None => Error::Unknown,
    }
}

/// The device descriptor that the browser's device properties give. The
/// browser hides the string indices and the endpoint-zero packet size, which
/// are zero, and gives only major versions.
pub fn get_device_descriptor(
    vendor_id: u16,
    product_id: u16,
    device_class: u8,
    device_subclass: u8,
    device_protocol: u8,
    usb_version_major: u8,
    device_version_major: u8,
    num_configurations: u32,
) -> (r: DeviceDescriptor)
    ensures
        r == (DeviceDescriptor {
            length: 18,
            descriptor_type: 1,
            usb_version: usb_version_major as u16,
            device_class,
            device_subclass,
            device_protocol,
            max_packet_size_0: 0,
            vendor_id,
            product_id,
            device_version: device_version_major as u16,
            manufacturer_string_index: 0,
            product_string_index: 0,
            serial_number_string_index: 0,
            num_configurations: num_configurations as u8,
        }),
{
    DeviceDescriptor {
        length: 18,
        descriptor_type: 1,
        usb_version: usb_version_major as u16,
        device_class,
        device_subclass,
        device_protocol,
        max_packet_size_0: 0,
        vendor_id,
        product_id,
        device_version: device_version_major as u16,
        manufacturer_string_index: 0,
        product_string_index: 0,
        serial_number_string_index: 0,
        num_configurations: num_configurations as u8,
    }
}

/// What the browser must do before a device is ready for transfers.
#[derive(Debug, Clone, Copy, PartialEq, Eq, Structural)]
pub struct ReadySteps {
    /// Open the device first.
    pub open: bool,
    /// Select this configuration value, when no configuration is active.
    pub select_configuration: Option<u8>,
}

/// The steps that make a device ready: open it unless it is open, and select
/// its first configuration when none is active; a device with no
/// configuration at all is `NotSupported`. The host then claims every
/// interface of the active configuration.
pub fn ensure_ready(opened: bool, active_configuration: bool, configuration_values: &[u8]) -> (r:
    Result<ReadySteps, Error>)
    ensures
        !active_configuration && configuration_values@.len() == 0 ==> r == Err::<
            ReadySteps,
            Error,
        >(Error::NotSupported),
        active_configuration ==> r == Ok::<ReadySteps, Error>(
            ReadySteps { open: !opened, select_configuration: None },
        ),
        !active_configuration && configuration_values@.len() > 0 ==> r == Ok::<ReadySteps, Error>(
            ReadySteps { open: !opened, select_configuration: Some(configuration_values@[0]) },
        ),
{
    if active_configuration {
        return Ok(ReadySteps { open: !opened, select_configuration: None });
    }
    if configuration_values.len() == 0 {
        return Err(Error::NotSupported);
    }
    Ok(ReadySteps { open: !opened, select_configuration: Some(configuration_values[0]) })
}

/// Whether a failed interface claim stops `ensure_ready`: every failure does
/// but "already claimed", which the browser reports as `InvalidStateError`.
pub fn claim_failure_is_fatal(exception_name: Option<&str>) -> (r: bool)
    ensures
        exception_name is None ==> r,
        exception_name matches Some(n) ==> r == (n.spec_bytes() != "InvalidStateError".spec_bytes()),
{
    match exception_name {
        None => true,
        Some(name) => !is_already_claimed(name),
    }
}

} // verus!
