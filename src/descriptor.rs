use vstd::prelude::*;

use crate::error::Error;
use crate::text::push_char;

verus! {

/// Bit 7 of an endpoint address or of a request type: set for device-to-host.
pub const DIRECTION_IN_BIT: u8 = 0x80;
/// Descriptor type code of a device descriptor.
pub const DESCRIPTOR_TYPE_DEVICE: u8 = 0x01;
/// Descriptor type code of a configuration descriptor.
pub const DESCRIPTOR_TYPE_CONFIGURATION: u8 = 0x02;
/// Descriptor type code of a string descriptor.
pub const DESCRIPTOR_TYPE_STRING: u8 = 0x03;
/// Standard request code GET_DESCRIPTOR.
pub const REQUEST_GET_DESCRIPTOR: u8 = 0x06;
/// Request type of a standard device-to-host request addressed to the device.
pub const REQUEST_TYPE_STANDARD_DEVICE_IN: u8 = 0x80;
/// Length in bytes of a device descriptor.
pub const DEVICE_DESCRIPTOR_LEN: usize = 18;
/// Language id of US English, used for string descriptors.
pub const LANG_ID_EN_US: u16 = 0x0409;

/// Logical direction of a USB transfer.
#[derive(Debug, Clone, Copy, PartialEq, Eq, Structural)]
pub enum TransferDirection {
    /// Device to host.
    In,
    /// Host to device.
    Out,
}

/// The direction that bit 7 of a request type or endpoint address selects.
pub open spec fn direction_of(bits: u8) -> TransferDirection {
    if bits & 0x80 != 0 {
        TransferDirection::In
    } else {
        TransferDirection::Out
    }
}

/// The directions of the request types and endpoint addresses that the
/// class helpers use.
pub proof fn lemma_direction_constants()
    ensures
        direction_of(0x21) == TransferDirection::Out,
        direction_of(0x40) == TransferDirection::Out,
        direction_of(0x02) == TransferDirection::Out,
        direction_of(0x80) == TransferDirection::In,
        direction_of(0x81) == TransferDirection::In,
        direction_of(0xA1) == TransferDirection::In,
{
    assert(0x21u8 & 0x80u8 == 0) by (bit_vector);
    assert(0x40u8 & 0x80u8 == 0) by (bit_vector);
    assert(0x02u8 & 0x80u8 == 0) by (bit_vector);
    assert(0x80u8 & 0x80u8 != 0) by (bit_vector);
    assert(0x81u8 & 0x80u8 != 0) by (bit_vector);
    assert(0xA1u8 & 0x80u8 != 0) by (bit_vector);
}

/// Reads the direction bit of a request type or an endpoint address.
pub fn direction_from_bits(bits: u8) -> (r: TransferDirection)
    ensures
        r == direction_of(bits),
{
    if bits & DIRECTION_IN_BIT != 0 {
        TransferDirection::In
    } else {
        TransferDirection::Out
    }
}

/// The setup-packet prelude of a control transfer; its length comes from the payload.
#[derive(Debug, Clone, Copy, PartialEq, Eq, Structural)]
pub struct ControlRequest {
    /// Direction (bit 7), type (bits 6-5) and recipient (bits 4-0).
    pub request_type: u8,
    pub request: u8,
    pub value: u16,
    pub index: u16,
}

impl ControlRequest {
    /// The direction that the request type's bit 7 announces.
    pub fn direction(&self) -> (r: TransferDirection)
        ensures
            r == direction_of(self.request_type),
    {
        direction_from_bits(self.request_type)
    }
}

/// The 18-byte standard device descriptor.
#[derive(Debug, Clone, Copy, PartialEq, Eq, Structural)]
pub struct DeviceDescriptor {
    pub length: u8,
    pub descriptor_type: u8,
    pub usb_version: u16,
    pub device_class: u8,
    pub device_subclass: u8,
    pub device_protocol: u8,
    pub max_packet_size_0: u8,
    pub vendor_id: u16,
    pub product_id: u16,
    pub device_version: u16,
    pub manufacturer_string_index: u8,
    pub product_string_index: u8,
    pub serial_number_string_index: u8,
    pub num_configurations: u8,
}

/// The little-endian 16-bit value of two bytes.
pub open spec fn le16(lo: u8, hi: u8) -> u16 {
    (lo as int + 256 * (hi as int)) as u16
}

/// Whether bytes hold a device descriptor: 18 bytes or more, a length byte of 18, type 0x01.
pub open spec fn is_device_descriptor(b: Seq<u8>) -> bool {
    b.len() >= 18 && b[0] == 18 && b[1] == DESCRIPTOR_TYPE_DEVICE
}

/// The device descriptor that the first 18 bytes spell.
pub open spec fn device_descriptor_of(b: Seq<u8>) -> DeviceDescriptor {
    DeviceDescriptor {
        length: b[0],
        descriptor_type: b[1],
        usb_version: le16(b[2], b[3]),
        device_class: b[4],
        device_subclass: b[5],
        device_protocol: b[6],
        max_packet_size_0: b[7],
        vendor_id: le16(b[8], b[9]),
        product_id: le16(b[10], b[11]),
        device_version: le16(b[12], b[13]),
        manufacturer_string_index: b[14],
        product_string_index: b[15],
        serial_number_string_index: b[16],
        num_configurations: b[17],
    }
}

fn read_le16(b: &[u8], at: usize) -> (r: u16)
    requires
        at + 1 < b@.len(),
    ensures
        r == le16(b@[at as int], b@[at + 1]),
{
    b[at] as u16 + (b[at + 1] as u16) * 256
}

impl DeviceDescriptor {
    /// Parses a device descriptor as it comes off the wire.
    pub fn from_bytes(b: &[u8]) -> (r: Result<DeviceDescriptor, Error>)
        ensures
            is_device_descriptor(b@) ==> r == Ok::<DeviceDescriptor, Error>(
                device_descriptor_of(b@),
            ),
            !is_device_descriptor(b@) ==> r == Err::<DeviceDescriptor, Error>(
                Error::InvalidArgument,
            ),
    {
        if b.len() < DEVICE_DESCRIPTOR_LEN || b[0] != 18 || b[1] != DESCRIPTOR_TYPE_DEVICE {
            return Err(Error::InvalidArgument);
        }
        Ok(DeviceDescriptor {
            length: b[0],
            descriptor_type: b[1],
            usb_version: read_le16(b, 2),
            device_class: b[4],
            device_subclass: b[5],
            device_protocol: b[6],
            max_packet_size_0: b[7],
            vendor_id: read_le16(b, 8),
            product_id: read_le16(b, 10),
            device_version: read_le16(b, 12),
            manufacturer_string_index: b[14],
            product_string_index: b[15],
            serial_number_string_index: b[16],
            num_configurations: b[17],
        })
    }
}

/// Number of 16-bit code units that a string descriptor's length byte announces.
pub open spec fn string_units(d: Seq<u8>) -> int {
    (d[0] as int - 2) / 2
}

/// Whether the header of a string descriptor is sound: at least two bytes, a
/// declared length of two or more that the data covers, and type 0x03.
pub open spec fn string_header_ok(d: Seq<u8>) -> bool {
    d.len() >= 2 && d[0] >= 2 && d[1] == DESCRIPTOR_TYPE_STRING && d[0] as int <= d.len()
}

/// Whether every code unit of the descriptor has a zero high byte.
pub open spec fn string_units_ascii(d: Seq<u8>) -> bool {
    forall|i: int| 0 <= i < string_units(d) ==> #[trigger] d[2 + 2 * i + 1] == 0
}

/// The text of a string descriptor: the low byte of each code unit.
pub open spec fn string_text(d: Seq<u8>) -> Seq<char> {
    Seq::new(string_units(d) as nat, |i: int| d[2 + 2 * i] as char)
}

/// Converts a string descriptor (the bytes that GET_DESCRIPTOR returned) to text.
///
/// Fails with `Unknown` when the header is malformed or when a code unit has a
/// non-zero high byte; otherwise returns one character per code unit.
pub fn parse_string_descriptor_ascii(data: &[u8]) -> (r: Result<String, Error>)
    ensures
        match r {
            Ok(s) => string_header_ok(data@) && string_units_ascii(data@) && s@ == string_text(
                data@,
            ),
            Err(e) => e == Error::Unknown && !(string_header_ok(data@) && string_units_ascii(
                data@,
            )),
        },
{
    if data.len() < 2 {
        return Err(Error::Unknown);
    }
    let declared = data[0] as usize;
    if declared < 2 || data[1] != DESCRIPTOR_TYPE_STRING || declared > data.len() {
        return Err(Error::Unknown);
    }
    let n: usize = (declared - 2) / 2;
    let mut text = String::new();
    let mut i: usize = 0;
    while i < n
        invariant
            string_header_ok(data@),
            n == string_units(data@),
            0 <= i <= n,
            2 + 2 * n <= data@.len(),
            forall|j: int| 0 <= j < i ==> #[trigger] data@[2 + 2 * j + 1] == 0,
            text@ == string_text(data@).take(i as int),
        decreases n - i,
    {
        if data[2 + 2 * i + 1] != 0 {
            return Err(Error::Unknown);
        }
        push_char(&mut text, data[2 + 2 * i] as char);
        assert(text@ =~= string_text(data@).take(i + 1));
        i = i + 1;
    }
    assert(text@ =~= string_text(data@));
    Ok(text)
}

/// The nine-byte header of a configuration descriptor.
#[derive(Debug, Clone, Copy, PartialEq, Eq, Structural)]
pub struct ConfigurationDescriptor {
    pub length: u8,
    pub descriptor_type: u8,
    pub total_length: u16,
    pub num_interfaces: u8,
    pub configuration_value: u8,
    pub configuration_string_index: u8,
    pub attributes: u8,
    pub max_power: u8,
}

/// Whether bytes start with a configuration descriptor header: nine bytes or
/// more, a length byte of nine, type 0x02.
pub open spec fn is_configuration_descriptor(b: Seq<u8>) -> bool {
    b.len() >= 9 && b[0] == 9 && b[1] == DESCRIPTOR_TYPE_CONFIGURATION
}

pub open spec fn configuration_descriptor_of(b: Seq<u8>) -> ConfigurationDescriptor {
    ConfigurationDescriptor {
        length: b[0],
        descriptor_type: b[1],
        total_length: le16(b[2], b[3]),
        num_interfaces: b[4],
        configuration_value: b[5],
        configuration_string_index: b[6],
        attributes: b[7],
        max_power: b[8],
    }
}

impl ConfigurationDescriptor {
    /// Parses the header of a configuration descriptor as it comes off the wire.
    pub fn from_bytes(b: &[u8]) -> (r: Result<ConfigurationDescriptor, Error>)
        ensures
            is_configuration_descriptor(b@) ==> r == Ok::<ConfigurationDescriptor, Error>(
                configuration_descriptor_of(b@),
            ),
            !is_configuration_descriptor(b@) ==> r == Err::<ConfigurationDescriptor, Error>(
                Error::InvalidArgument,
            ),
    {
        if b.len() < 9 || b[0] != 9 || b[1] != DESCRIPTOR_TYPE_CONFIGURATION {
            return Err(Error::InvalidArgument);
        }
        Ok(ConfigurationDescriptor {
            length: b[0],
            descriptor_type: b[1],
            total_length: read_le16(b, 2),
            num_interfaces: b[4],
            configuration_value: b[5],
            configuration_string_index: b[6],
            attributes: b[7],
            max_power: b[8],
        })
    }
}

/// Signalling speed of a device.
#[derive(Debug, Clone, Copy, PartialEq, Eq, Structural)]
pub enum Speed {
    Unknown,
    Low,
    Full,
    High,
    Super,
}

} // verus!
