use vstd::prelude::*;
use vstd::string::StringSliceAdditionalSpecFns;

use crate::descriptor::DeviceDescriptor;
use crate::error::Error;
use crate::text::push_char;

verus! {

/// errno: no such file or directory.
pub const ENOENT: i32 = 2;
/// errno: operation not permitted.
pub const EPERM: i32 = 1;
/// errno: permission denied.
pub const EACCES: i32 = 13;
/// errno: no such device.
pub const ENODEV: i32 = 19;
/// errno: invalid argument.
pub const EINVAL: i32 = 22;
/// errno: connection timed out.
pub const ETIMEDOUT: i32 = 110;

/// Largest bulk submission when the kernel does not lift the packet-size limit.
pub const MAX_BULK_BUFFER_LENGTH: usize = 16384;
/// Capability bit of usbfs: no limit on the size of a bulk submission.
pub const USBFS_CAP_NO_PACKET_SIZE_LIM: u32 = 0x04;

/// The error kind of a kernel errno.
pub open spec fn errno_error(errno: i32) -> Error {
    if errno == ENOENT || errno == ENODEV {
        Error::Disconnected
    } else if errno == ETIMEDOUT {
        Error::Timeout
    } else if errno == EINVAL {
        Error::InvalidArgument
    } else {
        Error::Io(errno)
    }
}

/// Translates a kernel errno into the error taxonomy.
pub fn translate_errno(errno: i32) -> (r: Error)
    ensures
        r == errno_error(errno),
{
    if errno == ENOENT || errno == ENODEV {
        Error::Disconnected
    } else if errno == ETIMEDOUT {
        Error::Timeout
    } else if errno == EINVAL {
        Error::InvalidArgument
    } else {
        Error::Io(errno)
    }
}

/// The count or error of a usbfs transfer request of `requested` bytes.
pub open spec fn ioctl_outcome_spec(ret: i32, errno: i32, requested: usize) -> Result<usize, Error> {
    if ret < 0 {
        Err(errno_error(errno))
    } else if ret > requested {
        Err(Error::Unknown)
    } else {
        Ok(ret as usize)
    }
}

/// The outcome of a usbfs transfer request of `requested` bytes whose ioctl
/// returned `ret`, with `errno` the thread's errno after a negative return.
/// The kernel never reports more bytes than were asked for; such a count is
/// refused with `Unknown`.
pub fn ioctl_outcome(ret: i32, errno: i32, requested: usize) -> (r: Result<usize, Error>)
    ensures
        r == ioctl_outcome_spec(ret, errno, requested),
        ret < 0 ==> r == Err::<usize, Error>(errno_error(errno)),
        ret >= 0 && ret > requested ==> r == Err::<usize, Error>(Error::Unknown),
        ret >= 0 && ret <= requested ==> r == Ok::<usize, Error>(ret as usize),
        r matches Ok(n) ==> n <= requested,
{
    if ret < 0 {
        Err(translate_errno(errno))
    } else if ret as u64 > requested as u64 {
        Err(Error::Unknown)
    } else {
        Ok(ret as usize)
    }
}

/// Whether a failed read-write open is retried read-only: on permission denied.
pub fn retry_read_only(errno: i32) -> (r: bool)
    ensures
        r == (errno == EACCES || errno == EPERM),
{
    errno == EACCES || errno == EPERM
}

/// The largest bulk submission for a handle with the given capability word.
pub fn max_bulk_chunk(caps: u32) -> (r: usize)
    ensures
        caps & USBFS_CAP_NO_PACKET_SIZE_LIM != 0 ==> r == u32::MAX as usize,
        caps & USBFS_CAP_NO_PACKET_SIZE_LIM == 0 ==> r == MAX_BULK_BUFFER_LENGTH,
        0 < r <= u32::MAX,
{
    if caps & USBFS_CAP_NO_PACKET_SIZE_LIM != 0 {
        u32::MAX as usize
    } else {
        MAX_BULK_BUFFER_LENGTH
    }
}

// ---------------------------------------------------------------------------
// Attribute files of the sysfs tree.
// ---------------------------------------------------------------------------

/// Whether three bytes are the UTF-8 encoding of a multi-byte whitespace
/// character: U+1680, U+2000 to U+200A, U+2028, U+2029, U+202F, U+205F, U+3000.
pub open spec fn is_space3(a: u8, b: u8, c: u8) -> bool {
    (a == 0xE1 && b == 0x9A && c == 0x80) || (a == 0xE2 && b == 0x80 && ((0x80 <= c && c <= 0x8A)
        || c == 0xA8 || c == 0xA9 || c == 0xAF)) || (a == 0xE2 && b == 0x81 && c == 0x9F) || (a
        == 0xE3 && b == 0x80 && c == 0x80)
}

/// Whether a byte is an ASCII whitespace character: tab to carriage return, space.
pub open spec fn is_space1(b: u8) -> bool {
    b == 0x20 || (0x09 <= b && b <= 0x0D)
}

/// Whether two bytes are the UTF-8 encoding of U+0085 or U+00A0.
pub open spec fn is_space2(a: u8, b: u8) -> bool {
    a == 0xC2 && (b == 0x85 || b == 0xA0)
}

/// Length of the whitespace character (Unicode White_Space, as `char::is_whitespace`
/// takes it) that UTF-8 text `s` starts with; zero when it starts with none.
pub open spec fn leading_space_len(s: Seq<u8>) -> nat {
    if s.len() >= 1 && is_space1(s[0]) {
        1
    } else if s.len() >= 2 && is_space2(s[0], s[1]) {
        2
    } else if s.len() >= 3 && is_space3(s[0], s[1], s[2]) {
        3
    } else {
        0
    }
}

/// Length of the whitespace character that UTF-8 text `s` ends with; zero when none.
pub open spec fn trailing_space_len(s: Seq<u8>) -> nat {
    let n = s.len() as int;
    if n >= 1 && is_space1(s[n - 1]) {
        1
    } else if n >= 2 && is_space2(s[n - 2], s[n - 1]) {
        2
    } else if n >= 3 && is_space3(s[n - 3], s[n - 2], s[n - 1]) {
        3
    } else {
        0
    }
}

pub open spec fn trim_start(s: Seq<u8>) -> Seq<u8>
    decreases s.len(),
{
    let k = leading_space_len(s);
    if k > 0 {
        trim_start(s.subrange(k as int, s.len() as int))
    } else {
        s
    }
}

pub open spec fn trim_end(s: Seq<u8>) -> Seq<u8>
    decreases s.len(),
{
    let k = trailing_space_len(s);
    if k > 0 {
        trim_end(s.subrange(0, s.len() - k))
    } else {
        s
    }
}

/// UTF-8 text with surrounding whitespace removed, as `str::trim` does.
pub open spec fn trim(s: Seq<u8>) -> Seq<u8> {
    trim_end(trim_start(s))
}

/// Whether `b` is a digit in the radix (10 or 16; hex digits in either case).
pub open spec fn is_digit(b: u8, radix: nat) -> bool {
    (0x30 <= b && b <= 0x39) || (radix == 16 && ((0x61 <= b && b <= 0x66) || (0x41 <= b && b
        <= 0x46)))
}

/// The value of a digit.
pub open spec fn digit_value(b: u8) -> nat {
    if 0x30 <= b && b <= 0x39 {
        (b - 0x30) as nat
    } else if 0x61 <= b && b <= 0x66 {
        (b - 0x61 + 10) as nat
    } else {
        (b - 0x41 + 10) as nat
    }
}

/// The value of a string of digits.
pub open spec fn digits_value(s: Seq<u8>, radix: nat) -> nat
    decreases s.len(),
{
    if s.len() == 0 {
        0
    } else {
        digits_value(s.drop_last(), radix) * radix + digit_value(s.last())
    }
}

/// The digits of an unsigned number: without one leading `+`.
pub open spec fn unsigned_digits(s: Seq<u8>) -> Seq<u8> {
    if s.len() >= 1 && s[0] == 0x2B {
        s.drop_first()
    } else {
        s
    }
}

/// The number that `s` writes in the radix, as an optional `+` and at least
/// one digit, if it is at most `max`.
pub open spec fn parse_radix(s: Seq<u8>, radix: nat, max: nat) -> Option<nat> {
    let d = unsigned_digits(s);
    if d.len() > 0 && (forall|i: int| 0 <= i < d.len() ==> is_digit(#[trigger] d[i], radix))
        && digits_value(d, radix) <= max {
        Some(digits_value(d, radix))
    } else {
        None
    }
}

/// The bytes without a leading `0x` or `0X`.
pub open spec fn strip_hex_prefix(s: Seq<u8>) -> Seq<u8> {
    if s.len() >= 2 && s[0] == 0x30 && (s[1] == 0x78 || s[1] == 0x58) {
        s.subrange(2, s.len() as int)
    } else {
        s
    }
}

/// The value of an attribute file: decimal first, then hex with or without a
/// `0x` prefix, after trimming whitespace.
pub open spec fn parse_auto(s: Seq<u8>, max: nat) -> Option<nat> {
    let t = trim(s);
    match parse_radix(t, 10, max) {
        Some(v) => Some(v),
        None => parse_radix(strip_hex_prefix(t), 16, max),
    }
}

fn space3(a: u8, b: u8, c: u8) -> (r: bool)
    ensures
        r == is_space3(a, b, c),
{
    (a == 0xE1 && b == 0x9A && c == 0x80) || (a == 0xE2 && b == 0x80 && ((0x80 <= c && c <= 0x8A)
        || c == 0xA8 || c == 0xA9 || c == 0xAF)) || (a == 0xE2 && b == 0x81 && c == 0x9F) || (a
        == 0xE3 && b == 0x80 && c == 0x80)
}

/// Length of the whitespace character at the start of `s[i..end]`.
fn leading_space_at(s: &[u8], i: usize, end: usize) -> (k: usize)
    requires
        i <= end <= s@.len(),
    ensures
        k == leading_space_len(s@.subrange(i as int, end as int)),
{
    let ghost t = s@.subrange(i as int, end as int);
    let n = end - i;
    if n >= 1 {
        assert(t[0] == s@[i as int]);
    }
    if n >= 2 {
        assert(t[1] == s@[i + 1]);
    }
    if n >= 3 {
        assert(t[2] == s@[i + 2]);
    }
    if n >= 1 && (s[i] == 0x20 || (0x09 <= s[i] && s[i] <= 0x0D)) {
        1
    } else if n >= 2 && s[i] == 0xC2 && (s[i + 1] == 0x85 || s[i + 1] == 0xA0) {
        2
    } else if n >= 3 && space3(s[i], s[i + 1], s[i + 2]) {
        3
    } else {
        0
    }
}

/// Length of the whitespace character at the end of `s[start..j]`.
fn trailing_space_at(s: &[u8], start: usize, j: usize) -> (k: usize)
    requires
        start <= j <= s@.len(),
    ensures
        k == trailing_space_len(s@.subrange(start as int, j as int)),
{
    let ghost t = s@.subrange(start as int, j as int);
    let n = j - start;
    if n >= 1 {
        assert(t[n - 1] == s@[j - 1]);
    }
    if n >= 2 {
        assert(t[n - 2] == s@[j - 2]);
    }
    if n >= 3 {
        assert(t[n - 3] == s@[j - 3]);
    }
    if n >= 1 && (s[j - 1] == 0x20 || (0x09 <= s[j - 1] && s[j - 1] <= 0x0D)) {
        1
    } else if n >= 2 && s[j - 2] == 0xC2 && (s[j - 1] == 0x85 || s[j - 1] == 0xA0) {
        2
    } else if n >= 3 && space3(s[j - 3], s[j - 2], s[j - 1]) {
        3
    } else {
        0
    }
}

/// Bounds of the trimmed part of `s`.
fn trim_bounds(s: &[u8]) -> (r: (usize, usize))
    ensures
        r.0 <= r.1 <= s@.len(),
        s@.subrange(r.0 as int, r.1 as int) == trim(s@),
{
    let len = s.len();
    let mut i: usize = 0;
    assert(s@.subrange(0, len as int) =~= s@);
    let mut k = leading_space_at(s, 0, len);
    while k > 0
        invariant
            len == s@.len(),
            i <= len,
            trim_start(s@) == trim_start(s@.subrange(i as int, len as int)),
            k == leading_space_len(s@.subrange(i as int, len as int)),
            k <= len - i,
        decreases len - i,
    {
        assert(s@.subrange(i as int, len as int).subrange(k as int, (len - i) as int)
            =~= s@.subrange(i + k, len as int));
        i = i + k;
        k = leading_space_at(s, i, len);
    }
    assert(trim_start(s@) == s@.subrange(i as int, len as int));
    let mut j: usize = len;
    let mut k = trailing_space_at(s, i, j);
    while k > 0
        invariant
            len == s@.len(),
            i <= j <= len,
            trim(s@) == trim_end(s@.subrange(i as int, j as int)),
            k == trailing_space_len(s@.subrange(i as int, j as int)),
            k <= j - i,
        decreases j,
    {
        assert(s@.subrange(i as int, j as int).subrange(0, (j - i - k) as int) =~= s@.subrange(
            i as int,
            j - k,
        ));
        j = j - k;
        k = trailing_space_at(s, i, j);
    }
    (i, j)
}

fn digit_of(b: u8, radix: u32) -> (r: Option<u32>)
    requires
        radix == 10 || radix == 16,
    ensures
        r matches Some(d) ==> is_digit(b, radix as nat) && d == digit_value(b) && d < radix,
        r is None ==> !is_digit(b, radix as nat),
{
    if 0x30 <= b && b <= 0x39 {
        Some((b - 0x30) as u32)
    } else if radix == 16 && 0x61 <= b && b <= 0x66 {
        Some((b - 0x61 + 10) as u32)
    } else if radix == 16 && 0x41 <= b && b <= 0x46 {
        Some((b - 0x41 + 10) as u32)
    } else {
        None
    }
}

/// Parses `s[start..end]` as digits only, with a value of at most `max`.
fn parse_plain_digits(s: &[u8], start: usize, end: usize, radix: u32, max: u32) -> (r: Option<u32>)
    requires
        start <= end <= s@.len(),
        radix == 10 || radix == 16,
    ensures
        ({
            let t = s@.subrange(start as int, end as int);
            if t.len() > 0 && (forall|i: int| 0 <= i < t.len() ==> is_digit(#[trigger] t[i], radix as nat))
                && digits_value(t, radix as nat) <= max as nat {
                r == Some(digits_value(t, radix as nat) as u32)
            } else {
                r is None
            }
        }),
{
    let ghost t = s@.subrange(start as int, end as int);
    if start == end {
        return None;
    }
    // Value so far, saturated at max + 1.
    let mut acc: u64 = 0;
    let mut k: usize = start;
    while k < end
        invariant
            start <= k <= end <= s@.len(),
            radix == 10 || radix == 16,
            t == s@.subrange(start as int, end as int),
            forall|i: int| 0 <= i < k - start ==> is_digit(#[trigger] t[i], radix as nat),
            acc as nat == if digits_value(t.take(k - start), radix as nat) <= max as nat {
                digits_value(t.take(k - start), radix as nat)
            } else {
                max as nat + 1
            },
        decreases end - k,
    {
        let d = match digit_of(s[k], radix) {
            Some(d) => d,
            None => {
                assert(t[k - start] == s@[k as int]);
                return None;
            },
        };
        let ghost prev = digits_value(t.take(k - start), radix as nat);
        let ghost next = digits_value(t.take(k - start + 1), radix as nat);
        assert(t.take(k - start + 1).drop_last() =~= t.take(k - start));
        assert(t.take(k - start + 1).last() == s@[k as int]);
        assert(next == prev * radix as nat + d as nat);
        assert(next >= prev) by (nonlinear_arith)
            requires
                next == prev * radix as nat + d as nat,
                radix >= 1,
        ;
        if acc > max as u64 {
            acc = max as u64 + 1;
        } else {
            assert(acc * radix as u64 + d as u64 <= 0xFFFF_FFFF * 16 + 16) by (nonlinear_arith)
                requires
                    acc <= 0xFFFF_FFFF,
                    radix <= 16,
                    d < 16,
            ;
            let v = acc * radix as u64 + d as u64;
            if v > max as u64 {
                acc = max as u64 + 1;
            } else {
                acc = v;
            }
        }
        k = k + 1;
    }
    assert(t.take(end - start) =~= t);
    if acc > max as u64 {
        None
    } else {
        Some(acc as u32)
    }
}

/// Parses `s[start..end]` as an optional `+` and digits of the radix, with a
/// value of at most `max`.
fn parse_digits(s: &[u8], start: usize, end: usize, radix: u32, max: u32) -> (r: Option<u32>)
    requires
        start <= end <= s@.len(),
        radix == 10 || radix == 16,
    ensures
        match parse_radix(s@.subrange(start as int, end as int), radix as nat, max as nat) {
            Some(v) => r == Some(v as u32),
            None => r is None,
        },
{
    let ghost t = s@.subrange(start as int, end as int);
    if start < end && s[start] == 0x2B {
        assert(t[0] == s@[start as int]);
        assert(unsigned_digits(t) =~= s@.subrange(start + 1, end as int));
        parse_plain_digits(s, start + 1, end, radix, max)
    } else {
        if start < end {
            assert(t[0] == s@[start as int]);
        }
        assert(unsigned_digits(t) == t);
        parse_plain_digits(s, start, end, radix, max)
    }
}

/// Parses the value of an attribute file (see `parse_auto`); `Unknown` when it is none.
pub fn parse_numeric_auto(value: &[u8], max: u32) -> (r: Result<u32, Error>)
    ensures
        match parse_auto(value@, max as nat) {
            Some(v) => r == Ok::<u32, Error>(v as u32),
            None => r == Err::<u32, Error>(Error::Unknown),
        },
{
    let (start, end) = trim_bounds(value);
    let ghost t = value@.subrange(start as int, end as int);
    if let Some(v) = parse_digits(value, start, end, 10, max) {
        return Ok(v);
    }
    let mut hex_start = start;
    if end - start >= 2 && value[start] == 0x30 && (value[start + 1] == 0x78 || value[start + 1]
        == 0x58) {
        hex_start = start + 2;
        assert(strip_hex_prefix(t) =~= value@.subrange(hex_start as int, end as int));
    } else {
        assert(strip_hex_prefix(t) =~= value@.subrange(hex_start as int, end as int));
    }
    match parse_digits(value, hex_start, end, 16, max) {
        Some(v) => Ok(v),
        None => Err(Error::Unknown),
    }
}

/// Parses an 8-bit attribute value.
pub fn parse_u8_auto(value: &str) -> (r: Result<u8, Error>)
    ensures
        match parse_auto(value.spec_bytes(), 255) {
            Some(v) => r == Ok::<u8, Error>(v as u8),
            None => r == Err::<u8, Error>(Error::Unknown),
        },
{
    match parse_numeric_auto(value.as_bytes(), 255) {
        Ok(v) => Ok(v as u8),
        Err(e) => Err(e),
    }
}

/// Parses a 16-bit attribute value.
pub fn parse_u16_auto(value: &str) -> (r: Result<u16, Error>)
    ensures
        match parse_auto(value.spec_bytes(), 65535) {
            Some(v) => r == Ok::<u16, Error>(v as u16),
            None => r == Err::<u16, Error>(Error::Unknown),
        },
{
    match parse_numeric_auto(value.as_bytes(), 65535) {
        Ok(v) => Ok(v as u16),
        Err(e) => Err(e),
    }
}

} // verus!

verus! {

/// The attribute files of one node of the sysfs USB tree, as read: UTF-8
/// text, `None` when the file is absent.
pub struct SysfsAttributes {
    pub busnum: Option<Vec<u8>>,
    pub devnum: Option<Vec<u8>>,
    pub bcd_usb: Option<Vec<u8>>,
    pub device_class: Option<Vec<u8>>,
    pub device_subclass: Option<Vec<u8>>,
    pub device_protocol: Option<Vec<u8>>,
    pub max_packet_size_0: Option<Vec<u8>>,
    pub id_vendor: Option<Vec<u8>>,
    pub id_product: Option<Vec<u8>>,
    pub bcd_device: Option<Vec<u8>>,
    pub manufacturer: Option<Vec<u8>>,
    pub product: Option<Vec<u8>>,
    pub serial_number: Option<Vec<u8>>,
    pub num_configurations: Option<Vec<u8>>,
}

/// A required 8-bit attribute: `Disconnected` when the file is gone, `Unknown` when unreadable.
pub open spec fn attr_u8(v: Option<Vec<u8>>) -> Result<u8, Error> {
    match v {
        None => Err(Error::Disconnected),
        Some(b) => match parse_auto(b@, 255) {
            Some(n) => Ok(n as u8),
            None => Err(Error::Unknown),
        },
    }
}

/// An optional 8-bit attribute: zero when the file is absent.
pub open spec fn attr_u8_optional(v: Option<Vec<u8>>) -> Result<u8, Error> {
    match v {
        None => Ok(0),
        Some(b) => match parse_auto(b@, 255) {
            Some(n) => Ok(n as u8),
            None => Err(Error::Unknown),
        },
    }
}

/// A required 16-bit attribute.
pub open spec fn attr_u16(v: Option<Vec<u8>>) -> Result<u16, Error> {
    match v {
        None => Err(Error::Disconnected),
        Some(b) => match parse_auto(b@, 65535) {
            Some(n) => Ok(n as u16),
            None => Err(Error::Unknown),
        },
    }
}

/// Whether a node is a device: it has both a bus number and a device address.
pub open spec fn is_device_node(a: SysfsAttributes) -> bool {
    a.busnum is Some && a.devnum is Some
}

/// The device descriptor that a node's attributes give; the first failing
/// attribute, in descriptor order, decides the error.
pub open spec fn sysfs_descriptor(a: SysfsAttributes) -> Result<DeviceDescriptor, Error> {
    let usb_version = attr_u16(a.bcd_usb);
    let class = attr_u8(a.device_class);
    let subclass = attr_u8(a.device_subclass);
    let protocol = attr_u8(a.device_protocol);
    let max_packet = attr_u8(a.max_packet_size_0);
    let vendor = attr_u16(a.id_vendor);
    let product_id = attr_u16(a.id_product);
    let device_version = attr_u16(a.bcd_device);
    let manufacturer = attr_u8_optional(a.manufacturer);
    let product = attr_u8_optional(a.product);
    let serial = attr_u8_optional(a.serial_number);
    let configurations = attr_u8(a.num_configurations);
    if usb_version is Err {
        Err(usb_version->Err_0)
    } else if class is Err {
        Err(class->Err_0)
    } else if subclass is Err {
        Err(subclass->Err_0)
    } else if protocol is Err {
        Err(protocol->Err_0)
    } else if max_packet is Err {
        Err(max_packet->Err_0)
    } else if vendor is Err {
        Err(vendor->Err_0)
    } else if product_id is Err {
        Err(product_id->Err_0)
    } else if device_version is Err {
        Err(device_version->Err_0)
    } else if manufacturer is Err {
        Err(manufacturer->Err_0)
    } else if product is Err {
        Err(product->Err_0)
    } else if serial is Err {
        Err(serial->Err_0)
    } else if configurations is Err {
        Err(configurations->Err_0)
    } else {
        Ok(
            DeviceDescriptor {
                length: 18,
                descriptor_type: 0x01,
                usb_version: usb_version->Ok_0,
                device_class: class->Ok_0,
                device_subclass: subclass->Ok_0,
                device_protocol: protocol->Ok_0,
                max_packet_size_0: max_packet->Ok_0,
                vendor_id: vendor->Ok_0,
                product_id: product_id->Ok_0,
                device_version: device_version->Ok_0,
                manufacturer_string_index: manufacturer->Ok_0,
                product_string_index: product->Ok_0,
                serial_number_string_index: serial->Ok_0,
                num_configurations: configurations->Ok_0,
            },
        )
    }
}

/// Reads a required 8-bit attribute.
pub fn read_u8_auto(value: &Option<Vec<u8>>) -> (r: Result<u8, Error>)
    ensures
        r == attr_u8(*value),
{
    match value {
        None => Err(Error::Disconnected),
        Some(bytes) => match parse_numeric_auto(bytes.as_slice(), 255) {
            Ok(v) => Ok(v as u8),
            Err(e) => Err(e),
        },
    }
}

/// Reads an optional 8-bit attribute, zero when absent.
pub fn read_u8_auto_optional(value: &Option<Vec<u8>>) -> (r: Result<u8, Error>)
    ensures
        r == attr_u8_optional(*value),
{
    match value {
        None => Ok(0),
        Some(bytes) => match parse_numeric_auto(bytes.as_slice(), 255) {
            Ok(v) => Ok(v as u8),
            Err(e) => Err(e),
        },
    }
}

/// Reads a required 16-bit attribute.
pub fn read_u16_auto(value: &Option<Vec<u8>>) -> (r: Result<u16, Error>)
    ensures
        r == attr_u16(*value),
{
    match value {
        None => Err(Error::Disconnected),
        Some(bytes) => match parse_numeric_auto(bytes.as_slice(), 65535) {
            Ok(v) => Ok(v as u16),
            Err(e) => Err(e),
        },
    }
}

/// Builds the device descriptor from a node's attribute files.
pub fn descriptor_from_attributes(a: &SysfsAttributes) -> (r: Result<DeviceDescriptor, Error>)
    ensures
        r == sysfs_descriptor(*a),
{
    let usb_version = read_u16_auto(&a.bcd_usb)?;
    let device_class = read_u8_auto(&a.device_class)?;
    let device_subclass = read_u8_auto(&a.device_subclass)?;
    let device_protocol = read_u8_auto(&a.device_protocol)?;
    let max_packet_size_0 = read_u8_auto(&a.max_packet_size_0)?;
    let vendor_id = read_u16_auto(&a.id_vendor)?;
    let product_id = read_u16_auto(&a.id_product)?;
    let device_version = read_u16_auto(&a.bcd_device)?;
    let manufacturer_string_index = read_u8_auto_optional(&a.manufacturer)?;
    let product_string_index = read_u8_auto_optional(&a.product)?;
    let serial_number_string_index = read_u8_auto_optional(&a.serial_number)?;
    let num_configurations = read_u8_auto(&a.num_configurations)?;
    Ok(
        DeviceDescriptor {
            length: 18,
            descriptor_type: 0x01,
            usb_version,
            device_class,
            device_subclass,
            device_protocol,
            max_packet_size_0,
            vendor_id,
            product_id,
            device_version,
            manufacturer_string_index,
            product_string_index,
            serial_number_string_index,
            num_configurations,
        },
    )
}

// ---------------------------------------------------------------------------
// Device node path.
// ---------------------------------------------------------------------------

pub open spec fn digit_char(d: u16) -> char {
    ((d + 48) as u8) as char
}

/// Decimal digits of `n`, zero-padded to at least three.
pub open spec fn padded3(n: u16) -> Seq<char> {
    if n < 1000 {
        seq![digit_char(n / 100), digit_char((n / 10) % 10), digit_char(n % 10)]
    } else if n < 10000 {
        seq![
            digit_char(n / 1000),
            digit_char((n / 100) % 10),
            digit_char((n / 10) % 10),
            digit_char(n % 10),
        ]
    } else {
        seq![
            digit_char(n / 10000),
            digit_char((n / 1000) % 10),
            digit_char((n / 100) % 10),
            digit_char((n / 10) % 10),
            digit_char(n % 10),
        ]
    }
}

/// The device node of bus `bus`, address `address`: `/dev/bus/usb/BBB/DDD`.
pub open spec fn node_path_of(bus: u16, address: u16) -> Seq<char> {
    "/dev/bus/usb/"@ + padded3(bus) + seq!['/'] + padded3(address)
}

fn digit(d: u16) -> (c: char)
    requires
        d < 10,
    ensures
        c == digit_char(d),
{
    ((d + 48) as u8) as char
}

fn push_padded3(s: &mut String, n: u16)
    ensures
        final(s)@ == old(s)@ + padded3(n),
{
    if n >= 10000 {
        push_char(s, digit(n / 10000));
    }
    if n >= 1000 {
        push_char(s, digit((n / 1000) % 10));
    }
    push_char(s, digit((n / 100) % 10));
    push_char(s, digit((n / 10) % 10));
    push_char(s, digit(n % 10));
    assert(n < 1000 ==> n / 100 == (n / 100) % 10);
    assert(1000 <= n < 10000 ==> n / 1000 == (n / 1000) % 10);
    assert(final(s)@ =~= old(s)@ + padded3(n));
}

/// The usbfs device node of a bus number and device address.
pub fn node_path(bus: u16, address: u16) -> (r: String)
    ensures
        r@ == node_path_of(bus, address),
{
    let prefix = "/dev/bus/usb/";
    let mut s = prefix.to_owned();
    push_padded3(&mut s, bus);
    push_char(&mut s, '/');
    push_padded3(&mut s, address);
    assert(s@ =~= node_path_of(bus, address));
    s
}

} // verus!
