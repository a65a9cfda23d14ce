use vstd::prelude::*;
use vstd::std_specs::iter::IteratorSpec;

use crate::descriptor::{
    direction_of, parse_string_descriptor_ascii, string_header_ok, string_text,
    string_units_ascii, ControlRequest, DeviceDescriptor,
    REQUEST_GET_DESCRIPTOR, REQUEST_TYPE_STANDARD_DEVICE_IN,
};
use crate::error::Error;
use crate::transfer::{
    control_outcome, prepare_control, timeout_of, ChunkedTransfer, ControlSubmission,
    ControlTransferData, TransferBuffer, MAX_DATA_LENGTH,
};
use crate::usbfs::{
    descriptor_from_attributes, is_device_node, max_bulk_chunk, node_path, node_path_of,
    read_u16_auto, sysfs_descriptor, SysfsAttributes, attr_u16, MAX_BULK_BUFFER_LENGTH,
    USBFS_CAP_NO_PACKET_SIZE_LIM,
};

verus! {

/// Timeout of a string-descriptor read, in milliseconds.
pub const STRING_DESCRIPTOR_TIMEOUT_MS: u128 = 1000;

/// The host environment behind a device; one is active per build.
#[derive(Debug, Clone, Copy, PartialEq, Eq, Structural)]
pub enum Backend {
    /// usbfs device nodes with the sysfs attribute tree.
    Usbfs,
    /// WinUSB, found through the Setup device-interface API.
    WinUsb,
    /// The IOKit USB family plug-in interface.
    IoKit,
    /// The permission-gated browser USB API.
    WebUsb,
    /// A host with no USB access.
    Unsupported,
}

/// Where a device's descriptor comes from.
pub enum DescriptorSource {
    /// Read from the sysfs attribute files of the device's node.
    Sysfs(SysfsAttributes),
    /// Fetched (or synthesised) when the device was enumerated.
    Cached(DeviceDescriptor),
}

/// A device attached to the bus, as enumeration found it. Immutable once built;
/// it does not guarantee that the device is still attached.
pub struct Device {
    pub backend: Backend,
    pub bus_number: u16,
    pub address: u16,
    pub source: DescriptorSource,
}

/// The descriptor that a device reports.
pub open spec fn device_descriptor_spec(d: &Device) -> Result<DeviceDescriptor, Error> {
    match d.backend {
        Backend::Unsupported => Err(Error::NotSupported),
        _ => match d.source {
            DescriptorSource::Sysfs(a) => sysfs_descriptor(a),
            DescriptorSource::Cached(desc) => Ok(desc),
        },
    }
}

impl Device {
    /// A device whose descriptor was read when it was enumerated.
    pub fn with_descriptor(backend: Backend, bus_number: u16, address: u16, descriptor: DeviceDescriptor) -> (r:
        Device)
        ensures
            r.backend == backend,
            r.bus_number == bus_number,
            r.address == address,
            r.source == DescriptorSource::Cached(descriptor),
    {
        Device { backend, bus_number, address, source: DescriptorSource::Cached(descriptor) }
    }

    /// Returns the device descriptor.
    pub fn get_device_descriptor(&self) -> (r: Result<DeviceDescriptor, Error>)
        ensures
            r == device_descriptor_spec(self),
    {
        if self.backend == Backend::Unsupported {
            return Err(Error::NotSupported);
        }
        match &self.source {
            DescriptorSource::Sysfs(a) => descriptor_from_attributes(a),
            DescriptorSource::Cached(desc) => Ok(*desc),
        }
    }

    /// The usbfs device node of this device.
    pub fn node_path(&self) -> (r: String)
        ensures
            r@ == node_path_of(self.bus_number, self.address),
    {
        node_path(self.bus_number, self.address)
    }

    /// Opens the device: a handle with no claimed interface and no capability
    /// bits yet. The host opens the native handle beside it.
    pub fn open(&self) -> (r: Result<DeviceHandle, Error>)
        ensures
            self.backend == Backend::Unsupported ==> r == Err::<DeviceHandle, Error>(
                Error::NotSupported,
            ),
            self.backend != Backend::Unsupported ==> (r matches Ok(h) && h.wf() && h.backend
                == self.backend && h.bus_number == self.bus_number && h.address == self.address
                && h.caps == 0 && h.claimed@ == Seq::<u8>::empty()),
    {
        if self.backend == Backend::Unsupported {
            return Err(Error::NotSupported);
        }
        Ok(
            DeviceHandle {
                backend: self.backend,
                bus_number: self.bus_number,
                address: self.address,
                caps: 0,
                claimed: Vec::new(),
            },
        )
    }
}

/// A snapshot of the attached devices, in enumeration order.
pub struct DeviceList {
    pub devices: Vec<Device>,
}

impl DeviceList {
    /// Returns an iterator over the devices in the list.
    pub fn iter(&self) -> (r: std::slice::Iter<'_, Device>)
        ensures
            r.remaining() == self.devices@.as_ref(),
    {
        broadcast use vstd::std_specs::slice::axiom_spec_slice_iter;

        self.devices.as_slice().iter()
    }
}


/// Whether the handle is set up to move data at all.
pub open spec fn moves_data(b: Backend) -> bool {
    b != Backend::Unsupported
}

/// The outcome of a control transfer on a handle: the checks on the transfer
/// come first, then a handle that moves no data refuses it.
pub open spec fn handle_control(
    h: &DeviceHandle,
    request: ControlRequest,
    data_direction: Option<crate::descriptor::TransferDirection>,
    len: nat,
    timeout_ms: u128,
) -> Result<ControlSubmission, Error> {
    match control_outcome(request, data_direction, len, timeout_ms) {
        Err(e) => Err(e),
        Ok(sub) => if moves_data(h.backend) {
            Ok(sub)
        } else {
            Err(Error::NotSupported)
        },
    }
}

/// The largest submission of a bulk or interrupt transfer on a handle.
pub open spec fn chunk_limit(h: &DeviceHandle) -> usize {
    if h.backend == Backend::Usbfs {
        if h.caps & USBFS_CAP_NO_PACKET_SIZE_LIM != 0 {
            u32::MAX as usize
        } else {
            MAX_BULK_BUFFER_LENGTH
        }
    } else {
        u32::MAX as usize
    }
}

/// The outcome of the checks on a bulk or interrupt transfer.
pub open spec fn data_outcome(
    h: &DeviceHandle,
    endpoint: u8,
    direction: crate::descriptor::TransferDirection,
    len: nat,
    timeout_ms: u128,
) -> Result<ChunkedTransfer, Error> {
    if direction != direction_of(endpoint) {
        Err(Error::InvalidArgument)
    } else if len > MAX_DATA_LENGTH {
        Err(Error::InvalidArgument)
    } else if !moves_data(h.backend) {
        Err(Error::NotSupported)
    } else if h.backend == Backend::IoKit && h.claimed@.len() == 0 {
        Err(Error::NotSupported)
    } else {
        Ok(
            ChunkedTransfer {
                endpoint,
                direction,
                timeout_ms: timeout_of(timeout_ms),
                len: len as usize,
                limit: chunk_limit(h),
                total: 0,
                short: false,
            },
        )
    }
}

/// The standard GET_DESCRIPTOR request for string descriptor `index` in language `lang_id`.
pub open spec fn string_descriptor_request(index: u8, lang_id: u16) -> ControlRequest {
    ControlRequest {
        request_type: REQUEST_TYPE_STANDARD_DEVICE_IN,
        request: REQUEST_GET_DESCRIPTOR,
        value: (0x0300 + index) as u16,
        index: lang_id,
    }
}

/// An opened device: the backend it runs on, where the device sits, the
/// capability word that the host reported, and the set of claimed interfaces
/// (empty when opened). The native handle itself stays with the host.
pub struct DeviceHandle {
    pub backend: Backend,
    pub bus_number: u16,
    pub address: u16,
    pub caps: u32,
    pub claimed: Vec<u8>,
}

impl DeviceHandle {
    /// The claimed-interface set holds no duplicates.
    pub open spec fn wf(&self) -> bool {
        self.claimed@.no_duplicates()
    }

    pub open spec fn is_claimed(&self, interface: u8) -> bool {
        self.claimed@.contains(interface)
    }

    /// Records the capability word that the host reported when it opened the device.
    pub fn set_capabilities(&mut self, caps: u32)
        ensures
            *final(self) == (DeviceHandle { caps, ..*old(self) }),
    {
        self.caps = caps;
    }

    /// Where `interface` stands in the claimed set.
    fn position(&self, interface: u8) -> (r: Option<usize>)
        ensures
            r matches Some(i) ==> i < self.claimed@.len() && self.claimed@[i as int] == interface,
            r is None ==> !self.is_claimed(interface),
    {
        let mut i: usize = 0;
        while i < self.claimed.len()
            invariant
                i <= self.claimed@.len(),
                forall|j: int| 0 <= j < i ==> self.claimed@[j] != interface,
            decreases self.claimed@.len() - i,
        {
            if self.claimed[i] == interface {
                return Some(i);
            }
            i = i + 1;
        }
        None
    }

    /// Checks a control transfer and gives the submission for the host: the
    /// data stage must agree with bit 7 of the request type, and its length
    /// must fit in 16 bits; these checks come before anything else. A refused
    /// transfer never reaches the host.
    pub fn control_transfer(&self, request: ControlRequest, data: &ControlTransferData, timeout_ms: u128) -> (r:
        Result<ControlSubmission, Error>)
        ensures
            r == handle_control(self, request, data.spec_direction(), data.spec_len(), timeout_ms),
            crate::transfer::control_direction_mismatch(request, data.spec_direction()) ==> r
                == Err::<ControlSubmission, Error>(Error::InvalidArgument),
            r matches Ok(sub) ==> sub.setup.length == data.spec_len() && (data.spec_direction()
                matches Some(d) ==> d == direction_of(request.request_type)),
    {
        let sub = prepare_control(request, data, timeout_ms)?;
        if self.backend == Backend::Unsupported {
            return Err(Error::NotSupported);
        }
        Ok(sub)
    }

    /// The count that a control submission reports, from the host's return
    /// value and errno (see `ioctl_outcome`): never more than the data stage.
    pub fn complete_control(&self, sub: &ControlSubmission, ret: i32, errno: i32) -> (r: Result<usize, Error>)
        ensures
            r == crate::usbfs::ioctl_outcome_spec(ret, errno, sub.setup.length as usize),
            r matches Ok(n) ==> n <= sub.setup.length,
    {
        crate::usbfs::ioctl_outcome(ret, errno, sub.setup.length as usize)
    }

    fn data_transfer(&self, endpoint: u8, buffer: &TransferBuffer, timeout_ms: u128) -> (r: Result<
        ChunkedTransfer,
        Error,
    >)
        ensures
            r == data_outcome(self, endpoint, buffer.spec_direction(), buffer.spec_len(), timeout_ms),
            r matches Ok(t) ==> t.wf(),
    {
        if buffer.direction() != crate::descriptor::direction_from_bits(endpoint) {
            return Err(Error::InvalidArgument);
        }
        let len = buffer.len();
        if len as u128 > MAX_DATA_LENGTH as u128 {
            return Err(Error::InvalidArgument);
        }
        if self.backend == Backend::Unsupported {
            return Err(Error::NotSupported);
        }
        if self.backend == Backend::IoKit && self.claimed.len() == 0 {
            return Err(Error::NotSupported);
        }
        let limit = if self.backend == Backend::Usbfs {
            max_bulk_chunk(self.caps)
        } else {
            u32::MAX as usize
        };
        Ok(
            ChunkedTransfer::new(
                endpoint,
                buffer.direction(),
                len,
                limit,
                crate::transfer::duration_to_timeout(timeout_ms),
            ),
        )
    }

    /// Checks a bulk transfer and gives the plan of its submissions: the
    /// endpoint's bit 7 must agree with the buffer's direction, and the length
    /// must fit in 32 bits.
    pub fn bulk_transfer(&self, endpoint: u8, buffer: &TransferBuffer, timeout_ms: u128) -> (r: Result<
        ChunkedTransfer,
        Error,
    >)
        ensures
            r == data_outcome(self, endpoint, buffer.spec_direction(), buffer.spec_len(), timeout_ms),
            r matches Ok(t) ==> t.wf() && t.direction == direction_of(endpoint) && t.len
                == buffer.spec_len(),
            buffer.spec_direction() != direction_of(endpoint) ==> r
                == Err::<ChunkedTransfer, Error>(Error::InvalidArgument),
    {
        self.data_transfer(endpoint, buffer, timeout_ms)
    }

    /// Checks an interrupt transfer; the same checks and plan as a bulk transfer.
    pub fn interrupt_transfer(&self, endpoint: u8, buffer: &TransferBuffer, timeout_ms: u128) -> (r:
        Result<ChunkedTransfer, Error>)
        ensures
            r == data_outcome(self, endpoint, buffer.spec_direction(), buffer.spec_len(), timeout_ms),
            r matches Ok(t) ==> t.wf() && t.direction == direction_of(endpoint) && t.len
                == buffer.spec_len(),
            buffer.spec_direction() != direction_of(endpoint) ==> r
                == Err::<ChunkedTransfer, Error>(Error::InvalidArgument),
    {
        self.data_transfer(endpoint, buffer, timeout_ms)
    }

    /// Records that the host claimed `interface`. Claiming twice is harmless.
    /// The browser claims every interface when it opens a device and has no
    /// separate claim.
    pub fn claim_interface(&mut self, interface: u8) -> (r: Result<(), Error>)
        requires
            old(self).wf(),
        ensures
            final(self).wf(),
            old(self).backend == Backend::WebUsb || old(self).backend == Backend::Unsupported
                ==> r == Err::<(), Error>(Error::NotSupported) && *final(self) == *old(self),
            !(old(self).backend == Backend::WebUsb || old(self).backend == Backend::Unsupported)
                ==> r == Ok::<(), Error>(()),
            final(self).backend == old(self).backend,
            final(self).caps == old(self).caps,
            r is Ok ==> forall|n: u8| #[trigger]
                final(self).is_claimed(n) <==> (old(self).is_claimed(n) || n == interface),
    {
        if self.backend == Backend::WebUsb || self.backend == Backend::Unsupported {
            return Err(Error::NotSupported);
        }
        if self.position(interface).is_none() {
            let ghost before = self.claimed@;
            self.claimed.push(interface);
            assert(forall|n: u8| #[trigger]
                self.claimed@.contains(n) <==> (before.contains(n) || n == interface)) by {
                assert forall|n: u8| #[trigger] self.claimed@.contains(n) implies (before.contains(n)
                    || n == interface) by {
                    let j = choose|j: int| 0 <= j < self.claimed@.len() && self.claimed@[j] == n;
                    if j < before.len() {
                        assert(before[j] == n);
                    }
                }
                assert forall|n: u8| (before.contains(n) || n == interface) implies #[trigger]
                    self.claimed@.contains(n) by {
                    if n == interface {
                        assert(self.claimed@[before.len() as int] == n);
                    } else {
                        let j = choose|j: int| 0 <= j < before.len() && before[j] == n;
                        assert(self.claimed@[j] == n);
                    }
                }
            }
        }
        Ok(())
    }

    /// Releases a claimed interface; `NotSupported` when it is not claimed.
    pub fn release_interface(&mut self, interface: u8) -> (r: Result<(), Error>)
        requires
            old(self).wf(),
        ensures
            final(self).wf(),
            final(self).backend == old(self).backend,
            final(self).caps == old(self).caps,
            old(self).backend == Backend::WebUsb || old(self).backend == Backend::Unsupported
                || !old(self).is_claimed(interface) ==> r == Err::<(), Error>(Error::NotSupported)
                && *final(self) == *old(self),
            !(old(self).backend == Backend::WebUsb || old(self).backend == Backend::Unsupported)
                && old(self).is_claimed(interface) ==> r == Ok::<(), Error>(()),
            r is Ok ==> forall|n: u8| #[trigger]
                final(self).is_claimed(n) <==> (old(self).is_claimed(n) && n != interface),
    {
        if self.backend == Backend::WebUsb || self.backend == Backend::Unsupported {
            return Err(Error::NotSupported);
        }
        match self.position(interface) {
            None => Err(Error::NotSupported),
            Some(i) => {
                let ghost before = self.claimed@;
                self.claimed.remove(i);
                let ghost after = self.claimed@;
                assert(after =~= before.remove(i as int));
                assert forall|a: int, b: int| 0 <= a < b < after.len() implies after[a]
                    != after[b] by {
                    let a0 = if a < i { a } else { a + 1 };
                    let b0 = if b < i { b } else { b + 1 };
                    assert(after[a] == before[a0] && after[b] == before[b0]);
                }
                assert forall|n: u8| #[trigger] after.contains(n) implies (before.contains(n) && n
                    != interface) by {
                    let j = choose|j: int| 0 <= j < after.len() && after[j] == n;
                    let j0 = if j < i { j } else { j + 1 };
                    assert(before[j0] == n);
                }
                assert forall|n: u8| (before.contains(n) && n != interface) implies #[trigger]
                    after.contains(n) by {
                    let j = choose|j: int| 0 <= j < before.len() && before[j] == n;
                    if j < i {
                        assert(after[j] == n);
                    } else {
                        assert(j != i);
                        assert(after[j - 1] == n);
                    }
                }
                Ok(())
            },
        }
    }

    /// Checks that the alternate setting of `interface` may be selected: the
    /// interface must be claimed.
    pub fn set_interface_alt_setting(&self, interface: u8, alt_setting: u8) -> (r: Result<(), Error>)
        ensures
            r is Ok <==> (self.backend != Backend::WebUsb && self.backend != Backend::Unsupported
                && self.is_claimed(interface)),
            r matches Err(e) ==> e == Error::NotSupported,
    {
        if self.backend == Backend::WebUsb || self.backend == Backend::Unsupported {
            return Err(Error::NotSupported);
        }
        match self.position(interface) {
            None => Err(Error::NotSupported),
            Some(_) => Ok(()),
        }
    }

    /// Checks that the device may be reset: usbfs and IOKit can, the others cannot.
    pub fn reset_device(&self) -> (r: Result<(), Error>)
        ensures
            r is Ok <==> (self.backend == Backend::Usbfs || self.backend == Backend::IoKit),
            r matches Err(e) ==> e == Error::NotSupported,
    {
        if self.backend == Backend::Usbfs || self.backend == Backend::IoKit {
            Ok(())
        } else {
            Err(Error::NotSupported)
        }
    }

    /// Checks that the halt of `endpoint` may be cleared. IOKit reaches the
    /// pipe through a claimed interface, so it needs one.
    pub fn clear_halt(&self, endpoint: u8) -> (r: Result<(), Error>)
        ensures
            r is Ok <==> (self.backend == Backend::Usbfs || self.backend == Backend::WinUsb || (
            self.backend == Backend::IoKit && self.claimed@.len() > 0)),
            r matches Err(e) ==> e == Error::NotSupported,
    {
        match self.backend {
            Backend::Usbfs | Backend::WinUsb => Ok(()),
            Backend::IoKit => {
                if self.claimed.len() > 0 {
                    Ok(())
                } else {
                    Err(Error::NotSupported)
                }
            },
            _ => Err(Error::NotSupported),
        }
    }

    /// Checks that the kernel driver may be detached: only usbfs has one to detach.
    pub fn detach_kernel_driver(&self, interface: u8) -> (r: Result<(), Error>)
        ensures
            r is Ok <==> self.backend == Backend::Usbfs,
            r matches Err(e) ==> e == Error::NotSupported,
    {
        if self.backend == Backend::Usbfs {
            Ok(())
        } else {
            Err(Error::NotSupported)
        }
    }

    /// Checks that the kernel driver may be attached again: only usbfs has one.
    pub fn attach_kernel_driver(&self, interface: u8) -> (r: Result<(), Error>)
        ensures
            r is Ok <==> self.backend == Backend::Usbfs,
            r matches Err(e) ==> e == Error::NotSupported,
    {
        if self.backend == Backend::Usbfs {
            Ok(())
        } else {
            Err(Error::NotSupported)
        }
    }

    /// The GET_DESCRIPTOR control transfer that reads string descriptor `index`
    /// in language `lang_id` into `buffer`, with a one-second timeout.
    pub fn read_string_descriptor(&self, index: u8, lang_id: u16, buffer: &mut [u8]) -> (r: Result<
        ControlSubmission,
        Error,
    >)
        ensures
            final(buffer)@ == old(buffer)@,
            r == handle_control(
                self,
                string_descriptor_request(index, lang_id),
                Some(crate::descriptor::TransferDirection::In),
                old(buffer)@.len(),
                STRING_DESCRIPTOR_TIMEOUT_MS,
            ),
    {
        let request = ControlRequest {
            request_type: REQUEST_TYPE_STANDARD_DEVICE_IN,
            request: REQUEST_GET_DESCRIPTOR,
            value: 0x0300 + index as u16,
            index: lang_id,
        };
        let data = ControlTransferData::In(buffer);
        self.control_transfer(request, &data, STRING_DESCRIPTOR_TIMEOUT_MS)
    }

    /// Turns the reply to a `read_string_descriptor` submission in US English
    /// into text (see `parse_string_descriptor_ascii`).
    pub fn read_string_descriptor_ascii(&self, reply: &[u8]) -> (r: Result<String, Error>)
        ensures
            !moves_data(self.backend) ==> r == Err::<String, Error>(Error::NotSupported),
            moves_data(self.backend) ==> match r {
                Ok(s) => string_header_ok(reply@) && string_units_ascii(reply@) && s@
                    == string_text(reply@),
                Err(e) => e == Error::Unknown && !(string_header_ok(reply@) && string_units_ascii(
                    reply@,
                )),
            },
    {
        if self.backend == Backend::Unsupported {
            return Err(Error::NotSupported);
        }
        parse_string_descriptor_ascii(reply)
    }
}

/// The devices that an enumeration of the sysfs nodes yields: nodes without a
/// bus number or device address (interfaces) are skipped; the first bus
/// number or address that cannot be read ends the enumeration with its error.
pub open spec fn enumeration(nodes: Seq<SysfsAttributes>) -> Result<Seq<Device>, Error>
    decreases nodes.len(),
{
    if nodes.len() == 0 {
        Ok(Seq::empty())
    } else {
        match enumeration(nodes.drop_last()) {
            Err(e) => Err(e),
            Ok(found) => {
                let a = nodes.last();
                if !is_device_node(a) {
                    Ok(found)
                } else if attr_u16(a.busnum) is Err {
                    Err(attr_u16(a.busnum)->Err_0)
                } else if attr_u16(a.devnum) is Err {
                    Err(attr_u16(a.devnum)->Err_0)
                } else {
                    Ok(
                        found.push(
                            Device {
                                backend: Backend::Usbfs,
                                bus_number: attr_u16(a.busnum)->Ok_0,
                                address: attr_u16(a.devnum)->Ok_0,
                                source: DescriptorSource::Sysfs(a),
                            },
                        ),
                    )
                }
            },
        }
    }
}

/// Once a prefix of the nodes fails, the whole enumeration fails the same way.
proof fn lemma_enumeration_error_sticks(nodes: Seq<SysfsAttributes>, k: int)
    requires
        0 <= k <= nodes.len(),
        enumeration(nodes.take(k)) is Err,
    ensures
        enumeration(nodes) == enumeration(nodes.take(k)),
    decreases nodes.len() - k,
{
    if k < nodes.len() {
        assert(nodes.take(k + 1).drop_last() =~= nodes.take(k));
        lemma_enumeration_error_sticks(nodes, k + 1);
    } else {
        assert(nodes.take(k) =~= nodes);
    }
}

/// Enumerates the devices of the sysfs USB tree, given its nodes in directory order.
pub fn devices(nodes: Vec<SysfsAttributes>) -> (r: Result<DeviceList, Error>)
    ensures
        match enumeration(nodes@) {
            Ok(found) => (r matches Ok(list) && list.devices@ == found),
            Err(e) => r == Err::<DeviceList, Error>(e),
        },
{
    let ghost all = nodes@;
    let mut rest = nodes;
    let mut found: Vec<Device> = Vec::new();
    let mut k: usize = 0;
    let count = rest.len();
    while rest.len() > 0
        invariant
            k <= all.len(),
            all.len() == count,
            all == nodes@,
            rest@ == all.skip(k as int),
            enumeration(all.take(k as int)) == Ok::<Seq<Device>, Error>(found@),
        decreases rest@.len(),
    {
        let a = rest.remove(0);
        assert(all.take(k + 1).drop_last() =~= all.take(k as int));
        assert(all.take(k + 1).last() == a);
        assert(rest@ =~= all.skip(k + 1));
        if a.busnum.is_some() && a.devnum.is_some() {
            let bus_number = match read_u16_auto(&a.busnum) {
                Ok(v) => v,
                Err(e) => {
                    proof {
                        let t = all.take(k + 1);
                        assert(t.drop_last() =~= all.take(k as int));
                        assert(enumeration(t) == Err::<Seq<Device>, Error>(e));
                        lemma_enumeration_error_sticks(all, k + 1);
                        assert(enumeration(all) == Err::<Seq<Device>, Error>(e));
                    }
                    return Err(e);
                },
            };
            let address = match read_u16_auto(&a.devnum) {
                Ok(v) => v,
                Err(e) => {
                    proof {
                        let t = all.take(k + 1);
                        assert(t.drop_last() =~= all.take(k as int));
                        assert(enumeration(t) == Err::<Seq<Device>, Error>(e));
                        lemma_enumeration_error_sticks(all, k + 1);
                        assert(enumeration(all) == Err::<Seq<Device>, Error>(e));
                    }
                    return Err(e);
                },
            };
            found.push(
                Device {
                    backend: Backend::Usbfs,
                    bus_number,
                    address,
                    source: DescriptorSource::Sysfs(a),
                },
            );
        }
        k = k + 1;
    }
    assert(all.take(k as int) =~= all);
    Ok(DeviceList { devices: found })
}

/// Whether a device reports a descriptor with the vendor id and, unless the
/// list is empty, one of the product ids.
pub open spec fn matches_ids(d: &Device, vendor: u16, products: Seq<u16>) -> bool {
    match device_descriptor_spec(d) {
        Ok(desc) => desc.vendor_id == vendor && (products.len() == 0 || products.contains(
            desc.product_id,
        )),
        Err(_) => false,
    }
}

/// Whether device `i` is the first of the list that `matches_ids` accepts.
pub open spec fn is_first_match(devs: Seq<Device>, i: int, vendor: u16, products: Seq<u16>) -> bool {
    0 <= i < devs.len() && matches_ids(&devs[i], vendor, products) && forall|j: int|
        0 <= j < i ==> !matches_ids(&devs[j], vendor, products)
}

fn contains_id(ids: &[u16], id: u16) -> (r: bool)
    ensures
        r == ids@.contains(id),
{
    let mut i: usize = 0;
    while i < ids.len()
        invariant
            i <= ids@.len(),
            forall|j: int| 0 <= j < i ==> ids@[j] != id,
        decreases ids@.len() - i,
    {
        if ids[i] == id {
            return true;
        }
        i = i + 1;
    }
    false
}

impl DeviceList {
    /// Index of the first device whose descriptor carries the vendor id and,
    /// unless `products` is empty, one of the product ids. Devices whose
    /// descriptor cannot be read are passed over.
    pub fn find_first(&self, vendor: u16, products: &[u16]) -> (r: Option<usize>)
        ensures
            r matches Some(i) ==> i < self.devices@.len() && matches_ids(
                &self.devices@[i as int],
                vendor,
                products@,
            ) && forall|j: int| 0 <= j < i ==> !matches_ids(&self.devices@[j], vendor, products@),
            r is None ==> forall|j: int|
                0 <= j < self.devices@.len() ==> !matches_ids(&self.devices@[j], vendor, products@),
    {
        let mut i: usize = 0;
        while i < self.devices.len()
            invariant
                i <= self.devices@.len(),
                forall|j: int| 0 <= j < i ==> !matches_ids(&self.devices@[j], vendor, products@),
            decreases self.devices@.len() - i,
        {
            match self.devices[i].get_device_descriptor() {
                Ok(desc) => {
                    if desc.vendor_id == vendor && (products.len() == 0 || contains_id(
                        products,
                        desc.product_id,
                    )) {
                        return Some(i);
                    }
                },
                Err(_) => {},
            }
            i = i + 1;
        }
        None
    }
}

} // verus!
