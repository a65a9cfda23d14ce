use vstd::prelude::*;

use crate::error::Error;

verus! {

/// Wildcard of an interface-iterator filter field.
pub const K_IOUSB_FIND_INTERFACE_DONT_CARE: u16 = 0xFFFF;
/// IOReturn of success.
pub const K_IO_RETURN_SUCCESS: i32 = 0;

/// The filter of an IOKit interface iterator.
#[derive(Debug, Clone, Copy, PartialEq, Eq, Structural)]
pub struct IOUSBFindInterfaceRequest {
    pub interface_class: u16,
    pub interface_subclass: u16,
    pub interface_protocol: u16,
    pub alternate_setting: u16,
}

impl IOUSBFindInterfaceRequest {
    /// A filter that matches every interface.
    pub fn dont_care() -> (r: Self)
        ensures
            r.interface_class == K_IOUSB_FIND_INTERFACE_DONT_CARE,
            r.interface_subclass == K_IOUSB_FIND_INTERFACE_DONT_CARE,
            r.interface_protocol == K_IOUSB_FIND_INTERFACE_DONT_CARE,
            r.alternate_setting == K_IOUSB_FIND_INTERFACE_DONT_CARE,
    {
        IOUSBFindInterfaceRequest {
            interface_class: K_IOUSB_FIND_INTERFACE_DONT_CARE,
            interface_subclass: K_IOUSB_FIND_INTERFACE_DONT_CARE,
            interface_protocol: K_IOUSB_FIND_INTERFACE_DONT_CARE,
            alternate_setting: K_IOUSB_FIND_INTERFACE_DONT_CARE,
        }
    }
}

/// Both timeouts of an IOKit request (no-data and completion), in
/// milliseconds: the caller's timeout, saturated to 32 bits; zero means none.
pub fn timeout_components(timeout_ms: u128) -> (r: (u32, u32))
    ensures
        r.0 == crate::transfer::timeout_of(timeout_ms),
        r.1 == r.0,
{
    let millis = crate::transfer::duration_to_timeout(timeout_ms);
    (millis, millis)
}

/// Translates an IOReturn code.
pub fn io_result(code: i32) -> (r: Result<(), Error>)
    ensures
        code == K_IO_RETURN_SUCCESS ==> r == Ok::<(), Error>(()),
        code != K_IO_RETURN_SUCCESS ==> r == Err::<(), Error>(Error::Io(code)),
{
    if code == K_IO_RETURN_SUCCESS {
        Ok(())
    } else {
        Err(Error::Io(code))
    }
}

/// Direction and number of one pipe of an interface, as its properties give them.
#[derive(Debug, Clone, Copy, PartialEq, Eq, Structural)]
pub struct PipeProperties {
    /// Zero for OUT, anything else for IN.
    pub direction: u8,
    pub number: u8,
}

/// The endpoint address of a pipe: its number with bit 7 set for IN.
pub open spec fn pipe_address(p: PipeProperties) -> u8 {
    p.number | (if p.direction != 0 { 0x80u8 } else { 0u8 })
}

/// The pipe reference of an endpoint address: pipes are numbered from 1 in
/// the order of `pipes` (at most 255 of them count); `NotSupported` when no
/// pipe has that address.
pub fn get_pipe_ref(pipes: &[PipeProperties], endpoint: u8) -> (r: Result<u8, Error>)
    ensures
        r matches Ok(i) ==> 1 <= i <= pipes@.len() && pipe_address(pipes@[i - 1]) == endpoint
            && forall|j: int| 0 <= j < i - 1 ==> pipe_address(#[trigger] pipes@[j]) != endpoint,
        r is Err ==> r == Err::<u8, Error>(Error::NotSupported) && forall|j: int|
            0 <= j < pipes@.len() && j < 255 ==> pipe_address(#[trigger] pipes@[j]) != endpoint,
{
    let mut i: usize = 0;
    while i < pipes.len() && i < 255
        invariant
            i <= pipes@.len(),
            i <= 255,
            forall|j: int| 0 <= j < i ==> pipe_address(#[trigger] pipes@[j]) != endpoint,
        decreases pipes@.len() - i,
    {
        let p = pipes[i];
        let address = p.number | (if p.direction != 0 {
            0x80u8
        } else {
            0u8
        });
        if address == endpoint {
            return Ok((i + 1) as u8);
        }
        i = i + 1;
    }
    Err(Error::NotSupported)
}

} // verus!
