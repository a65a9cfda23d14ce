use vstd::prelude::*;

use crate::error::Error;

verus! {

/// The device-interface class of USB devices, `A5DCBF10-6530-11D2-901F-00C04FB951ED`.
pub const GUID_DEVINTERFACE_USB_DEVICE: u128 = 0xA5DCBF10_6530_11D2_901F_00C04FB951ED;

/// The pipe-policy timeout to set before a transfer: none for a zero timeout
/// (the policy is left alone), else the timeout saturated to 32 bits.
pub fn maybe_set_timeout(timeout_ms: u128) -> (r: Option<u32>)
    ensures
        timeout_ms == 0 ==> r is None,
        timeout_ms != 0 ==> r == Some(crate::transfer::timeout_of(timeout_ms)),
{
    if timeout_ms == 0 {
        None
    } else {
        Some(crate::transfer::duration_to_timeout(timeout_ms))
    }
}

/// Checks that a length fits the 32-bit lengths of WinUSB.
pub fn ensure_u32_len(len: usize) -> (r: Result<(), Error>)
    ensures
        len <= u32::MAX ==> r == Ok::<(), Error>(()),
        len > u32::MAX ==> r == Err::<(), Error>(Error::InvalidArgument),
{
    if len as u128 > u32::MAX as u128 {
        Err(Error::InvalidArgument)
    } else {
        Ok(())
    }
}

/// The device path in a wide-character buffer: everything before the first NUL.
pub fn device_path_from_wide(buf: &[u16]) -> (r: Vec<u16>)
    ensures
        r@.len() <= buf@.len(),
        r@ == buf@.take(r@.len() as int),
        forall|j: int| 0 <= j < r@.len() ==> #[trigger] r@[j] != 0,
        r@.len() < buf@.len() ==> buf@[r@.len() as int] == 0,
{
    let mut path: Vec<u16> = Vec::new();
    let mut i: usize = 0;
    while i < buf.len() && buf[i] != 0
        invariant
            i <= buf@.len(),
            path@ == buf@.take(i as int),
            forall|j: int| 0 <= j < i ==> #[trigger] buf@[j] != 0,
        decreases buf@.len() - i,
    {
        path.push(buf[i]);
        assert(buf@.take(i + 1) =~= buf@.take(i as int).push(buf@[i as int]));
        i = i + 1;
    }
    path
}

/// Highest associated-interface index that a claim asks WinUSB for.
pub const MAX_ASSOCIATED_INDEX: u16 = 255;

/// What the host does next while it looks for the WinUSB handle of an interface.
#[derive(Debug, Clone, Copy, PartialEq, Eq, Structural)]
pub enum SearchStep {
    /// The handle just queried is the interface's: keep it and record the claim.
    Take,
    /// Free the handle just queried (unless it is the initial one) and fetch
    /// the associated interface with this index.
    Fetch(u8),
    /// No handle serves the interface: the claim fails with `NotSupported`.
    NotFound,
}

/// The search for the handle of an interface on a composite device: first the
/// initial handle, then the associated interfaces 0, 1, ... up to index 255,
/// until one reports the interface number, or fetching one fails.
#[derive(Debug, Clone, Copy, PartialEq, Eq, Structural)]
pub struct InterfaceSearch {
    pub target: u8,
    /// Index of the next associated interface to fetch.
    pub next: u16,
}

impl InterfaceSearch {
    /// A search that starts with the initial handle.
    pub fn new(target: u8) -> (r: Self)
        ensures
            r == (InterfaceSearch { target, next: 0 }),
    {
        InterfaceSearch { target, next: 0 }
    }

    /// The step after a handle's settings were queried: `number` is the
    /// interface number it reported, `None` when the query failed.
    pub fn on_settings(&mut self, number: Option<u8>) -> (r: SearchStep)
        requires
            old(self).next <= MAX_ASSOCIATED_INDEX + 1,
        ensures
            final(self).target == old(self).target,
            final(self).next <= MAX_ASSOCIATED_INDEX + 1,
            number == Some(old(self).target) ==> r == SearchStep::Take && *final(self) == *old(
                self,
            ),
            number != Some(old(self).target) && old(self).next > MAX_ASSOCIATED_INDEX ==> r
                == SearchStep::NotFound && *final(self) == *old(self),
            number != Some(old(self).target) && old(self).next <= MAX_ASSOCIATED_INDEX ==> r
                == SearchStep::Fetch(old(self).next as u8) && final(self).next == old(self).next + 1,
    {
        match number {
            Some(n) => {
                if n == self.target {
                    return SearchStep::Take;
                }
            },
            None => {},
        }
        if self.next > MAX_ASSOCIATED_INDEX {
            return SearchStep::NotFound;
        }
        let index = self.next as u8;
        self.next = self.next + 1;
        SearchStep::Fetch(index)
    }

    /// The step after fetching an associated interface failed: there are no more.
    pub fn on_fetch_failed(&self) -> (r: SearchStep)
        ensures
            r == SearchStep::NotFound,
    {
        SearchStep::NotFound
    }
}

} // verus!
