use vstd::prelude::*;

use crate::descriptor::{direction_of, ControlRequest, TransferDirection};
use crate::error::Error;

verus! {

/// Largest payload of a control transfer.
pub const MAX_CONTROL_LENGTH: usize = 65535;
/// Largest length of a bulk or interrupt transfer.
pub const MAX_DATA_LENGTH: usize = 0xFFFF_FFFF;

/// Data payload of a control transfer.
pub enum ControlTransferData<'a> {
    /// No data stage.
    NoData,
    /// Device-to-host data stage, filling a caller-owned buffer.
    In(&'a mut [u8]),
    /// Host-to-device data stage, from a caller-owned buffer.
    Out(&'a [u8]),
}

impl<'a> ControlTransferData<'a> {
    /// Length of the data stage.
    pub open spec fn spec_len(&self) -> nat {
        match self {
            ControlTransferData::NoData => 0,
            ControlTransferData::In(b) => b@.len(),
            ControlTransferData::Out(b) => b@.len(),
        }
    }

    /// Direction of the data stage, if there is one.
    pub open spec fn spec_direction(&self) -> Option<TransferDirection> {
        match self {
            ControlTransferData::NoData => None,
            ControlTransferData::In(_) => Some(TransferDirection::In),
            ControlTransferData::Out(_) => Some(TransferDirection::Out),
        }
    }

    pub fn len(&self) -> (r: usize)
        ensures
            r == self.spec_len(),
    {
        match self {
            ControlTransferData::NoData => 0,
            ControlTransferData::In(buf) => buf.len(),
            ControlTransferData::Out(buf) => buf.len(),
        }
    }

    pub fn direction(&self) -> (r: Option<TransferDirection>)
        ensures
            r == self.spec_direction(),
    {
        match self {
            ControlTransferData::NoData => None,
            ControlTransferData::In(_) => Some(TransferDirection::In),
            ControlTransferData::Out(_) => Some(TransferDirection::Out),
        }
    }
}

/// Buffer of a bulk or interrupt transfer; the tag is its direction.
pub enum TransferBuffer<'a> {
    In(&'a mut [u8]),
    Out(&'a [u8]),
}

impl<'a> TransferBuffer<'a> {
    pub open spec fn spec_len(&self) -> nat {
        match self {
            TransferBuffer::In(b) => b@.len(),
            TransferBuffer::Out(b) => b@.len(),
        }
    }

    pub open spec fn spec_direction(&self) -> TransferDirection {
        match self {
            TransferBuffer::In(_) => TransferDirection::In,
            TransferBuffer::Out(_) => TransferDirection::Out,
        }
    }

    pub fn len(&self) -> (r: usize)
        ensures
            r == self.spec_len(),
    {
        match self {
            TransferBuffer::In(buf) => buf.len(),
            TransferBuffer::Out(buf) => buf.len(),
        }
    }

    pub fn direction(&self) -> (r: TransferDirection)
        ensures
            r == self.spec_direction(),
    {
        match self {
            TransferBuffer::In(_) => TransferDirection::In,
            TransferBuffer::Out(_) => TransferDirection::Out,
        }
    }
}

/// The 32-bit millisecond timeout of a duration given in milliseconds: zero
/// stays zero ("no timeout"), larger values saturate.
pub open spec fn timeout_of(millis: u128) -> u32 {
    if millis > u32::MAX as u128 {
        u32::MAX
    } else {
        millis as u32
    }
}

/// Maps a timeout in milliseconds to the 32-bit value that the host takes.
pub fn duration_to_timeout(millis: u128) -> (r: u32)
    ensures
        r == timeout_of(millis),
        millis == 0 ==> r == 0,
{
    if millis > u32::MAX as u128 {
        u32::MAX
    } else {
        millis as u32
    }
}

/// Narrows a length to 16 bits, failing when it does not fit.
pub fn usize_to_u16(value: usize) -> (r: Result<u16, Error>)
    ensures
        value <= u16::MAX ==> r == Ok::<u16, Error>(value as u16),
        value > u16::MAX ==> r == Err::<u16, Error>(Error::InvalidArgument),
{
    if value > u16::MAX as usize {
        Err(Error::InvalidArgument)
    } else {
        Ok(value as u16)
    }
}

/// Narrows a length to 32 bits, failing when it does not fit.
pub fn usize_to_u32(value: usize) -> (r: Result<u32, Error>)
    ensures
        value <= u32::MAX ==> r == Ok::<u32, Error>(value as u32),
        value > u32::MAX ==> r == Err::<u32, Error>(Error::InvalidArgument),
{
    if value as u128 > u32::MAX as u128 {
        Err(Error::InvalidArgument)
    } else {
        Ok(value as u32)
    }
}

/// The eight-byte setup packet of a control transfer.
#[derive(Debug, Clone, Copy, PartialEq, Eq, Structural)]
pub struct SetupPacket {
    pub request_type: u8,
    pub request: u8,
    pub value: u16,
    pub index: u16,
    pub length: u16,
}

/// The wire form of a setup packet: fields in order, 16-bit fields little-endian.
pub open spec fn setup_wire(p: SetupPacket) -> Seq<u8> {
    seq![
        p.request_type,
        p.request,
        (p.value % 256) as u8,
        (p.value / 256) as u8,
        (p.index % 256) as u8,
        (p.index / 256) as u8,
        (p.length % 256) as u8,
        (p.length / 256) as u8,
    ]
}

impl SetupPacket {
    /// The eight bytes that go on the wire.
    pub fn to_bytes(&self) -> (r: [u8; 8])
        ensures
            r@ == setup_wire(*self),
    {
        let r = [
            self.request_type,
            self.request,
            (self.value % 256) as u8,
            (self.value / 256) as u8,
            (self.index % 256) as u8,
            (self.index / 256) as u8,
            (self.length % 256) as u8,
            (self.length / 256) as u8,
        ];
        assert(r@ =~= setup_wire(*self));
        r
    }
}

/// A control transfer that passed the checks and is ready for the host.
#[derive(Debug, Clone, Copy, PartialEq, Eq, Structural)]
pub struct ControlSubmission {
    pub setup: SetupPacket,
    /// Timeout in milliseconds; zero means none.
    pub timeout_ms: u32,
}

/// Whether the data stage runs against the request type's direction bit.
pub open spec fn control_direction_mismatch(
    request: ControlRequest,
    data_direction: Option<TransferDirection>,
) -> bool {
    match data_direction {
        Some(d) => d != direction_of(request.request_type),
        None => false,
    }
}

/// The outcome of the checks on a control transfer.
pub open spec fn control_outcome(
    request: ControlRequest,
    data_direction: Option<TransferDirection>,
    len: nat,
    timeout_ms: u128,
) -> Result<ControlSubmission, Error> {
    if control_direction_mismatch(request, data_direction) {
        Err(Error::InvalidArgument)
    } else if len > MAX_CONTROL_LENGTH {
        Err(Error::InvalidArgument)
    } else {
        Ok(
            ControlSubmission {
                setup: SetupPacket {
                    request_type: request.request_type,
                    request: request.request,
                    value: request.value,
                    index: request.index,
                    length: len as u16,
                },
                timeout_ms: timeout_of(timeout_ms),
            },
        )
    }
}

/// Checks a control transfer before it reaches the host: the data stage must
/// agree with bit 7 of the request type, and its length must fit in 16 bits.
pub fn prepare_control(request: ControlRequest, data: &ControlTransferData, timeout_ms: u128) -> (r:
    Result<ControlSubmission, Error>)
    ensures
        r == control_outcome(request, data.spec_direction(), data.spec_len(), timeout_ms),
{
    if let Some(direction) = data.direction() {
        if direction != request.direction() {
            return Err(Error::InvalidArgument);
        }
    }
    let length = usize_to_u16(data.len())?;
    Ok(
        ControlSubmission {
            setup: SetupPacket {
                request_type: request.request_type,
                request: request.request,
                value: request.value,
                index: request.index,
                length,
            },
            timeout_ms: duration_to_timeout(timeout_ms),
        },
    )
}

/// One submission of a chunked transfer: where it starts in the buffer, and how long it is.
#[derive(Debug, Clone, Copy, PartialEq, Eq, Structural)]
pub struct Chunk {
    pub offset: usize,
    pub len: u32,
}

/// The bookkeeping of a bulk or interrupt transfer that the host performs in
/// submissions of at most `limit` bytes. It stops at the end of the buffer or
/// at the first short submission, the end-of-stream signal of a bulk endpoint.
#[derive(Debug, Clone, Copy, PartialEq, Eq, Structural)]
pub struct ChunkedTransfer {
    pub endpoint: u8,
    pub direction: TransferDirection,
    /// Timeout of each submission in milliseconds; zero means none.
    pub timeout_ms: u32,
    /// Length of the whole buffer.
    pub len: usize,
    /// Largest submission.
    pub limit: usize,
    /// Bytes transferred so far.
    pub total: usize,
    /// Set once a submission came back short.
    pub short: bool,
}

impl ChunkedTransfer {
    pub open spec fn wf(&self) -> bool {
        0 < self.limit <= u32::MAX && self.total <= self.len
    }

    /// Whether no further submission is due.
    pub open spec fn spec_done(&self) -> bool {
        self.short || self.total >= self.len
    }

    /// Length of the next submission.
    pub open spec fn spec_chunk_len(&self) -> int {
        if self.limit < self.len - self.total {
            self.limit as int
        } else {
            self.len - self.total
        }
    }

    /// Starts a transfer of `len` bytes in submissions of at most `limit` bytes.
    pub fn new(endpoint: u8, direction: TransferDirection, len: usize, limit: usize, timeout_ms: u32) -> (r:
        ChunkedTransfer)
        requires
            0 < limit <= u32::MAX,
        ensures
            r.wf(),
            r == (ChunkedTransfer {
                endpoint,
                direction,
                timeout_ms,
                len,
                limit,
                total: 0,
                short: false,
            }),
    {
        ChunkedTransfer { endpoint, direction, timeout_ms, len, limit, total: 0, short: false }
    }

    /// The next submission, or `None` once the transfer is over.
    pub fn next_chunk(&self) -> (r: Option<Chunk>)
        requires
            self.wf(),
        ensures
            self.spec_done() ==> r is None,
            !self.spec_done() ==> r == Some(
                Chunk { offset: self.total, len: self.spec_chunk_len() as u32 },
            ),
    {
        if self.short || self.total >= self.len {
            return None;
        }
        let remaining = self.len - self.total;
        let size = if self.limit < remaining {
            self.limit
        } else {
            remaining
        };
        Some(Chunk { offset: self.total, len: size as u32 })
    }

    /// Records what the host reported for the submission that `next_chunk` gave.
    /// A count above the submission's length is refused with `Unknown`.
    pub fn record(&mut self, transferred: usize) -> (r: Result<(), Error>)
        requires
            old(self).wf(),
            !old(self).spec_done(),
        ensures
            final(self).wf(),
            transferred > old(self).spec_chunk_len() ==> r == Err::<(), Error>(Error::Unknown)
                && *final(self) == *old(self),
            transferred <= old(self).spec_chunk_len() ==> r == Ok::<(), Error>(()) && *final(self)
                == (ChunkedTransfer {
                total: (old(self).total + transferred) as usize,
                short: transferred < old(self).spec_chunk_len(),
                ..*old(self)
            }),
    {
        let remaining = self.len - self.total;
        let size = if self.limit < remaining {
            self.limit
        } else {
            remaining
        };
        if transferred > size {
            return Err(Error::Unknown);
        }
        self.total = self.total + transferred;
        self.short = transferred < size;
        Ok(())
    }

    /// Whether the transfer is over.
    pub fn is_done(&self) -> (r: bool)
        ensures
            r == self.spec_done(),
    {
        self.short || self.total >= self.len
    }

    /// Bytes transferred so far; never more than the buffer's length.
    pub fn total(&self) -> (r: usize)
        requires
            self.wf(),
        ensures
            r == self.total,
            r <= self.len,
    {
        self.total
    }
}

} // verus!
