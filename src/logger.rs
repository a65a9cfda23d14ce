use vstd::prelude::*;

use crate::descriptor::TransferDirection;
use crate::device::{data_outcome, DeviceHandle};
use crate::error::Error;
use crate::text::push_char;
use crate::transfer::{ChunkedTransfer, TransferBuffer};

verus! {

/// Timeout of the logged reads and writes, in milliseconds.
pub const LOGGER_TIMEOUT_MS: u128 = 500;

/// The label of a log line.
#[derive(Debug, Clone, Copy, PartialEq, Eq, Structural)]
pub enum LogLabel {
    /// Bytes written to the device.
    Tx,
    /// Bytes read from the device.
    Rx,
    /// A control transfer.
    Ctrl,
}

pub open spec fn label_text(l: LogLabel) -> Seq<char> {
    match l {
        LogLabel::Tx => seq!['T', 'X'],
        LogLabel::Rx => seq!['R', 'X'],
        LogLabel::Ctrl => seq!['C', 'T', 'R', 'L'],
    }
}

pub open spec fn decimal_digit(n: u64) -> char {
    ((n + 48) as u8) as char
}

/// The decimal digits of a number, without leading zeros.
pub open spec fn decimal(n: u64) -> Seq<char>
    decreases n,
{
    if n < 10 {
        seq![decimal_digit(n)]
    } else {
        decimal(n / 10).push(decimal_digit(n % 10))
    }
}

/// An upper-case hex digit.
pub open spec fn hex_digit(n: u8) -> char {
    if n < 10 {
        ((n + 48) as u8) as char
    } else {
        ((n + 55) as u8) as char
    }
}

/// Each byte as two upper-case hex digits and a space.
pub open spec fn hex_dump(d: Seq<u8>) -> Seq<char>
    decreases d.len(),
{
    if d.len() == 0 {
        Seq::empty()
    } else {
        hex_dump(d.drop_last()) + seq![hex_digit(d.last() / 16), hex_digit(d.last() % 16), ' ']
    }
}

/// A log line: `[LABEL] SECONDS.MMM: XX XX \n`.
pub open spec fn log_line(label: LogLabel, secs: u64, millis: u16, data: Seq<u8>) -> Seq<char> {
    seq!['['] + label_text(label) + seq![']', ' '] + decimal(secs) + seq![
        '.',
        decimal_digit((millis / 100) as u64),
        decimal_digit(((millis / 10) % 10) as u64),
        decimal_digit((millis % 10) as u64),
        ':',
        ' ',
    ] + hex_dump(data) + seq!['\n']
}

fn digit_char(n: u64) -> (c: char)
    requires
        n < 10,
    ensures
        c == decimal_digit(n),
{
    ((n + 48) as u8) as char
}

fn hex_char(n: u8) -> (c: char)
    requires
        n < 16,
    ensures
        c == hex_digit(n),
{
    if n < 10 {
        ((n + 48) as u8) as char
    } else {
        ((n + 55) as u8) as char
    }
}

fn push_decimal(s: &mut String, n: u64)
    ensures
        final(s)@ == old(s)@ + decimal(n),
    decreases n,
{
    if n >= 10 {
        push_decimal(s, n / 10);
    }
    push_char(s, digit_char(n % 10));
    assert(final(s)@ =~= old(s)@ + decimal(n));
}

/// Formats the log line of a transfer at `secs` seconds and `millis`
/// milliseconds past the epoch.
pub fn log_frame(label: LogLabel, secs: u64, millis: u16, data: &[u8]) -> (r: String)
    requires
        millis < 1000,
    ensures
        r@ == log_line(label, secs, millis, data@),
{
    let r = log_line_for(label, secs, millis, data, data.len());
    assert(data@.take(data@.len() as int) =~= data@);
    r
}

/// Formats the log line of a transfer that moved the first `n` bytes of `data`.
pub fn log_line_for(label: LogLabel, secs: u64, millis: u16, data: &[u8], n: usize) -> (r: String)
    requires
        millis < 1000,
        n <= data@.len(),
    ensures
        r@ == log_line(label, secs, millis, data@.take(n as int)),
{
    let mut s = String::new();
    push_char(&mut s, '[');
    match label {
        LogLabel::Tx => {
            push_char(&mut s, 'T');
            push_char(&mut s, 'X');
        },
        LogLabel::Rx => {
            push_char(&mut s, 'R');
            push_char(&mut s, 'X');
        },
        LogLabel::Ctrl => {
            push_char(&mut s, 'C');
            push_char(&mut s, 'T');
            push_char(&mut s, 'R');
            push_char(&mut s, 'L');
        },
    }
    push_char(&mut s, ']');
    push_char(&mut s, ' ');
    push_decimal(&mut s, secs);
    push_char(&mut s, '.');
    push_char(&mut s, digit_char((millis / 100) as u64));
    push_char(&mut s, digit_char(((millis / 10) % 10) as u64));
    push_char(&mut s, digit_char((millis % 10) as u64));
    push_char(&mut s, ':');
    push_char(&mut s, ' ');
    let ghost head = s@;
    let mut i: usize = 0;
    while i < n
        invariant
            n <= data@.len(),
            i <= n,
            s@ == head + hex_dump(data@.take(i as int)),
        decreases n - i,
    {
        let b = data[i];
        assert(data@.take(i + 1).drop_last() =~= data@.take(i as int));
        assert(data@.take(i + 1).last() == b);
        push_char(&mut s, hex_char(b / 16));
        push_char(&mut s, hex_char(b % 16));
        push_char(&mut s, ' ');
        assert(s@ =~= head + hex_dump(data@.take(i + 1)));
        i = i + 1;
    }
    push_char(&mut s, '\n');
    assert(s@ =~= log_line(label, secs, millis, data@.take(n as int)));
    s
}

/// Logs bulk transfers on a pair of endpoints. The host keeps the sink and
/// writes one line (`tx_line`, `rx_line`) for each transfer that succeeded.
pub struct ChannelLogger {
    pub handle: DeviceHandle,
    pub in_ep: u8,
    pub out_ep: u8,
}

impl ChannelLogger {
    pub fn new(handle: DeviceHandle, in_ep: u8, out_ep: u8) -> (r: Self)
        ensures
            r.handle == handle,
            r.in_ep == in_ep,
            r.out_ep == out_ep,
    {
        ChannelLogger { handle, in_ep, out_ep }
    }

    /// A bulk write of `data` to the OUT endpoint; once it succeeded the host
    /// writes the `tx_line` of the bytes sent to the sink.
    pub fn write(&self, data: &[u8]) -> (r: Result<ChunkedTransfer, Error>)
        ensures
            r == data_outcome(
                &self.handle,
                self.out_ep,
                TransferDirection::Out,
                data@.len(),
                LOGGER_TIMEOUT_MS,
            ),
    {
        self.handle.bulk_transfer(self.out_ep, &TransferBuffer::Out(data), LOGGER_TIMEOUT_MS)
    }

    /// A bulk read into `buf` from the IN endpoint; once it succeeded the host
    /// writes the `rx_line` of the bytes received to the sink.
    pub fn read(&self, buf: &mut [u8]) -> (r: Result<ChunkedTransfer, Error>)
        ensures
            final(buf)@ == old(buf)@,
            r == data_outcome(
                &self.handle,
                self.in_ep,
                TransferDirection::In,
                old(buf)@.len(),
                LOGGER_TIMEOUT_MS,
            ),
    {
        let buffer = TransferBuffer::In(buf);
        self.handle.bulk_transfer(self.in_ep, &buffer, LOGGER_TIMEOUT_MS)
    }

    /// The line that logs a write which sent `written` bytes of `data`: the
    /// host writes it to the sink once the write succeeded.
    pub fn tx_line(&self, data: &[u8], written: usize, secs: u64, millis: u16) -> (r: String)
        requires
            written <= data@.len(),
            millis < 1000,
        ensures
            r@ == log_line(LogLabel::Tx, secs, millis, data@.take(written as int)),
    {
        log_line_for(LogLabel::Tx, secs, millis, data, written)
    }

    /// The line that logs a read which filled the first `len` bytes of `buf`:
    /// the host writes it to the sink once the read succeeded.
    pub fn rx_line(&self, buf: &[u8], len: usize, secs: u64, millis: u16) -> (r: String)
        requires
            len <= buf@.len(),
            millis < 1000,
        ensures
            r@ == log_line(LogLabel::Rx, secs, millis, buf@.take(len as int)),
    {
        log_line_for(LogLabel::Rx, secs, millis, buf, len)
    }

    /// Gives the handle back.
    pub fn into_handle(self) -> (r: DeviceHandle)
        ensures
            r == self.handle,
    {
        self.handle
    }
}

} // verus!
