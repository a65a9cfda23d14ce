use vstd::prelude::*;

use crate::error::Error;

verus! {

/// Frame boundary.
pub const SLIP_END: u8 = 0xC0;
/// Escape byte.
pub const SLIP_ESC: u8 = 0xDB;
/// Escaped form of a boundary byte (after `SLIP_ESC`).
pub const SLIP_ESC_END: u8 = 0xDC;
/// Escaped form of an escape byte (after `SLIP_ESC`).
pub const SLIP_ESC_ESC: u8 = 0xDD;

/// The bytes that stand for one payload byte inside a frame.
pub open spec fn escape_byte(b: u8) -> Seq<u8> {
    if b == SLIP_END {
        seq![SLIP_ESC, SLIP_ESC_END]
    } else if b == SLIP_ESC {
        seq![SLIP_ESC, SLIP_ESC_ESC]
    } else {
        seq![b]
    }
}

/// The escaped form of a payload.
pub open spec fn escape(p: Seq<u8>) -> Seq<u8>
    decreases p.len(),
{
    if p.len() == 0 {
        Seq::empty()
    } else {
        escape(p.drop_last()) + escape_byte(p.last())
    }
}

/// A SLIP frame: a boundary, the escaped payload, a boundary.
pub open spec fn slip_frame(p: Seq<u8>) -> Seq<u8> {
    seq![SLIP_END] + escape(p) + seq![SLIP_END]
}

/// Wraps a payload in a SLIP frame.
pub fn slip_encode(payload: &[u8]) -> (r: Vec<u8>)
    ensures
        r@ == slip_frame(payload@),
{
    let mut frame: Vec<u8> = Vec::new();
    frame.push(SLIP_END);
    let mut i: usize = 0;
    while i < payload.len()
        invariant
            i <= payload@.len(),
            frame@ == seq![SLIP_END] + escape(payload@.take(i as int)),
        decreases payload@.len() - i,
    {
        let b = payload[i];
        assert(payload@.take(i + 1).drop_last() =~= payload@.take(i as int));
        assert(payload@.take(i + 1).last() == b);
        if b == SLIP_END {
            frame.push(SLIP_ESC);
            frame.push(SLIP_ESC_END);
        } else if b == SLIP_ESC {
            frame.push(SLIP_ESC);
            frame.push(SLIP_ESC_ESC);
        } else {
            frame.push(b);
        }
        assert(frame@ =~= seq![SLIP_END] + escape(payload@.take(i + 1)));
        i = i + 1;
    }
    assert(payload@.take(i as int) =~= payload@);
    frame.push(SLIP_END);
    assert(frame@ =~= slip_frame(payload@));
    frame
}

/// The state of a SLIP decoder between two bytes.
pub struct SlipState {
    pub packet: Seq<u8>,
    pub escaped: bool,
    pub started: bool,
}

/// What a decoder makes of some bytes.
pub enum SlipRun {
    /// A frame ended; its payload.
    Done(Seq<u8>),
    /// An escape byte was followed by a byte that cannot follow it.
    Fail,
    /// No frame ended yet; the state afterwards.
    Pending(SlipState),
}

/// The decoder's step on one byte. A boundary starts the first frame and the
/// next boundary ends it, whatever it holds. Bytes before the first boundary
/// are dropped.
pub open spec fn slip_step(st: SlipState, b: u8) -> SlipRun {
    if b == SLIP_END {
        if st.started {
            SlipRun::Done(st.packet)
        } else {
            SlipRun::Pending(SlipState { started: true, ..st })
        }
    } else if b == SLIP_ESC {
        SlipRun::Pending(SlipState { escaped: true, ..st })
    } else if st.escaped {
        if b == SLIP_ESC_END {
            SlipRun::Pending(SlipState { packet: st.packet.push(SLIP_END), escaped: false, ..st })
        } else if b == SLIP_ESC_ESC {
            SlipRun::Pending(SlipState { packet: st.packet.push(SLIP_ESC), escaped: false, ..st })
        } else {
            SlipRun::Fail
        }
    } else if st.started {
        SlipRun::Pending(SlipState { packet: st.packet.push(b), ..st })
    } else {
        SlipRun::Pending(st)
    }
}

/// The decoder run over some bytes, first to last, stopping at the first frame.
pub open spec fn slip_run(st: SlipState, bytes: Seq<u8>) -> SlipRun
    decreases bytes.len(),
{
    if bytes.len() == 0 {
        SlipRun::Pending(st)
    } else {
        match slip_step(st, bytes[0]) {
            SlipRun::Pending(next) => slip_run(next, bytes.drop_first()),
            other => other,
        }
    }
}

/// A decoder that has seen nothing.
pub open spec fn slip_fresh() -> SlipState {
    SlipState { packet: Seq::empty(), escaped: false, started: false }
}

/// What a fresh decoder makes of a whole byte sequence.
pub open spec fn slip_decode_spec(bytes: Seq<u8>) -> SlipRun {
    slip_run(slip_fresh(), bytes)
}

/// A SLIP decoder that takes bytes as they arrive.
pub struct SlipDecoder {
    pub packet: Vec<u8>,
    pub escaped: bool,
    pub started: bool,
}

impl View for SlipDecoder {
    type V = SlipState;

    open spec fn view(&self) -> SlipState {
        SlipState { packet: self.packet@, escaped: self.escaped, started: self.started }
    }
}

impl SlipDecoder {
    /// A decoder that has seen nothing.
    pub fn new() -> (r: SlipDecoder)
        ensures
            r@ == slip_fresh(),
    {
        SlipDecoder { packet: Vec::new(), escaped: false, started: false }
    }

    /// Feeds received bytes. Returns the payload of the first frame that ends
    /// in them (the bytes after it are not looked at), `None` when no frame
    /// ended yet, and `Unknown` on an escape byte followed by anything but
    /// 0xDC or 0xDD.
    pub fn feed(&mut self, chunk: &[u8]) -> (r: Result<Option<Vec<u8>>, Error>)
        ensures
            match slip_run(old(self)@, chunk@) {
                SlipRun::Done(p) => (r matches Ok(Some(v)) && v@ == p),
                SlipRun::Fail => r == Err::<Option<Vec<u8>>, Error>(Error::Unknown),
                SlipRun::Pending(st) => r == Ok::<Option<Vec<u8>>, Error>(None) && final(self)@
                    == st,
            },
    {
        let mut i: usize = 0;
        assert(chunk@.skip(0) =~= chunk@);
        while i < chunk.len()
            invariant
                i <= chunk@.len(),
                slip_run(old(self)@, chunk@) == slip_run(self@, chunk@.skip(i as int)),
            decreases chunk@.len() - i,
        {
            let b = chunk[i];
            assert(chunk@.skip(i as int)[0] == b);
            assert(chunk@.skip(i as int).drop_first() =~= chunk@.skip(i + 1));
            if b == SLIP_END {
                if self.started {
                    let mut done: Vec<u8> = Vec::new();
                    std::mem::swap(&mut done, &mut self.packet);
                    return Ok(Some(done));
                } else {
                    self.started = true;
                }
            } else if b == SLIP_ESC {
                self.escaped = true;
            } else if self.escaped {
                if b == SLIP_ESC_END {
                    self.packet.push(SLIP_END);
                } else if b == SLIP_ESC_ESC {
                    self.packet.push(SLIP_ESC);
                } else {
                    return Err(Error::Unknown);
                }
                self.escaped = false;
            } else if self.started {
                self.packet.push(b);
            }
            i = i + 1;
        }
        assert(chunk@.skip(i as int) =~= Seq::<u8>::empty());
        Ok(None)
    }
}

/// Decodes the first frame of a byte sequence with a fresh decoder.
pub fn slip_decode(bytes: &[u8]) -> (r: Result<Option<Vec<u8>>, Error>)
    ensures
        match slip_decode_spec(bytes@) {
            SlipRun::Done(p) => (r matches Ok(Some(v)) && v@ == p),
            SlipRun::Fail => r == Err::<Option<Vec<u8>>, Error>(Error::Unknown),
            SlipRun::Pending(_) => r == Ok::<Option<Vec<u8>>, Error>(None),
        },
{
    let mut decoder = SlipDecoder::new();
    decoder.feed(bytes)
}

/// Running the decoder over two pieces is running it over the first, then
/// over the second from where the first left it.
pub proof fn lemma_slip_run_append(st: SlipState, a: Seq<u8>, b: Seq<u8>)
    ensures
        slip_run(st, a + b) == match slip_run(st, a) {
            SlipRun::Pending(next) => slip_run(next, b),
            other => other,
        },
    decreases a.len(),
{
    if a.len() == 0 {
        assert(a + b =~= b);
    } else {
        assert((a + b)[0] == a[0]);
        assert((a + b).drop_first() =~= a.drop_first() + b);
        match slip_step(st, a[0]) {
            SlipRun::Pending(next) => {
                lemma_slip_run_append(next, a.drop_first(), b);
            },
            _ => {},
        }
    }
}

/// Inside a started frame, an escaped payload appends itself to the packet.
proof fn lemma_slip_escaped_payload(q: Seq<u8>, p: Seq<u8>)
    ensures
        slip_run(SlipState { packet: q, escaped: false, started: true }, escape(p))
            == SlipRun::Pending(SlipState { packet: q + p, escaped: false, started: true }),
    decreases p.len(),
{
    let st = SlipState { packet: q, escaped: false, started: true };
    if p.len() == 0 {
        assert(q + p =~= q);
    } else {
        let front = p.drop_last();
        let b = p.last();
        lemma_slip_escaped_payload(q, front);
        lemma_slip_run_append(st, escape(front), escape_byte(b));
        let mid = SlipState { packet: q + front, escaped: false, started: true };
        let e = escape_byte(b);
        let done = SlipState { packet: (q + front).push(b), escaped: false, started: true };
        if b == SLIP_END || b == SLIP_ESC {
            let m1 = SlipState { escaped: true, ..mid };
            assert(e.drop_first() =~= seq![e[1]]);
            assert(e.drop_first().drop_first() =~= Seq::<u8>::empty());
            assert(slip_step(mid, e[0]) == SlipRun::Pending(m1));
            assert(slip_step(m1, e[1]) == SlipRun::Pending(done));
            assert(slip_run(done, e.drop_first().drop_first()) == SlipRun::Pending(done));
            assert(slip_run(m1, e.drop_first()) == SlipRun::Pending(done));
            assert(slip_run(mid, e) == SlipRun::Pending(done));
        } else {
            assert(e.drop_first() =~= Seq::<u8>::empty());
            assert(slip_step(mid, e[0]) == SlipRun::Pending(done));
            assert(slip_run(done, e.drop_first()) == SlipRun::Pending(done));
            assert(slip_run(mid, e) == SlipRun::Pending(done));
        }
        assert((q + front).push(b) =~= q + p);
    }
}

/// Decoding an encoded payload gives the payload back, for every byte sequence.
pub proof fn lemma_slip_round_trip(p: Seq<u8>)
    ensures
        slip_decode_spec(slip_frame(p)) == SlipRun::Done(p),
{
    let started = SlipState { packet: Seq::empty(), escaped: false, started: true };
    let head = seq![SLIP_END];
    let tail = seq![SLIP_END];
    assert(slip_frame(p) == head + escape(p) + tail);
    lemma_slip_run_append(slip_fresh(), head + escape(p), tail);
    lemma_slip_run_append(slip_fresh(), head, escape(p));
    assert(head.drop_first() =~= Seq::<u8>::empty());
    assert(head[0] == SLIP_END);
    assert(slip_step(slip_fresh(), SLIP_END) == SlipRun::Pending(started));
    assert(slip_run(started, head.drop_first()) == SlipRun::Pending(started));
    assert(slip_run(slip_fresh(), head) == SlipRun::Pending(started));
    lemma_slip_escaped_payload(Seq::empty(), p);
    assert(Seq::<u8>::empty() + p =~= p);
    assert(tail.drop_first() =~= Seq::<u8>::empty());
    assert(tail[0] == SLIP_END);
    let full = SlipState { packet: p, escaped: false, started: true };
    assert(slip_step(full, SLIP_END) == SlipRun::Done(p));
}

} // verus!
