//! The retained output of one stream of a process, and the cursors that address it.
//!
//! One ring serves both the reads that drain it and the reads that start at a cursor: whoever
//! drains first consumes the bytes.

use std::collections::VecDeque;

use vstd::prelude::*;

use crate::digits::{digits_of, lemma_digits_of, lemma_value_of_digits, power};
use crate::numbers::{digit_value, digit_values, parse_number, parsed};
use crate::process::types::{ErrorCode, LogCursor};

verus! {

/// The largest offset in a stream.
pub const MAX_STREAM_OFFSET: u64 = 0xffff_ffff_ffff_ffff;

/// What a full ring does with more bytes.
#[derive(Debug, Clone, Copy, PartialEq, Eq, Structural)]
pub enum Overflow {
    /// Drops the oldest bytes to make room.
    DropOldest,
    /// Takes nothing, so that the child blocks on its next write.
    Backpressure,
}

/// The retained output of one stream.
///
/// `front_offset` is the absolute offset of the oldest retained byte. It moves on when bytes are
/// evicted and when they are drained, so a cursor that points below it has missed bytes.
/// `overflow_dropped` counts evicted bytes only.
pub struct LogRing {
    buf: VecDeque<u8>,
    front_offset: u64,
    overflow_dropped: u64,
    cap: usize,
    overflow: Overflow,
}

/// A ring as a value: the retained bytes, the absolute offset of the first of them, how many
/// bytes were evicted, and what the ring was made with.
pub struct RingView {
    pub bytes: Seq<u8>,
    pub front: int,
    pub dropped: int,
    pub cap: int,
    pub overflow: Overflow,
}

impl RingView {
    /// The absolute offset one past the newest byte.
    pub open spec fn end(self) -> int {
        self.front + self.bytes.len()
    }

    /// Whether the ring takes `chunk`.
    pub open spec fn takes(self, chunk: Seq<u8>) -> bool {
        self.overflow is DropOldest || self.bytes.len() + chunk.len() <= self.cap
    }

    /// The ring after `chunk` was offered to it.
    pub open spec fn pushed(self, chunk: Seq<u8>) -> RingView {
        let all = self.bytes + chunk;
        if !self.takes(chunk) {
            self
        } else if all.len() > self.cap {
            let excess = all.len() - self.cap;
            RingView {
                bytes: all.skip(excess),
                front: self.front + excess,
                dropped: self.dropped + excess,
                ..self
            }
        } else {
            RingView { bytes: all, ..self }
        }
    }

    /// The ring after everything in it was drained.
    pub open spec fn drained(self) -> RingView {
        RingView { bytes: Seq::empty(), front: self.end(), ..self }
    }

    /// The offset at which a read from `cursor` begins.
    pub open spec fn start(self, cursor: Option<u64>) -> int {
        match cursor {
            None => self.front,
            Some(at) => if at < self.front {
                self.front
            } else if at > self.end() {
                self.end()
            } else {
                at as int
            },
        }
    }

    /// The offset at which a read of at most `max` bytes from `cursor` ends.
    pub open spec fn stop(self, cursor: Option<u64>, max: int) -> int {
        if self.end() - self.start(cursor) <= max {
            self.end()
        } else {
            self.start(cursor) + max
        }
    }

    /// How many bytes below the front a reader at `cursor` has missed.
    pub open spec fn missed(self, cursor: Option<u64>) -> int {
        match cursor {
            Some(at) if at < self.front => self.front - at,
            _ => 0,
        }
    }

    /// The bytes between two absolute offsets.
    pub open spec fn between(self, from: int, to: int) -> Seq<u8> {
        self.bytes.subrange(from - self.front, to - self.front)
    }

    /// The ring never holds more than it may, never evicted more than it moved on, and under
    /// back pressure evicted nothing. Its offsets are in range.
    pub open spec fn valid(self) -> bool {
        &&& 0 <= self.bytes.len() <= self.cap
        &&& 0 <= self.dropped <= self.front
        &&& self.end() <= MAX_STREAM_OFFSET
        &&& self.overflow is Backpressure ==> self.dropped == 0
    }

    /// The ring holds the end of `history`, and its offsets are positions in `history`.
    pub open spec fn holds_tail_of(self, history: Seq<u8>) -> bool {
        &&& 0 <= self.front
        &&& self.end() == history.len()
        &&& self.bytes == history.skip(self.front)
    }
}

impl View for LogRing {
    type V = RingView;

    closed spec fn view(&self) -> RingView {
        RingView {
            bytes: self.buf@,
            front: self.front_offset as int,
            dropped: self.overflow_dropped as int,
            cap: self.cap as int,
            overflow: self.overflow,
        }
    }
}

impl LogRing {
    #[verifier::type_invariant]
    spec fn consistent(&self) -> bool {
        &&& self.buf@.len() <= self.cap
        &&& self.overflow_dropped <= self.front_offset
        &&& self.overflow is Backpressure ==> self.overflow_dropped == 0
        &&& self.front_offset + self.buf@.len() <= MAX_STREAM_OFFSET
    }

    /// An empty ring.
    pub fn new(cap: usize, overflow: Overflow) -> (ring: Self)
        ensures
            ring@ == (RingView {
                bytes: Seq::empty(),
                front: 0,
                dropped: 0,
                cap: cap as int,
                overflow,
            }),
            ring@.valid(),
    {
        LogRing { buf: VecDeque::new(), front_offset: 0, overflow_dropped: 0, cap, overflow }
    }

    /// How many bytes are retained.
    pub fn len(&self) -> (n: usize)
        ensures
            n == self@.bytes.len(),
    {
        self.buf.len()
    }

    /// The absolute offset of the oldest retained byte.
    pub fn front_offset(&self) -> (offset: u64)
        ensures
            offset == self@.front,
            self@.valid(),
    {
        proof {
            use_type_invariant(self);
        }
        self.front_offset
    }

    /// How many bytes were evicted.
    pub fn overflow_dropped(&self) -> (n: u64)
        ensures
            n == self@.dropped,
            self@.valid(),
    {
        proof {
            use_type_invariant(self);
        }
        self.overflow_dropped
    }

    /// The absolute offset one past the newest byte.
    pub fn end_offset(&self) -> (offset: u64)
        ensures
            offset == self@.end(),
    {
        proof {
            use_type_invariant(self);
        }
        self.front_offset + self.buf.len() as u64
    }

    /// Appends `bytes`. A ring that drops the oldest always accepts; a ring under back pressure
    /// accepts the whole of `bytes` or nothing.
    pub fn push(&mut self, bytes: &[u8]) -> (accepted: bool)
        requires
            old(self)@.takes(bytes@) ==> old(self)@.end() + bytes@.len() <= MAX_STREAM_OFFSET,
        ensures
            accepted == old(self)@.takes(bytes@),
            final(self)@ == old(self)@.pushed(bytes@),
            final(self)@.valid(),
    {
        proof {
            use_type_invariant(&*self);
        }
        let cap: usize = self.cap;
        match self.overflow {
            Overflow::Backpressure => {
                if bytes.len() > cap - self.buf.len() {
                    return false;
                }
            },
            Overflow::DropOldest => {},
        }
        let mut buf: VecDeque<u8> = VecDeque::new();
        std::mem::swap(&mut buf, &mut self.buf);
        let ghost before = buf@;
        let mut i: usize = 0;
        while i < bytes.len()
            invariant
                i <= bytes@.len(),
                buf@ == before + bytes@.take(i as int),
            decreases bytes.len() - i,
        {
            buf.push_back(bytes[i]);
            i += 1;
        }
        assert(buf@ =~= before + bytes@);
        if buf.len() > cap {
            let excess: usize = buf.len() - cap;
            let kept = buf.split_off(excess);
            assert(kept@ =~= (before + bytes@).skip(excess as int));
            let front: u64 = self.front_offset + excess as u64;
            let dropped: u64 = self.overflow_dropped + excess as u64;
            *self = LogRing {
                buf: kept,
                front_offset: front,
                overflow_dropped: dropped,
                cap,
                overflow: self.overflow,
            };
        } else {
            self.buf = buf;
        }
        true
    }

    /// Takes all retained bytes out.
    pub fn drain(&mut self) -> (out: Vec<u8>)
        ensures
            out@ == old(self)@.bytes,
            final(self)@ == old(self)@.drained(),
            final(self)@.valid(),
    {
        proof {
            use_type_invariant(&*self);
        }
        let front: u64 = self.front_offset + self.buf.len() as u64;
        let mut buf: VecDeque<u8> = VecDeque::new();
        std::mem::swap(&mut buf, &mut self.buf);
        self.front_offset = front;
        let mut out: Vec<u8> = Vec::new();
        let n: usize = buf.len();
        let mut i: usize = 0;
        while i < n
            invariant
                i <= n,
                n == buf@.len(),
                out@ == buf@.take(i as int),
            decreases n - i,
        {
            out.push(buf[i]);
            i += 1;
        }
        assert(buf@.take(n as int) =~= buf@);
        out
    }

    /// Reads at most `max` bytes from `cursor` on, or from the oldest retained byte. Gives the
    /// bytes, the offset after them, and how many bytes the reader has missed.
    pub fn read_since(&self, cursor: Option<u64>, max: usize) -> (r: (Vec<u8>, u64, u64))
        ensures
            r.0@ == self@.between(self@.start(cursor), self@.stop(cursor, max as int)),
            r.1 == self@.stop(cursor, max as int),
            r.2 == self@.missed(cursor),
    {
        proof {
            use_type_invariant(self);
        }
        let front: u64 = self.front_offset;
        let end: u64 = self.front_offset + self.buf.len() as u64;
        let requested: u64 = match cursor {
            Some(at) => at,
            None => front,
        };
        let dropped: u64 = if requested < front {
            front - requested
        } else {
            0
        };
        let start: u64 = if requested < front {
            front
        } else if requested > end {
            end
        } else {
            requested
        };
        let rel: usize = (start - front) as usize;
        let left: usize = self.buf.len() - rel;
        let take: usize = if left < max {
            left
        } else {
            max
        };
        let mut data: Vec<u8> = Vec::new();
        let mut i: usize = 0;
        while i < take
            invariant
                i <= take,
                rel + take <= self.buf@.len(),
                rel + take <= usize::MAX,
                data@ == self.buf@.subrange(rel as int, rel + i),
            decreases take - i,
        {
            data.push(self.buf[rel + i]);
            i += 1;
        }
        (data, start + take as u64, dropped)
    }
}

/// The lower-case hexadecimal digit of a value below sixteen.
pub open spec fn hex_char(d: int) -> char {
    if d < 10 {
        ('0' as int + d) as char
    } else {
        ('a' as int + d - 10) as char
    }
}

/// `digits` as lower-case hexadecimal text.
pub open spec fn hex_text(digits: Seq<int>) -> Seq<char> {
    Seq::new(digits.len(), |i: int| hex_char(digits[i]))
}

/// The token of an offset: sixteen lower-case hexadecimal digits.
pub open spec fn cursor_token(offset: u64) -> Seq<char> {
    hex_text(digits_of(offset as int, 16, 16))
}

/// What a cursor decodes to.
pub open spec fn decoded(cursor: LogCursor) -> Result<Option<u64>, ErrorCode> {
    match cursor.token {
        None => Ok(None),
        Some(text) => match parsed(text@, 16, u64::MAX as int) {
            Some(at) => Ok(Some(at as u64)),
            None => Err(ErrorCode::NoSuchProcess),
        },
    }
}

/// Writes the last `n` hexadecimal digits of `x`.
fn hex_digits(x: u64, n: u32) -> (text: String)
    ensures
        text@ == hex_text(digits_of(x as int, 16, n as nat)),
    decreases n,
{
    if n == 0 {
        let text = String::new();
        assert(text@ =~= hex_text(digits_of(x as int, 16, 0)));
        text
    } else {
        let mut text = hex_digits(x / 16, n - 1);
        let d: u8 = (x % 16) as u8;
        let c: char = if d < 10 {
            (48u8 + d) as char
        } else {
            (87u8 + d) as char
        };
        text.push(c);
        assert(text@ =~= hex_text(digits_of(x as int, 16, n as nat)));
        text
    }
}

/// The cursor of an absolute offset.
pub fn encode_cursor(offset: u64) -> (cursor: LogCursor)
    ensures
        cursor.token is Some,
        cursor.token->Some_0@ == cursor_token(offset),
{
    LogCursor { token: Some(hex_digits(offset, 16)) }
}

/// The offset that a cursor names; no offset means the oldest retained byte. A token that is not
/// a number is answered like an unknown process.
pub fn decode_cursor(cursor: &LogCursor) -> (r: Result<Option<u64>, ErrorCode>)
    ensures
        r == decoded(*cursor),
{
    match &cursor.token {
        None => Ok(None),
        Some(text) => match parse_number(text.as_str(), 16, u64::MAX) {
            Some(at) => Ok(Some(at)),
            None => Err(ErrorCode::NoSuchProcess),
        },
    }
}

/// Decoding undoes encoding: the token of an offset reads back as that offset.
pub proof fn law_cursor_round_trip(offset: u64)
    ensures
        parsed(cursor_token(offset), 16, u64::MAX as int) == Some(offset as int),
        cursor_token(offset).len() == 16,
{
    let digits = digits_of(offset as int, 16, 16);
    let text = cursor_token(offset);
    lemma_digits_of(offset as int, 16, 16);
    assert(power(16, 16) == 0x1_0000_0000_0000_0000) by {
        reveal_with_fuel(power, 17);
    }
    lemma_value_of_digits(offset as int, 16, 16);
    assert forall|i: int| 0 <= i < text.len() implies digit_value(#[trigger] text[i], 16) == Some(
        digits[i],
    ) by {
        assert(0 <= digits[i] < 16);
    }
    assert(text[0] != '+') by {
        assert(digit_value(text[0], 16) is Some);
    }
    assert(digit_values(text, 16) =~= digits);
}

/// A ring that holds the end of what it accepted goes on to do so when more is offered to it,
/// and the bytes it evicts are the oldest.
pub proof fn law_push_keeps_tail(ring: RingView, history: Seq<u8>, chunk: Seq<u8>)
    requires
        ring.valid(),
        ring.holds_tail_of(history),
        ring.takes(chunk) ==> ring.end() + chunk.len() <= MAX_STREAM_OFFSET,
    ensures
        ring.pushed(chunk).valid(),
        ring.takes(chunk) ==> ring.pushed(chunk).holds_tail_of(history + chunk),
        !ring.takes(chunk) ==> ring.pushed(chunk).holds_tail_of(history),
{
    if ring.takes(chunk) {
        let after = ring.pushed(chunk);
        assert(after.bytes =~= (history + chunk).skip(after.front));
    }
}

/// Draining gives out the retained end of what was accepted and leaves the offsets in place.
pub proof fn law_drain_keeps_tail(ring: RingView, history: Seq<u8>)
    requires
        ring.valid(),
        ring.holds_tail_of(history),
    ensures
        ring.drained().valid(),
        ring.drained().holds_tail_of(history),
        ring.bytes == history.subrange(ring.front, ring.end()),
{
    assert(ring.drained().bytes =~= history.skip(ring.end()));
    assert(ring.bytes =~= history.subrange(ring.front, ring.end()));
}

/// A read gives back what was written: the bytes of a read are those that stand in what the ring
/// accepted between the offset where the read begins and the offset that it hands back. A reader
/// who has missed nothing begins where the last read ended.
pub proof fn law_read_returns_written(
    ring: RingView,
    history: Seq<u8>,
    cursor: Option<u64>,
    max: int,
)
    requires
        ring.valid(),
        ring.holds_tail_of(history),
        0 <= max,
    ensures
        ring.between(ring.start(cursor), ring.stop(cursor, max)) == history.subrange(
            ring.start(cursor),
            ring.stop(cursor, max),
        ),
        0 <= ring.start(cursor) <= ring.stop(cursor, max) <= history.len(),
        ring.stop(cursor, max) - ring.start(cursor) <= max,
        cursor is Some && cursor->Some_0 <= ring.end() ==> ring.start(cursor) == cursor->Some_0
            + ring.missed(cursor),
{
    assert(ring.between(ring.start(cursor), ring.stop(cursor, max)) =~= history.subrange(
        ring.start(cursor),
        ring.stop(cursor, max),
    ));
}

/// Under back pressure no byte is ever evicted, whatever is offered.
pub proof fn law_backpressure_never_evicts(ring: RingView, chunk: Seq<u8>)
    requires
        ring.valid(),
        ring.overflow is Backpressure,
    ensures
        ring.pushed(chunk).dropped == 0,
        ring.pushed(chunk).front == ring.front,
        ring.pushed(chunk).bytes == ring.bytes || ring.pushed(chunk).bytes == ring.bytes + chunk,
{
}

/// A cursor from before a drain reports every byte that it has missed.
pub proof fn law_stale_cursor_reports_gap(ring: RingView, at: u64)
    requires
        ring.valid(),
        at <= ring.end(),
    ensures
        ring.drained().missed(Some(at)) == ring.end() - at,
        ring.drained().start(Some(at)) == ring.end(),
{
}

/// What is done to a ring.
pub enum RingOp {
    /// These bytes are offered to it.
    Push(Seq<u8>),
    /// Everything in it is drained.
    Drain,
}

/// A ring after a run of operations, with how many bytes it accepted in all, how many were drained
/// in all, and how many pushed others out.
pub struct RingRun {
    pub ring: RingView,
    pub accepted: int,
    pub drained: int,
    pub evicted: int,
}

impl RingRun {
    /// The run with one more operation.
    pub open spec fn step(self, op: RingOp) -> RingRun {
        match op {
            RingOp::Push(chunk) => {
                let after = self.ring.pushed(chunk);
                if self.ring.takes(chunk) {
                    RingRun {
                        ring: after,
                        accepted: self.accepted + chunk.len(),
                        evicted: self.evicted + self.ring.bytes.len() + chunk.len()
                            - after.bytes.len(),
                        ..self
                    }
                } else {
                    RingRun { ring: after, ..self }
                }
            },
            RingOp::Drain => RingRun {
                ring: self.ring.drained(),
                drained: self.drained + self.ring.bytes.len(),
                ..self
            },
        }
    }
}

/// A new ring, and then what is done to it.
pub open spec fn ring_run(cap: int, overflow: Overflow, ops: Seq<RingOp>) -> RingRun
    decreases ops.len(),
{
    if ops.len() == 0 {
        RingRun {
            ring: RingView { bytes: Seq::empty(), front: 0, dropped: 0, cap, overflow },
            accepted: 0,
            drained: 0,
            evicted: 0,
        }
    } else {
        ring_run(cap, overflow, ops.drop_last()).step(ops.last())
    }
}

/// However a ring is pushed to and drained, it never holds more than it may; its end is the number
/// of bytes that it accepted, and each of those was evicted, was drained, or is still there. What
/// it counts as dropped is what it evicted, and never what was drained; under back pressure that is
/// nothing. Its offsets stay in range as long as what it accepted does.
pub proof fn law_every_byte_is_accounted_for(cap: int, overflow: Overflow, ops: Seq<RingOp>)
    requires
        0 <= cap,
    ensures
        ({
            let run = ring_run(cap, overflow, ops);
            &&& run.ring.cap == cap && run.ring.overflow == overflow
            &&& run.ring.bytes.len() <= cap
            &&& run.ring.end() == run.accepted
            &&& run.accepted == run.ring.dropped + run.drained + run.ring.bytes.len()
            &&& run.ring.dropped == run.evicted
            &&& 0 <= run.ring.dropped && 0 <= run.drained
            &&& overflow is Backpressure ==> run.ring.dropped == 0
            &&& run.accepted <= MAX_STREAM_OFFSET ==> run.ring.valid()
        }),
    decreases ops.len(),
{
    if ops.len() > 0 {
        law_every_byte_is_accounted_for(cap, overflow, ops.drop_last());
    }
}

/// However a ring is pushed to and drained, its front never moves back.
pub proof fn law_front_never_moves_back(cap: int, overflow: Overflow, ops: Seq<RingOp>, n: int)
    requires
        0 <= cap,
        0 <= n <= ops.len(),
    ensures
        ring_run(cap, overflow, ops.take(n)).ring.front <= ring_run(cap, overflow, ops).ring.front,
    decreases ops.len() - n,
{
    if n < ops.len() {
        law_front_never_moves_back(cap, overflow, ops, n + 1);
        assert(ops.take(n + 1).drop_last() =~= ops.take(n));
        law_every_byte_is_accounted_for(cap, overflow, ops.take(n));
    } else {
        assert(ops.take(n) =~= ops);
    }
}

} // verus!
