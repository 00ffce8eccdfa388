//! Frames: a length of four bytes, the highest first, and as many bytes of payload.

use vstd::prelude::*;

use crate::net::types::{is_peer_disconnect, peer_gone, IoError, IoErrorKind, NetReadStatus};
use crate::text::concat2;

verus! {

/// How many bytes of length a frame begins with.
pub const HEADER_BYTES: usize = 4;

/// How many bytes of payload a frame may have.
pub const MAX_BYTES_PER_CALL: usize = 10485760;

/// How long the length of a frame is waited for, in milliseconds.
pub const HEADER_TIMEOUT_MS: u64 = 50;

/// The number that four bytes spell.
pub open spec fn spelled(header: Seq<u8>) -> int {
    header[0] * 16777216 + header[1] * 65536 + header[2] * 256 + header[3]
}

/// The four bytes that spell a number.
pub open spec fn length_bytes(n: int) -> Seq<u8> {
    seq![
        (n / 16777216) as u8,
        (n / 65536 % 256) as u8,
        (n / 256 % 256) as u8,
        (n % 256) as u8,
    ]
}

/// Four bytes spell the number that they were made for.
pub proof fn lemma_length_round_trip(n: int)
    requires
        0 <= n <= u32::MAX,
    ensures
        spelled(length_bytes(n)) == n,
        length_bytes(n).len() == HEADER_BYTES,
{
    let a = n / 16777216;
    let b = n / 65536 % 256;
    let c = n / 256 % 256;
    let d = n % 256;
    assert(0 <= a < 256 && 0 <= b < 256 && 0 <= c < 256 && 0 <= d < 256);
    assert(n / 256 / 256 == n / 65536);
    assert(n / 65536 / 256 == n / 16777216);
    assert(n == (n / 256) * 256 + d);
    assert(n / 256 == (n / 65536) * 256 + c);
    assert(n / 65536 == (n / 16777216) * 256 + b);
}

/// The bytes of a frame.
pub open spec fn frame_bytes(data: Seq<u8>) -> Seq<u8> {
    length_bytes(data.len() as int) + data
}

/// The bytes of a frame, unless its length cannot be spelled.
pub fn encode_frame(data: &[u8]) -> (r: Result<Vec<u8>, IoError>)
    ensures
        if data@.len() <= u32::MAX {
            r is Ok && r->Ok_0@ == frame_bytes(data@)
        } else {
            r is Err && r->Err_0.kind == IoErrorKind::Other && r->Err_0.text@
                == "write payload too large for length prefix"@
        },
{
    let n: u64 = data.len() as u64;
    if n > 0xffff_ffff {
        return Err(
            IoError {
                kind: IoErrorKind::Other,
                text: "write payload too large for length prefix".to_owned(),
            },
        );
    }
    let mut bytes: Vec<u8> = Vec::new();
    bytes.push((n / 16777216) as u8);
    bytes.push((n / 65536 % 256) as u8);
    bytes.push((n / 256 % 256) as u8);
    bytes.push((n % 256) as u8);
    let ghost head = bytes@;
    assert(head =~= length_bytes(n as int));
    bytes.extend_from_slice(data);
    assert(bytes@ =~= frame_bytes(data@));
    Ok(bytes)
}

/// What was read of a frame that is not complete.
pub struct FrameReadState {
    received: Vec<u8>,
}

/// What happened on the stream.
pub enum FrameEvent {
    /// These bytes arrived.
    Bytes(Vec<u8>),
    /// The stream is at its end.
    Eof,
    /// Reading failed.
    Failed(IoError),
    /// The time was up.
    TimedOut,
}

/// What to do next.
pub enum FrameStep {
    /// Start a wait of so many milliseconds, and read at most so many bytes under it.
    Read(usize, u64),
    /// Read at most so many bytes under the wait that is running.
    ReadOn(usize),
    /// The read is over.
    Done(Result<NetReadStatus, String>),
}

/// The length of the frame is known.
pub open spec fn length_known(received: Seq<u8>) -> bool {
    received.len() >= HEADER_BYTES
}

/// How many bytes the frame has in all, once its length is known.
pub open spec fn frame_size(received: Seq<u8>) -> int {
    HEADER_BYTES + spelled(received)
}

/// The frame is longer than a frame may be.
pub open spec fn too_long(received: Seq<u8>) -> bool {
    length_known(received) && spelled(received) > MAX_BYTES_PER_CALL
}

/// How many bytes are still missing, as far as that is known: of the length first.
pub open spec fn missing(received: Seq<u8>) -> int {
    if !length_known(received) {
        HEADER_BYTES - received.len()
    } else {
        frame_size(received) - received.len()
    }
}

/// How long the missing bytes are waited for, however many pieces they come in: longer for a longer
/// payload.
pub open spec fn patience(received: Seq<u8>) -> int {
    if !length_known(received) {
        HEADER_TIMEOUT_MS as int
    } else {
        5000 + spelled(received) / 1024
    }
}

/// What was received is not more than one frame that is not complete.
pub open spec fn partial(received: Seq<u8>) -> bool {
    length_known(received) ==> !too_long(received) && received.len() < frame_size(received)
}

impl View for FrameReadState {
    type V = Seq<u8>;

    closed spec fn view(&self) -> Seq<u8> {
        self.received@
    }
}

/// The number that four bytes spell.
fn spell(bytes: &Vec<u8>) -> (n: usize)
    requires
        bytes@.len() >= HEADER_BYTES,
    ensures
        n == spelled(bytes@),
        n <= u32::MAX,
{
    let n: u64 = bytes[0] as u64 * 16777216 + bytes[1] as u64 * 65536 + bytes[2] as u64 * 256
        + bytes[3] as u64;
    n as usize
}

impl FrameReadState {
    #[verifier::type_invariant]
    spec fn unfinished(&self) -> bool {
        partial(self.received@)
    }

    /// Nothing was read.
    pub fn new() -> (state: Self)
        ensures
            state@ == Seq::<u8>::empty(),
    {
        FrameReadState { received: Vec::new() }
    }

    /// How many bytes of the length were read.
    pub fn header_read(&self) -> (n: usize)
        ensures
            n == (if length_known(self@) {
                HEADER_BYTES as int
            } else {
                self@.len() as int
            }),
    {
        if self.received.len() < HEADER_BYTES {
            self.received.len()
        } else {
            HEADER_BYTES
        }
    }

    /// What is to be read first.
    pub fn start(&self) -> (step: FrameStep)
        ensures
            partial(self@),
            step == FrameStep::Read(missing(self@) as usize, patience(self@) as u64),
            0 < missing(self@) <= MAX_BYTES_PER_CALL,
    {
        proof {
            use_type_invariant(self);
        }
        if self.received.len() < HEADER_BYTES {
            FrameStep::Read(HEADER_BYTES - self.received.len(), HEADER_TIMEOUT_MS)
        } else {
            let n: usize = spell(&self.received);
            let extra: u64 = n as u64 / 1024;
            FrameStep::Read(n + HEADER_BYTES - self.received.len(), 5000 + extra)
        }
    }

    /// Takes in what happened on the stream. One wait spans the whole length and another the whole
    /// payload: a piece of either does not start it anew. Bytes that arrived before a read gave up
    /// are kept for the next one. A frame that is too long is forgotten at once.
    pub fn advance(&mut self, event: FrameEvent) -> (step: FrameStep)
        requires
            event is Bytes ==> event->Bytes_0@.len() <= missing(old(self)@),
        ensures
            partial(final(self)@),
            match event {
                FrameEvent::Bytes(bytes) => {
                    let all = old(self)@ + bytes@;
                    if bytes@.len() == 0 {
                        &&& step == FrameStep::Done(Ok(NetReadStatus::Closed))
                        &&& final(self)@ == old(self)@
                    } else if too_long(all) {
                        &&& step is Done
                        &&& step->Done_0 is Err
                        &&& step->Done_0->Err_0@ == "Payload too large (max 10MB)"@
                        &&& final(self)@ == Seq::<u8>::empty()
                    } else if length_known(all) && all.len() == frame_size(all) {
                        &&& step is Done
                        &&& step->Done_0 is Ok
                        &&& step->Done_0->Ok_0 is Data
                        &&& step->Done_0->Ok_0->Data_0@ == all.skip(HEADER_BYTES as int)
                        &&& final(self)@ == Seq::<u8>::empty()
                    } else {
                        &&& final(self)@ == all
                        &&& step == (if length_known(all) && !length_known(old(self)@) {
                            FrameStep::Read(missing(all) as usize, patience(all) as u64)
                        } else {
                            FrameStep::ReadOn(missing(all) as usize)
                        })
                        &&& 0 < missing(all) <= MAX_BYTES_PER_CALL
                    }
                },
                FrameEvent::Eof => step == FrameStep::Done(Ok(NetReadStatus::Closed))
                    && final(self)@ == old(self)@,
                FrameEvent::Failed(error) => {
                    &&& final(self)@ == old(self)@
                    &&& if peer_gone(error.kind) {
                        step == FrameStep::Done(Ok(NetReadStatus::Closed))
                    } else {
                        &&& step is Done
                        &&& step->Done_0 is Err
                        &&& step->Done_0->Err_0@ == (if length_known(old(self)@) {
                            "socket payload read error: "@
                        } else {
                            "socket read error: "@
                        }) + error.text@
                    }
                },
                FrameEvent::TimedOut => {
                    &&& final(self)@ == old(self)@
                    &&& if length_known(old(self)@) {
                        &&& step is Done
                        &&& step->Done_0 is Err
                        &&& step->Done_0->Err_0@ == "Payload read timed out"@
                    } else {
                        step == FrameStep::Done(Ok(NetReadStatus::Pending))
                    }
                },
            },
    {
        proof {
            use_type_invariant(&*self);
        }
        match event {
            FrameEvent::Eof => FrameStep::Done(Ok(NetReadStatus::Closed)),
            FrameEvent::Failed(error) => {
                if is_peer_disconnect(&error) {
                    FrameStep::Done(Ok(NetReadStatus::Closed))
                } else if self.received.len() < HEADER_BYTES {
                    FrameStep::Done(Err(concat2("socket read error: ", error.text.as_str())))
                } else {
                    FrameStep::Done(
                        Err(concat2("socket payload read error: ", error.text.as_str())),
                    )
                }
            },
            FrameEvent::TimedOut => {
                if self.received.len() < HEADER_BYTES {
                    FrameStep::Done(Ok(NetReadStatus::Pending))
                } else {
                    FrameStep::Done(Err("Payload read timed out".to_owned()))
                }
            },
            FrameEvent::Bytes(bytes) => {
                if bytes.len() == 0 {
                    return FrameStep::Done(Ok(NetReadStatus::Closed));
                }
                let mut all: Vec<u8> = Vec::new();
                std::mem::swap(&mut all, &mut self.received);
                let ghost before = all@;
                let known: bool = all.len() >= HEADER_BYTES;
                let mut more = bytes;
                let ghost added = more@;
                all.append(&mut more);
                assert(all@ =~= before + added);
                if all.len() < HEADER_BYTES {
                    let left: usize = HEADER_BYTES - all.len();
                    self.received = all;
                    return FrameStep::ReadOn(left);
                }
                let n: usize = spell(&all);
                if n > MAX_BYTES_PER_CALL {
                    return FrameStep::Done(Err("Payload too large (max 10MB)".to_owned()));
                }
                proof {
                    if length_known(before) {
                        assert(spelled(before + added) == spelled(before));
                    }
                }
                if all.len() == n + HEADER_BYTES {
                    let ghost whole = all@;
                    let payload = all.split_off(HEADER_BYTES);
                    assert(payload@ =~= whole.skip(HEADER_BYTES as int));
                    return FrameStep::Done(Ok(NetReadStatus::Data(payload)));
                }
                let left: usize = n + HEADER_BYTES - all.len();
                self.received = all;
                if known {
                    FrameStep::ReadOn(left)
                } else {
                    self.start()
                }
            },
        }
    }
}

/// However the bytes of a frame are cut into pieces, reading them gives its payload back: what
/// is read is the same as if they had arrived at once, and it is complete exactly with the last
/// byte.
pub proof fn law_frame_round_trip(data: Seq<u8>, n: int)
    requires
        data.len() <= MAX_BYTES_PER_CALL,
        0 <= n <= frame_bytes(data).len(),
    ensures
        !too_long(frame_bytes(data).take(n)),
        n < frame_bytes(data).len() ==> partial(frame_bytes(data).take(n)),
        n == frame_bytes(data).len() ==> {
            &&& length_known(frame_bytes(data).take(n))
            &&& frame_bytes(data).take(n).len() == frame_size(frame_bytes(data).take(n))
            &&& frame_bytes(data).take(n).skip(HEADER_BYTES as int) == data
        },
{
    let all = frame_bytes(data);
    lemma_length_round_trip(data.len() as int);
    assert(all.take(all.len() as int) =~= all);
    assert(all.skip(HEADER_BYTES as int) =~= data);
    if n >= HEADER_BYTES {
        assert(spelled(all.take(n)) == spelled(length_bytes(data.len() as int)));
    }
}

} // verus!
