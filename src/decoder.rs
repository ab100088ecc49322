use vstd::prelude::*;

use crate::raw_buffer::{RawBuffer, BUFFER_SIZE};

verus! {

/// Smallest valid compressed frame: the size hint before any byte was seen.
pub const MIN_FRAME_SIZE: usize = 11;

/// Faults that the adapter itself raises.
#[derive(Clone, Copy, Debug, PartialEq, Eq, Structural)]
pub enum DecodeError {
    /// The source ended while the engine still expected compressed bytes.
    Truncated,
    /// The engine consumed no input and produced no output.
    Stalled,
    /// The engine reported a fault; no further decoding is attempted.
    Codec,
    /// `finish` was called before the frame was complete.
    Interrupted,
}

/// Outcome of polling the source for compressed bytes.
#[derive(Clone, Copy, Debug, PartialEq, Eq, Structural)]
pub enum SourcePoll {
    /// The source wrote this many bytes at the start of the refill window
    /// (zero: the source is at its end).
    Ready(usize),
    /// The source would block.
    Blocked,
    /// The source reported an I/O fault.
    Failed,
}

/// What the caller does next on behalf of the adapter.
#[derive(Clone, Copy, Debug, PartialEq, Eq, Structural)]
pub enum Action {
    /// Poll the source for at most this many bytes into the refill window.
    ReadSource(usize),
    /// Run the engine on the unconsumed bytes and the destination's free space.
    Decode,
    /// The read completes successfully.
    Ready,
    /// The read would block.
    Blocked,
    /// The read fails with the source's own fault.
    SourceFault,
    /// The read fails with a fault of the adapter.
    Fail(DecodeError),
}

/// Abstract state of the adapter.
pub struct DecoderState {
    /// Compressed bytes read from the source and not yet consumed by the engine.
    pub pending: Seq<u8>,
    /// Cursor of the next unconsumed byte in the raw buffer.
    pub pos: nat,
    /// End of the filled bytes in the raw buffer.
    pub len: nat,
    /// The engine's hint of further compressed bytes needed; zero once the frame ended.
    pub expected: nat,
    /// The engine reported a fault.
    pub failed: bool,
    /// Every compressed byte received from the source, in order.
    pub received: Seq<u8>,
    /// Every compressed byte consumed by the engine, in order.
    pub fed: Seq<u8>,
}

/// What happens to the adapter.
pub enum Event {
    /// A read starts with `room` bytes of destination capacity.
    Poll { room: nat },
    /// The source delivered `bytes` (empty: end of the source).
    SourceData { bytes: Seq<u8> },
    SourceBlocked,
    SourceFailed,
    /// The engine consumed `consumed` bytes, produced `produced` bytes and now
    /// expects `next` more compressed bytes.
    Decoded { consumed: nat, produced: nat, next: nat },
    CodecFailed,
}

/// Bookkeeping that every reachable state keeps.
pub open spec fn valid(s: DecoderState) -> bool {
    &&& s.pos <= s.len <= BUFFER_SIZE
    &&& s.pending.len() == s.len - s.pos
    &&& s.fed + s.pending == s.received
}

/// The state before any byte was read.
pub open spec fn initial_state() -> DecoderState {
    DecoderState {
        pending: Seq::empty(),
        pos: BUFFER_SIZE as nat,
        len: BUFFER_SIZE as nat,
        expected: MIN_FRAME_SIZE as nat,
        failed: false,
        received: Seq::empty(),
        fed: Seq::empty(),
    }
}

/// Events that the collaborators' own contracts allow in state `s`: a refill
/// only into an exhausted buffer and no larger than requested, and the engine
/// never consumes more than it was given.
pub open spec fn admissible(s: DecoderState, e: Event) -> bool {
    match e {
        Event::SourceData { bytes } => s.pending.len() == 0 && bytes.len() <= refill_size(s),
        Event::Decoded { consumed, .. } => consumed <= s.pending.len(),
        _ => true,
    }
}

/// Compressed bytes to ask of the source: never more than the engine expects.
pub open spec fn refill_size(s: DecoderState) -> nat {
    if s.expected < BUFFER_SIZE {
        s.expected
    } else {
        BUFFER_SIZE as nat
    }
}

/// The next action of a read that goes on: refill when nothing is pending,
/// else decode.
pub open spec fn resume(s: DecoderState) -> Action {
    if s.pending.len() == 0 {
        Action::ReadSource(refill_size(s) as usize)
    } else {
        Action::Decode
    }
}

/// The adapter's transition function: the next state and the next action.
pub open spec fn step(s: DecoderState, e: Event) -> (DecoderState, Action) {
    match e {
        Event::Poll { room } => {
            if s.failed {
                (s, Action::Fail(DecodeError::Codec))
            } else if s.expected == 0 || room == 0 {
                (s, Action::Ready)
            } else {
                (s, resume(s))
            }
        },
        Event::SourceData { bytes } => {
            if bytes.len() == 0 {
                if s.expected > 0 {
                    (s, Action::Fail(DecodeError::Truncated))
                } else {
                    (s, Action::Ready)
                }
            } else {
                (
                    DecoderState {
                        pending: bytes,
                        pos: 0,
                        len: bytes.len(),
                        received: s.received + bytes,
                        ..s
                    },
                    Action::Decode,
                )
            }
        },
        Event::SourceBlocked => (s, Action::Blocked),
        Event::SourceFailed => (s, Action::SourceFault),
        Event::Decoded { consumed, produced, next } => {
            let t = DecoderState {
                pending: s.pending.subrange(consumed as int, s.pending.len() as int),
                pos: s.pos + consumed,
                expected: next,
                fed: s.fed + s.pending.subrange(0, consumed as int),
                ..s
            };
            if produced > 0 || next == 0 {
                (t, Action::Ready)
            } else if consumed == 0 {
                (t, Action::Fail(DecodeError::Stalled))
            } else {
                (t, resume(t))
            }
        },
        Event::CodecFailed => (DecoderState { failed: true, ..s }, Action::Fail(DecodeError::Codec)),
    }
}

/// Stream adapter over a source `R`: owns the source, the raw input buffer and
/// the engine's size hint.
pub struct AsyncDecoder<R> {
    /// The underlying source, e.g. a file.
    r: R,
    raw: RawBuffer,
    /// Minimum number of further compressed bytes the engine needs; never read more.
    next_raw_bytes_expected_by_decoder: usize,
    failed: bool,
    received: Ghost<Seq<u8>>,
    fed: Ghost<Seq<u8>>,
}

impl<R> View for AsyncDecoder<R> {
    type V = DecoderState;

    closed spec fn view(&self) -> DecoderState {
        DecoderState {
            pending: self.raw.pending(),
            pos: self.raw.pos_spec(),
            len: self.raw.len_spec(),
            expected: self.next_raw_bytes_expected_by_decoder as nat,
            failed: self.failed,
            received: self.received@,
            fed: self.fed@,
        }
    }
}

impl<R> AsyncDecoder<R> {
    pub closed spec fn wf(&self) -> bool {
        &&& self.raw.wf()
        &&& valid(self@)
    }

    /// The owned source.
    pub closed spec fn source(&self) -> R {
        self.r
    }

    /// The raw buffer's whole backing storage.
    pub closed spec fn stored(&self) -> Seq<u8> {
        self.raw.stored()
    }

    /// Takes ownership of `r`; nothing is read yet.
    pub fn new(r: R) -> (d: AsyncDecoder<R>)
        ensures
            d.wf(),
            d@ == initial_state(),
            d.source() == r,
    {
        let raw = RawBuffer::new();
        proof {
            assert(raw.pending() =~= Seq::<u8>::empty());
        }
        AsyncDecoder {
            r,
            raw,
            next_raw_bytes_expected_by_decoder: MIN_FRAME_SIZE,
            failed: false,
            received: Ghost(Seq::empty()),
            fed: Ghost(Seq::empty()),
        }
    }

    /// Shared access to the owned source.
    pub fn reader(&self) -> (r: &R)
        ensures
            *r == self.source(),
    {
        &self.r
    }

    /// Gives the source back, with `Ok` exactly when the frame was read to its end.
    pub fn finish(self) -> (res: (R, Result<(), DecodeError>))
        ensures
            res.0 == self.source(),
            res.1 == (if self@.expected == 0 {
                Ok::<(), DecodeError>(())
            } else {
                Err(DecodeError::Interrupted)
            }),
    {
        let outcome = if self.next_raw_bytes_expected_by_decoder == 0 {
            Ok(())
        } else {
            Err(DecodeError::Interrupted)
        };
        (self.r, outcome)
    }

    /// The engine's current size hint.
    pub fn expected_input_size(&self) -> (n: usize)
        ensures
            n == self@.expected,
    {
        self.next_raw_bytes_expected_by_decoder
    }

    /// Whether the frame has ended.
    pub fn is_terminal(&self) -> (t: bool)
        ensures
            t == (self@.expected == 0),
    {
        self.next_raw_bytes_expected_by_decoder == 0
    }

    /// The raw input buffer.
    pub fn raw_buffer(&self) -> (b: &RawBuffer)
        ensures
            b.pending() == self@.pending,
            b.pos_spec() == self@.pos,
            b.len_spec() == self@.len,
    {
        &self.raw
    }

    /// Bytes to ask of the source: `min(BUFFER_SIZE, expected)`.
    pub fn refill_size(&self) -> (n: usize)
        ensures
            n == refill_size(self@),
    {
        if self.next_raw_bytes_expected_by_decoder < BUFFER_SIZE {
            self.next_raw_bytes_expected_by_decoder
        } else {
            BUFFER_SIZE
        }
    }

    /// The compressed bytes to hand to the engine.
    pub fn unconsumed(&self) -> (s: &[u8])
        requires
            self.wf(),
        ensures
            s@ == self@.pending,
    {
        self.raw.unconsumed()
    }

    /// A read starts with `room` bytes of destination capacity.
    pub fn poll_start(&self, room: usize) -> (a: Action)
        requires
            self.wf(),
        ensures
            (self@, a) == step(self@, Event::Poll { room: room as nat }),
    {
        if self.failed {
            Action::Fail(DecodeError::Codec)
        } else if self.next_raw_bytes_expected_by_decoder == 0 || room == 0 {
            Action::Ready
        } else {
            self.resume()
        }
    }

    fn resume(&self) -> (a: Action)
        requires
            self.wf(),
        ensures
            a == resume(self@),
    {
        if self.raw.is_exhausted() {
            Action::ReadSource(self.refill_size())
        } else {
            Action::Decode
        }
    }

    /// The source together with the refill window: the first `refill_size()`
    /// bytes of the storage, for the source to write into. Only an exhausted
    /// buffer is refilled, so the abstract state is left as it is.
    pub fn refill_target(&mut self) -> (res: (&mut R, &mut [u8]))
        requires
            old(self).wf(),
            old(self)@.pending.len() == 0,
        ensures
            *res.0 == old(self).source(),
            res.1@ == old(self).stored().subrange(0, refill_size(old(self)@) as int),
            final(res.1)@.len() == refill_size(old(self)@) ==> {
                &&& final(self).wf()
                &&& final(self)@.pending =~= old(self)@.pending
                &&& final(self)@.pos == old(self)@.pos
                &&& final(self)@.len == old(self)@.len
                &&& final(self)@.expected == old(self)@.expected
                &&& final(self)@.failed == old(self)@.failed
                &&& final(self)@.received == old(self)@.received
                &&& final(self)@.fed == old(self)@.fed
            },
            final(self).source() == *final(res.0),
            final(self).stored() == final(res.1)@ + old(self).stored().subrange(
                refill_size(old(self)@) as int,
                BUFFER_SIZE as int,
            ),
    {
        let n = self.refill_size();
        let ghost s = self@;
        let w = self.raw.window(n);
        proof {
            assert(s.pending =~= Seq::<u8>::empty());
        }
        (&mut self.r, w)
    }

    /// The source answered a poll made for `ReadSource`; on `Ready(n)` its
    /// bytes are the first `n` of the storage.
    pub fn on_source(&mut self, outcome: SourcePoll) -> (a: Action)
        requires
            old(self).wf(),
            old(self)@.pending.len() == 0,
            outcome matches SourcePoll::Ready(n) ==> n <= refill_size(old(self)@),
        ensures
            final(self).wf(),
            final(self).source() == old(self).source(),
            (final(self)@, a) == step(
                old(self)@,
                match outcome {
                    SourcePoll::Ready(n) => Event::SourceData {
                        bytes: old(self).stored().subrange(0, n as int),
                    },
                    SourcePoll::Blocked => Event::SourceBlocked,
                    SourcePoll::Failed => Event::SourceFailed,
                },
            ),
    {
        match outcome {
            SourcePoll::Blocked => Action::Blocked,
            SourcePoll::Failed => Action::SourceFault,
            SourcePoll::Ready(n) => {
                if n == 0 {
                    if self.next_raw_bytes_expected_by_decoder > 0 {
                        Action::Fail(DecodeError::Truncated)
                    } else {
                        Action::Ready
                    }
                } else {
                    let ghost bytes = self.raw.stored().subrange(0, n as int);
                    self.raw.refill(n);
                    self.received = Ghost(self.received@ + bytes);
                    proof {
                        assert(self@.fed + self@.pending =~= self@.received);
                    }
                    Action::Decode
                }
            },
        }
    }

    /// The engine consumed `consumed` of the unconsumed bytes, produced
    /// `produced` bytes and now expects `next` more compressed bytes.
    pub fn on_decoded(&mut self, consumed: usize, produced: usize, next: usize) -> (a: Action)
        requires
            old(self).wf(),
            consumed <= old(self)@.pending.len(),
        ensures
            final(self).wf(),
            final(self).source() == old(self).source(),
            (final(self)@, a) == step(
                old(self)@,
                Event::Decoded { consumed: consumed as nat, produced: produced as nat, next: next as nat },
            ),
    {
        let ghost s = self@;
        self.raw.consume(consumed);
        self.fed = Ghost(self.fed@ + s.pending.subrange(0, consumed as int));
        self.next_raw_bytes_expected_by_decoder = next;
        proof {
            assert(self@.fed + self@.pending =~= self@.received);
            assert(self@.pending =~= s.pending.subrange(consumed as int, s.pending.len() as int));
        }
        if produced > 0 || next == 0 {
            Action::Ready
        } else if consumed == 0 {
            Action::Fail(DecodeError::Stalled)
        } else {
            self.resume()
        }
    }

    /// The engine reported a fault: the adapter stops decoding for good.
    pub fn on_codec_error(&mut self) -> (a: Action)
        requires
            old(self).wf(),
        ensures
            final(self).wf(),
            final(self).source() == old(self).source(),
            (final(self)@, a) == step(old(self)@, Event::CodecFailed),
    {
        self.failed = true;
        Action::Fail(DecodeError::Codec)
    }
}

} // verus!
