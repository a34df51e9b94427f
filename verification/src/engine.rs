//! The streaming playback engine: a single-use, event-driven state machine
//! that decides every step of one playback invocation — header validation,
//! sink configuration, the bounded-memory chunked transfer loop, and drain
//! or abort. The blocking storage reads and sink writes themselves are the
//! caller's: the caller performs each requested operation and hands the
//! outcome back as an event, so every decision the engine makes is verified
//! for every outcome the hardware can produce.

use vstd::prelude::*;
use crate::header::ParseError;
use crate::header::WavHeader;
use crate::header::spec_parse;
use crate::policy::FormatFault;
use crate::policy::HardwarePolicy;
use crate::policy::spec_feasible;
use crate::schedule::spec_min;

verus! {

/// Byte offset at which the PCM payload starts: directly after the header.
pub const DATA_OFFSET: u32 = 44;

/// The states of one playback invocation.
#[derive(Clone, Copy, PartialEq, Eq, Structural, Debug)]
pub enum EngineState {
    Idle,
    HeaderRead,
    Validated,
    SinkArmed,
    Streaming,
    Drained,
    Finished,
    Aborted,
}

/// Storage-side faults.
#[derive(Clone, Copy, PartialEq, Eq, Structural, Debug)]
pub enum IoError {
    /// Fewer than the 44 header bytes could be read.
    TruncatedHeader { actual_len: usize },
    /// The source yielded no bytes although the data section was not
    /// exhausted. `consumed` and `expected_total` give the byte counts.
    UnexpectedEof { consumed: u32, expected_total: u32 },
    /// The storage device failed a read or seek.
    Storage,
}

/// Sink-side faults.
#[derive(Clone, Copy, PartialEq, Eq, Structural, Debug)]
pub enum SinkError {
    /// The hardware rejected the configuration parameters.
    Configure,
    /// The transmit path could not be enabled.
    Enable,
    /// A blocking write did not complete within its timeout.
    Timeout,
}

/// Everything that can end a playback invocation early.
#[derive(Clone, Copy, PartialEq, Eq, Structural, Debug)]
pub enum PlaybackError {
    Parse(ParseError),
    UnsupportedFormat(FormatFault),
    Io(IoError),
    Sink(SinkError),
}

/// The parameters the sink must be configured with before streaming.
#[derive(Clone, Copy, PartialEq, Eq, Structural, Debug)]
pub struct SinkParams {
    pub sample_rate_hz: u32,
    pub bits_per_sample: u16,
    pub channel_count: u16,
}

/// One playback invocation. Owns the transient session state exclusively:
/// the read cursor into the data section, the total bytes to transfer, and
/// the bookkeeping of which chunk is in flight. Single-use: once `Finished`
/// or `Aborted`, no further transitions are permitted.
pub struct StreamingPlaybackEngine {
    pub state: EngineState,
    pub policy: HardwarePolicy,
    /// Fixed capacity of the caller's chunk buffer, in bytes.
    pub chunk_capacity: usize,
    /// The raw header bytes, held between the header read and validation.
    pub header_bytes: Vec<u8>,
    /// The validated header, from the `Validated` state on.
    pub header: Option<WavHeader>,
    /// Total bytes to transfer: the header's `data_size_bytes`.
    pub total: u32,
    /// Bytes consumed from the data section so far.
    pub consumed: u32,
    /// Bytes read into the chunk buffer and not yet written to the sink.
    pub pending_write: usize,
    /// Whether the sink's transmit path has been enabled and not disabled.
    pub sink_armed: bool,
    /// The error that aborted the session, if any.
    pub error: Option<PlaybackError>,
    /// Wall-clock duration of the transfer phase, reported at `Finished`.
    pub elapsed_ms: Option<u64>,
}

impl StreamingPlaybackEngine {
    /// States in which the header has been validated as feasible.
    pub open spec fn configured(self) -> bool {
        ||| self.state is Validated
        ||| self.state is SinkArmed
        ||| self.state is Streaming
        ||| self.state is Drained
        ||| self.state is Finished
    }

    /// Bytes of the data section not yet consumed.
    pub open spec fn remaining_bytes(self) -> int {
        self.total - self.consumed
    }

    /// Session invariant: established by `new`, preserved by every event.
    pub open spec fn wf(self) -> bool {
        &&& 0 < self.chunk_capacity
        &&& self.consumed <= self.total
        &&& self.pending_write <= self.chunk_capacity
        &&& self.pending_write as int <= self.remaining_bytes()
        &&& (self.pending_write > 0 ==> self.state is Streaming)
        &&& (self.state is HeaderRead ==> self.header_bytes@.len() == 44)
        &&& (self.configured() ==> {
            &&& self.header is Some
            &&& self.total == self.header.unwrap().data_size_bytes
            &&& spec_feasible(self.header.unwrap(), self.policy) is Ok
        })
        &&& ((self.state is Idle || self.state is HeaderRead || self.state is Validated
            || self.state is SinkArmed) ==> self.consumed == 0)
        &&& ((self.state is Drained || self.state is Finished) ==> self.consumed == self.total)
        &&& ((self.state is SinkArmed || self.state is Streaming) ==> self.sink_armed)
        &&& ((self.state is Idle || self.state is HeaderRead || self.state is Validated
            || self.state is Drained || self.state is Finished) ==> !self.sink_armed)
        &&& (self.error is Some <==> self.state is Aborted)
        &&& (self.elapsed_ms is Some <==> self.state is Finished)
    }

    /// The policy and chunk buffer never change over a session's lifetime.
    pub open spec fn same_session(self, other: Self) -> bool {
        &&& self.policy == other.policy
        &&& self.chunk_capacity == other.chunk_capacity
    }

    /// Create an idle session around the given hardware policy and chunk
    /// buffer capacity.
    pub fn new(policy: HardwarePolicy, chunk_capacity: usize) -> (e: Self)
        requires
            0 < chunk_capacity,
        ensures
            e.wf(),
            e.state is Idle,
            e.policy == policy,
            e.chunk_capacity == chunk_capacity,
            e.consumed == 0,
            e.total == 0,
            e.pending_write == 0,
            !e.sink_armed,
            e.error is None,
    {
        StreamingPlaybackEngine {
            state: EngineState::Idle,
            policy,
            chunk_capacity,
            header_bytes: Vec::new(),
            header: None,
            total: 0,
            consumed: 0,
            pending_write: 0,
            sink_armed: false,
            error: None,
            elapsed_ms: None,
        }
    }

    /// Event: the caller read the header region from offset 0. Exactly 44
    /// bytes move the session to `HeaderRead`; a short read is fatal.
    pub fn on_header_read(&mut self, bytes: &[u8]) -> (r: Result<(), PlaybackError>)
        requires
            old(self).wf(),
            old(self).state is Idle,
        ensures
            final(self).wf(),
            final(self).same_session(*old(self)),
            bytes@.len() == 44 ==> {
                &&& final(self).state is HeaderRead
                &&& final(self).header_bytes@ == bytes@
                &&& r is Ok
            },
            bytes@.len() != 44 ==> {
                &&& final(self).state is Aborted
                &&& r == Err::<(), PlaybackError>(
                    PlaybackError::Io(IoError::TruncatedHeader { actual_len: bytes@.len() as usize }),
                )
                &&& final(self).error == Some(
                    PlaybackError::Io(IoError::TruncatedHeader { actual_len: bytes@.len() as usize }),
                )
                &&& !final(self).sink_armed
            },
    {
        if bytes.len() != 44 {
            let e = PlaybackError::Io(IoError::TruncatedHeader { actual_len: bytes.len() });
            self.state = EngineState::Aborted;
            self.error = Some(e);
            Err(e)
        } else {
            self.header_bytes = vstd::slice::slice_to_vec(bytes);
            self.state = EngineState::HeaderRead;
            Ok(())
        }
    }

    /// Event: validate the header bytes — parse, then the hardware
    /// feasibility check. Success yields the parameters the sink must be
    /// configured with; any failure aborts before the sink is touched.
    pub fn validate(&mut self) -> (r: Result<SinkParams, PlaybackError>)
        requires
            old(self).wf(),
            old(self).state is HeaderRead,
        ensures
            final(self).wf(),
            final(self).same_session(*old(self)),
            spec_parse(old(self).header_bytes@) matches Err(pe) ==> {
                &&& final(self).state is Aborted
                &&& r == Err::<SinkParams, PlaybackError>(PlaybackError::Parse(pe))
                &&& final(self).error == Some(PlaybackError::Parse(pe))
                &&& !final(self).sink_armed
            },
            spec_parse(old(self).header_bytes@) matches Ok(h) ==> {
                &&& (spec_feasible(h, old(self).policy) matches Err(f) ==> {
                    &&& final(self).state is Aborted
                    &&& r == Err::<SinkParams, PlaybackError>(PlaybackError::UnsupportedFormat(f))
                    &&& final(self).error == Some(PlaybackError::UnsupportedFormat(f))
                    &&& !final(self).sink_armed
                })
                &&& (spec_feasible(h, old(self).policy) matches Ok(_) ==> {
                    &&& final(self).state is Validated
                    &&& final(self).header == Some(h)
                    &&& final(self).total == h.data_size_bytes
                    &&& final(self).consumed == 0
                    &&& r == Ok::<SinkParams, PlaybackError>(
                        SinkParams {
                            sample_rate_hz: h.sample_rate_hz,
                            bits_per_sample: h.bits_per_sample,
                            channel_count: h.channel_count,
                        },
                    )
                })
            },
    {
        match crate::header::parse(self.header_bytes.as_slice()) {
            Err(pe) => {
                let e = PlaybackError::Parse(pe);
                self.state = EngineState::Aborted;
                self.error = Some(e);
                Err(e)
            },
            Ok(h) => {
                match crate::policy::check_feasibility(&h, &self.policy) {
                    Err(f) => {
                        let e = PlaybackError::UnsupportedFormat(f);
                        self.state = EngineState::Aborted;
                        self.error = Some(e);
                        Err(e)
                    },
                    Ok(_) => {
                        self.header = Some(h);
                        self.total = h.data_size_bytes;
                        self.consumed = 0;
                        self.state = EngineState::Validated;
                        Ok(
                            SinkParams {
                                sample_rate_hz: h.sample_rate_hz,
                                bits_per_sample: h.bits_per_sample,
                                channel_count: h.channel_count,
                            },
                        )
                    },
                }
            },
        }
    }

    /// Event: the caller configured the sink with the validated parameters
    /// and enabled its transmit path. Returns the absolute byte offset the
    /// source must be repositioned to: the start of the data section.
    pub fn on_sink_armed(&mut self) -> (off: u32)
        requires
            old(self).wf(),
            old(self).state is Validated,
        ensures
            final(self).wf(),
            final(self).same_session(*old(self)),
            final(self).state is SinkArmed,
            final(self).sink_armed,
            final(self).header == old(self).header,
            final(self).total == old(self).total,
            final(self).consumed == 0,
            off == DATA_OFFSET,
    {
        self.state = EngineState::SinkArmed;
        self.sink_armed = true;
        DATA_OFFSET
    }

    /// Event: the source was repositioned to the data section; the transfer
    /// loop begins.
    pub fn on_seek_done(&mut self)
        requires
            old(self).wf(),
            old(self).state is SinkArmed,
        ensures
            final(self).wf(),
            final(self).same_session(*old(self)),
            final(self).state is Streaming,
            final(self).header == old(self).header,
            final(self).total == old(self).total,
            final(self).consumed == 0,
            final(self).pending_write == 0,
    {
        self.state = EngineState::Streaming;
    }

    /// Whether the transfer loop has moved the whole data section.
    pub fn transfer_done(&self) -> (b: bool)
        requires
            self.wf(),
            self.state is Streaming,
            self.pending_write == 0,
        ensures
            b <==> self.consumed == self.total,
    {
        self.consumed == self.total
    }

    /// How many bytes the next read must request: the smaller of the chunk
    /// buffer capacity and the bytes still owed from the data section.
    pub fn next_read_len(&self) -> (n: usize)
        requires
            self.wf(),
            self.state is Streaming,
            self.pending_write == 0,
            self.consumed < self.total,
        ensures
            n as int == spec_min(self.chunk_capacity as int, self.remaining_bytes()),
            0 < n <= self.chunk_capacity,
    {
        let remaining = self.total - self.consumed;
        if remaining as usize <= self.chunk_capacity {
            remaining as usize
        } else {
            self.chunk_capacity
        }
    }

    /// Event: a read into the chunk buffer returned `n` bytes. Zero bytes
    /// while the data section is not exhausted is a short-read fault: the
    /// session aborts and no further write is permitted. Otherwise exactly
    /// those `n` bytes are owed to the sink next.
    pub fn on_chunk_read(&mut self, n: usize) -> (r: Result<usize, PlaybackError>)
        requires
            old(self).wf(),
            old(self).state is Streaming,
            old(self).pending_write == 0,
            old(self).consumed < old(self).total,
            n as int <= spec_min(old(self).chunk_capacity as int, old(self).remaining_bytes()),
        ensures
            final(self).wf(),
            final(self).same_session(*old(self)),
            final(self).total == old(self).total,
            final(self).header == old(self).header,
            final(self).consumed == old(self).consumed,
            n == 0 ==> {
                &&& final(self).state is Aborted
                &&& r == Err::<usize, PlaybackError>(
                    PlaybackError::Io(
                        IoError::UnexpectedEof {
                            consumed: old(self).consumed,
                            expected_total: old(self).total,
                        },
                    ),
                )
                &&& final(self).error == Some(
                    PlaybackError::Io(
                        IoError::UnexpectedEof {
                            consumed: old(self).consumed,
                            expected_total: old(self).total,
                        },
                    ),
                )
                &&& final(self).sink_armed == old(self).sink_armed
                &&& final(self).pending_write == 0
            },
            n > 0 ==> {
                &&& final(self).state is Streaming
                &&& final(self).pending_write == n
                &&& r == Ok::<usize, PlaybackError>(n)
            },
    {
        if n == 0 {
            let e = PlaybackError::Io(
                IoError::UnexpectedEof { consumed: self.consumed, expected_total: self.total },
            );
            self.state = EngineState::Aborted;
            self.error = Some(e);
            Err(e)
        } else {
            self.pending_write = n;
            Ok(n)
        }
    }

    /// Event: the blocking sink write of the pending chunk completed within
    /// its timeout. The cursor advances by exactly the chunk's length.
    pub fn on_chunk_written(&mut self)
        requires
            old(self).wf(),
            old(self).state is Streaming,
            old(self).pending_write > 0,
        ensures
            final(self).wf(),
            final(self).same_session(*old(self)),
            final(self).state is Streaming,
            final(self).total == old(self).total,
            final(self).header == old(self).header,
            final(self).consumed == old(self).consumed + old(self).pending_write,
            final(self).pending_write == 0,
            final(self).sink_armed,
    {
        self.consumed = self.consumed + self.pending_write as u32;
        self.pending_write = 0;
    }

    /// Event: a sink operation failed — configuration or enable before
    /// streaming, or a write that missed its timeout during streaming.
    pub fn on_sink_fault(&mut self, fault: SinkError) -> (e: PlaybackError)
        requires
            old(self).wf(),
            (old(self).state is Validated && !(fault is Timeout)) || (old(self).state
                is Streaming && fault is Timeout),
        ensures
            final(self).wf(),
            final(self).same_session(*old(self)),
            final(self).state is Aborted,
            e == PlaybackError::Sink(fault),
            final(self).error == Some(PlaybackError::Sink(fault)),
            final(self).sink_armed == old(self).sink_armed,
            final(self).consumed == old(self).consumed,
    {
        let e = PlaybackError::Sink(fault);
        self.state = EngineState::Aborted;
        self.error = Some(e);
        self.pending_write = 0;
        e
    }

    /// Event: the storage device failed a read or a seek.
    pub fn on_storage_fault(&mut self) -> (e: PlaybackError)
        requires
            old(self).wf(),
            old(self).state is Idle || old(self).state is SinkArmed || old(self).state
                is Streaming,
        ensures
            final(self).wf(),
            final(self).same_session(*old(self)),
            final(self).state is Aborted,
            e == PlaybackError::Io(IoError::Storage),
            final(self).error == Some(PlaybackError::Io(IoError::Storage)),
            final(self).sink_armed == old(self).sink_armed,
            final(self).consumed == old(self).consumed,
    {
        let e = PlaybackError::Io(IoError::Storage);
        self.state = EngineState::Aborted;
        self.error = Some(e);
        self.pending_write = 0;
        e
    }

    /// Event: the transfer loop exited normally and the caller disabled the
    /// sink's transmit path.
    pub fn on_sink_disabled(&mut self)
        requires
            old(self).wf(),
            old(self).state is Streaming,
            old(self).pending_write == 0,
            old(self).consumed == old(self).total,
        ensures
            final(self).wf(),
            final(self).same_session(*old(self)),
            final(self).state is Drained,
            final(self).total == old(self).total,
            final(self).consumed == old(self).total,
            !final(self).sink_armed,
    {
        self.state = EngineState::Drained;
        self.sink_armed = false;
    }

    /// Record the transfer phase's wall-clock duration and close the
    /// session. No further transitions are permitted.
    pub fn finish(&mut self, elapsed_ms: u64)
        requires
            old(self).wf(),
            old(self).state is Drained,
        ensures
            final(self).wf(),
            final(self).same_session(*old(self)),
            final(self).state is Finished,
            final(self).elapsed_ms == Some(elapsed_ms),
            final(self).total == old(self).total,
            final(self).consumed == old(self).total,
    {
        self.state = EngineState::Finished;
        self.elapsed_ms = Some(elapsed_ms);
    }

    /// Whether an aborted session left the sink transmitting, so that the
    /// caller must still attempt a best-effort disable.
    pub fn needs_sink_cleanup(&self) -> (b: bool)
        requires
            self.wf(),
        ensures
            b <==> (self.state is Aborted && self.sink_armed),
    {
        match self.state {
            EngineState::Aborted => self.sink_armed,
            _ => false,
        }
    }

    /// Event: the best-effort disable after an abort was attempted (its own
    /// failure is swallowed — the primary error already dominates).
    pub fn on_sink_cleanup(&mut self)
        requires
            old(self).wf(),
            old(self).state is Aborted,
        ensures
            final(self).wf(),
            final(self).same_session(*old(self)),
            final(self).state is Aborted,
            final(self).error == old(self).error,
            !final(self).sink_armed,
    {
        self.sink_armed = false;
    }
}

/// Law: a streaming session that has consumed exactly the first `i` chunks
/// of the schedule requests scheduled chunk `i` as its next read — so a
/// session driven by a source that always yields the requested bytes
/// performs exactly the reads and writes of `chunk_schedule`.
pub proof fn lemma_engine_follows_schedule(e: StreamingPlaybackEngine, i: int)
    requires
        e.wf(),
        e.state is Streaming,
        e.pending_write == 0,
        0 <= i < crate::schedule::chunk_schedule(e.total as int, e.chunk_capacity as int).len(),
        e.consumed as int == crate::schedule::sum_of(
            crate::schedule::chunk_schedule(e.total as int, e.chunk_capacity as int).take(i),
        ),
    ensures
        spec_min(e.chunk_capacity as int, e.remaining_bytes()) == crate::schedule::chunk_schedule(
            e.total as int,
            e.chunk_capacity as int,
        )[i],
{
    crate::schedule::lemma_schedule_step(e.total as int, e.chunk_capacity as int, i);
}

} // verus!
