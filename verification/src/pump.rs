//! Directional pump: moves chunks from one endpoint of a pair to the other.
//!
//! A pump alternates between reading one chunk from its source endpoint and
//! writing that chunk to its sink endpoint, so at most one chunk is in flight
//! per direction. It finishes when the source reaches end of stream, the
//! source read fails, or the sink write fails; it never retries. The caller
//! that owns the sockets performs the actual reads and writes and reports
//! each outcome through [`Pump::on_read`] and [`Pump::on_write`].
//!
//! The abstract state [`PumpModel`] keeps the full byte history of the
//! direction: everything taken from the source and everything delivered to
//! the sink, each in order. The pump's well-formedness ties the two together
//! and yields the transport guarantee: delivered bytes are always a prefix of
//! read bytes, and once the source closed cleanly the two are equal.

use vstd::prelude::*;

use crate::chunk::Chunk;
use crate::chunk::ReadEvent;
use crate::chunk::read_event_wf;

verus! {

/// Where a pump stands in its read/write cycle.
#[derive(Clone, Copy, Debug, PartialEq, Eq, Structural)]
pub enum Phase {
    /// Waiting for the next read outcome from the source endpoint.
    Reading,
    /// A chunk has been read and is being written to the sink endpoint.
    Writing,
    /// The pump has finished and will take no further event.
    Done,
}

/// The abstract state of one directional pump.
pub struct PumpModel {
    /// Where the pump stands in its cycle.
    pub phase: Phase,
    /// True once the pump finished because the source reached end of stream
    /// with every byte already delivered; false while running or after an
    /// error ended the pump.
    pub clean: bool,
    /// All bytes taken from the source endpoint, in read order.
    pub received: Seq<u8>,
    /// All bytes delivered to the sink endpoint, in write order.
    pub forwarded: Seq<u8>,
    /// Bytes read but not yet delivered: the one chunk in flight.
    pub pending: Seq<u8>,
}

/// The byte accounting that every reachable pump state satisfies.
pub open spec fn pump_wf(m: PumpModel) -> bool {
    match m.phase {
        Phase::Reading => m.pending.len() == 0 && m.forwarded == m.received && !m.clean,
        Phase::Writing => m.pending.len() > 0 && m.received == m.forwarded + m.pending && !m.clean,
        Phase::Done => m.received == m.forwarded + m.pending && (m.clean ==> m.pending.len() == 0),
    }
}

/// The state of a pump that has not yet moved a byte.
pub open spec fn pump_init() -> PumpModel {
    PumpModel {
        phase: Phase::Reading,
        clean: false,
        received: Seq::<u8>::empty(),
        forwarded: Seq::<u8>::empty(),
        pending: Seq::<u8>::empty(),
    }
}

/// How a pump reacts to the outcome of one read on its source endpoint:
/// a chunk moves the pump to its write half, end of stream finishes it
/// cleanly, and a read error finishes it. A pump not in its read half
/// ignores the event.
pub open spec fn pump_read(m: PumpModel, ev: ReadEvent) -> PumpModel {
    if m.phase != Phase::Reading {
        m
    } else {
        match ev {
            ReadEvent::Data(c) => PumpModel {
                phase: Phase::Writing,
                clean: m.clean,
                received: m.received + c@,
                forwarded: m.forwarded,
                pending: c@,
            },
            ReadEvent::Closed => PumpModel {
                phase: Phase::Done,
                clean: true,
                received: m.received,
                forwarded: m.forwarded,
                pending: m.pending,
            },
            ReadEvent::Failed => PumpModel {
                phase: Phase::Done,
                clean: false,
                received: m.received,
                forwarded: m.forwarded,
                pending: m.pending,
            },
        }
    }
}

/// How a pump reacts to the outcome of writing its in-flight chunk: success
/// delivers the chunk and returns the pump to its read half, failure
/// finishes the pump with the chunk undelivered. A pump not in its write
/// half ignores the event.
pub open spec fn pump_write(m: PumpModel, ok: bool) -> PumpModel {
    if m.phase != Phase::Writing {
        m
    } else if ok {
        PumpModel {
            phase: Phase::Reading,
            clean: m.clean,
            received: m.received,
            forwarded: m.forwarded + m.pending,
            pending: Seq::<u8>::empty(),
        }
    } else {
        PumpModel {
            phase: Phase::Done,
            clean: false,
            received: m.received,
            forwarded: m.forwarded,
            pending: m.pending,
        }
    }
}

/// One directional pump: the executable carrier of a [`PumpModel`].
///
/// The runtime fields say only where the pump stands; the byte history
/// exists in ghost fields so that the contracts can speak of every byte the
/// direction ever moved.
pub struct Pump {
    /// Where the pump stands in its cycle.
    pub phase: Phase,
    /// Whether the pump finished cleanly at end of stream.
    pub clean: bool,
    /// Bytes taken from the source endpoint, in order.
    pub received: Ghost<Seq<u8>>,
    /// Bytes delivered to the sink endpoint, in order.
    pub forwarded: Ghost<Seq<u8>>,
    /// Bytes of the chunk currently in flight.
    pub pending: Ghost<Seq<u8>>,
}

impl View for Pump {
    type V = PumpModel;

    open spec fn view(&self) -> PumpModel {
        PumpModel {
            phase: self.phase,
            clean: self.clean,
            received: self.received@,
            forwarded: self.forwarded@,
            pending: self.pending@,
        }
    }
}

impl Pump {
    /// A pump is well formed when its abstract state is.
    pub open spec fn wf(self) -> bool {
        pump_wf(self@)
    }

    /// A fresh pump, ready to read and with no byte moved yet.
    pub fn new() -> (p: Pump)
        ensures
            p@ == pump_init(),
            p.wf(),
    {
        Pump {
            phase: Phase::Reading,
            clean: false,
            received: Ghost(Seq::<u8>::empty()),
            forwarded: Ghost(Seq::<u8>::empty()),
            pending: Ghost(Seq::<u8>::empty()),
        }
    }

    /// Feeds the pump the outcome of one read on its source endpoint.
    ///
    /// A chunk is handed back to the caller to be written to the sink; end
    /// of stream and read errors finish the pump and yield nothing.
    pub fn on_read(&mut self, ev: ReadEvent) -> (r: Option<Chunk>)
        requires
            old(self).wf(),
            old(self)@.phase == Phase::Reading,
            read_event_wf(ev),
        ensures
            final(self).wf(),
            final(self)@ == pump_read(old(self)@, ev),
            match ev {
                ReadEvent::Data(c) => r == Some(c),
                ReadEvent::Closed => r is None,
                ReadEvent::Failed => r is None,
            },
    {
        match ev {
            ReadEvent::Data(c) => {
                self.received = Ghost(self.received@ + c@);
                self.pending = Ghost(c@);
                self.phase = Phase::Writing;
                Some(c)
            }
            ReadEvent::Closed => {
                self.phase = Phase::Done;
                self.clean = true;
                None
            }
            ReadEvent::Failed => {
                self.phase = Phase::Done;
                None
            }
        }
    }

    /// Feeds the pump the outcome of writing its in-flight chunk to the
    /// sink endpoint.
    pub fn on_write(&mut self, ok: bool)
        requires
            old(self).wf(),
            old(self)@.phase == Phase::Writing,
        ensures
            final(self).wf(),
            final(self)@ == pump_write(old(self)@, ok),
    {
        if ok {
            self.forwarded = Ghost(self.forwarded@ + self.pending@);
            self.pending = Ghost(Seq::<u8>::empty());
            self.phase = Phase::Reading;
        } else {
            self.phase = Phase::Done;
        }
    }

    /// Whether the pump has finished.
    pub fn is_done(&self) -> (r: bool)
        ensures
            r == (self@.phase == Phase::Done),
    {
        self.phase == Phase::Done
    }
}

/// Law: bytes move strictly in order. In every reachable pump state, the
/// bytes delivered to the sink are a prefix of the bytes read from the
/// source.
pub proof fn lemma_forwarded_prefix_of_received(m: PumpModel)
    requires
        pump_wf(m),
    ensures
        m.forwarded.is_prefix_of(m.received),
{
    match m.phase {
        Phase::Reading => {
            assert(m.forwarded =~= m.received.subrange(0, m.forwarded.len() as int));
        }
        Phase::Writing => {
            assert(m.forwarded =~= m.received.subrange(0, m.forwarded.len() as int));
        }
        Phase::Done => {
            assert(m.forwarded =~= m.received.subrange(0, m.forwarded.len() as int));
        }
    }
}

/// Law: every byte sequence the source peer wrote before closing arrives at
/// the sink unchanged and in order. A pump that finished cleanly has
/// delivered exactly the bytes it read.
pub proof fn lemma_clean_finish_delivers_all(m: PumpModel)
    requires
        pump_wf(m),
        m.phase == Phase::Done,
        m.clean,
    ensures
        m.forwarded == m.received,
{
    assert(m.forwarded =~= m.received);
}

/// Law: the byte accounting is an invariant — a read outcome delivered to a
/// well-formed pump leaves it well formed.
pub proof fn lemma_pump_read_preserves_wf(m: PumpModel, ev: ReadEvent)
    requires
        pump_wf(m),
        read_event_wf(ev),
    ensures
        pump_wf(pump_read(m, ev)),
{
}

/// Law: the byte accounting is an invariant — a write outcome delivered to a
/// well-formed pump leaves it well formed.
pub proof fn lemma_pump_write_preserves_wf(m: PumpModel, ok: bool)
    requires
        pump_wf(m),
    ensures
        pump_wf(pump_write(m, ok)),
{
}

} // verus!
