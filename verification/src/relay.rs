//! Connection relay: one accepted connection paired with one dialed
//! destination connection, two directional pumps, and exactly-once teardown.
//!
//! The pair owns both endpoints for their whole lifetime. Whichever pump
//! finishes first — source exhausted, destination exhausted, or either side
//! failing — raises the pair's shutdown signal; the first and only the first
//! raise tears the pair down, closing both endpoints. A pump that finishes
//! after teardown finds the signal already raised and changes nothing more.
//! The caller that owns the sockets drives the pair by reporting each read
//! and write outcome and performing the returned [`RelayAction`].

use vstd::prelude::*;

use crate::chunk::Chunk;
use crate::chunk::ReadEvent;
use crate::chunk::read_event_wf;
use crate::pump::Phase;
use crate::pump::Pump;
use crate::pump::PumpModel;
use crate::pump::pump_init;
use crate::pump::pump_read;
use crate::pump::pump_write;
use crate::pump::pump_wf;
use crate::pump::lemma_pump_read_preserves_wf;
use crate::pump::lemma_pump_write_preserves_wf;

verus! {

/// One side of a connection pair: an open or already-closed byte-stream
/// connection. The process around the relay holds the real socket; this
/// value tracks what the relay has decided about it.
pub struct Endpoint {
    /// Whether the relay still holds this connection open.
    pub open: bool,
}

impl Endpoint {
    /// An endpoint for a connection that was just accepted or dialed.
    pub fn new_open() -> (e: Endpoint)
        ensures
            e.open,
    {
        Endpoint { open: true }
    }

    /// Releases the connection.
    pub fn close(&mut self)
        ensures
            !final(self).open,
    {
        self.open = false;
    }
}

/// The pair's single logical "this pair is done" event.
///
/// Up to two pumps may race to deliver it; only the first delivery takes
/// effect, every later one is a no-op.
pub struct ShutdownSignal {
    /// Whether the signal has been raised at least once.
    pub raised: bool,
}

impl ShutdownSignal {
    /// A signal that nobody has raised yet.
    pub fn new() -> (s: ShutdownSignal)
        ensures
            !s.raised,
    {
        ShutdownSignal { raised: false }
    }

    /// Raises the signal; reports whether this delivery was the first.
    pub fn raise(&mut self) -> (first: bool)
        ensures
            final(self).raised,
            first == !old(self).raised,
    {
        let first = !self.raised;
        self.raised = true;
        first
    }
}

/// The abstract state of one connection pair.
pub struct PairModel {
    /// Whether the accepted source connection is still open.
    pub source_open: bool,
    /// Whether the dialed destination connection is still open.
    pub dest_open: bool,
    /// Whether the shutdown signal has been raised.
    pub signaled: bool,
    /// How many times the pair has been torn down.
    pub teardowns: nat,
    /// The pump that copies source bytes to the destination.
    pub inbound: PumpModel,
    /// The pump that copies destination bytes back to the source.
    pub outbound: PumpModel,
}

/// What every reachable pair state satisfies: both pumps keep their byte
/// accounting, the signal is raised exactly when some pump has finished,
/// and the pair has been torn down — both endpoints closed — exactly once
/// if signaled and not at all otherwise.
pub open spec fn pair_wf(p: PairModel) -> bool {
    &&& pump_wf(p.inbound)
    &&& pump_wf(p.outbound)
    &&& p.signaled <==> (p.inbound.phase == Phase::Done || p.outbound.phase == Phase::Done)
    &&& p.signaled ==> !p.source_open && !p.dest_open
    &&& !p.signaled ==> p.source_open && p.dest_open
    &&& p.teardowns == if p.signaled { 1nat } else { 0nat }
}

/// A pair as the acceptor hands it to a fresh relay: both connections open,
/// both pumps idle, no signal raised, no teardown performed.
pub open spec fn pair_init() -> PairModel {
    PairModel {
        source_open: true,
        dest_open: true,
        signaled: false,
        teardowns: 0,
        inbound: pump_init(),
        outbound: pump_init(),
    }
}

/// How a pair absorbs the completion of one of its pumps: the first
/// delivery of the shutdown signal tears the pair down, closing both
/// endpoints; a delivery after that changes nothing.
pub open spec fn pair_settle(p: PairModel) -> PairModel {
    if p.signaled {
        p
    } else {
        PairModel {
            source_open: false,
            dest_open: false,
            signaled: true,
            teardowns: p.teardowns + 1,
            inbound: p.inbound,
            outbound: p.outbound,
        }
    }
}

/// The pair after a read outcome on the source connection.
pub open spec fn pair_source_read(p: PairModel, ev: ReadEvent) -> PairModel {
    let ib = pump_read(p.inbound, ev);
    let q = PairModel {
        source_open: p.source_open,
        dest_open: p.dest_open,
        signaled: p.signaled,
        teardowns: p.teardowns,
        inbound: ib,
        outbound: p.outbound,
    };
    if ib.phase == Phase::Done {
        pair_settle(q)
    } else {
        q
    }
}

/// The pair after a read outcome on the destination connection.
pub open spec fn pair_dest_read(p: PairModel, ev: ReadEvent) -> PairModel {
    let ob = pump_read(p.outbound, ev);
    let q = PairModel {
        source_open: p.source_open,
        dest_open: p.dest_open,
        signaled: p.signaled,
        teardowns: p.teardowns,
        inbound: p.inbound,
        outbound: ob,
    };
    if ob.phase == Phase::Done {
        pair_settle(q)
    } else {
        q
    }
}

/// The pair after the outcome of writing the inbound pump's chunk to the
/// destination connection.
pub open spec fn pair_dest_write(p: PairModel, ok: bool) -> PairModel {
    let ib = pump_write(p.inbound, ok);
    let q = PairModel {
        source_open: p.source_open,
        dest_open: p.dest_open,
        signaled: p.signaled,
        teardowns: p.teardowns,
        inbound: ib,
        outbound: p.outbound,
    };
    if ib.phase == Phase::Done {
        pair_settle(q)
    } else {
        q
    }
}

/// The pair after the outcome of writing the outbound pump's chunk to the
/// source connection.
pub open spec fn pair_source_write(p: PairModel, ok: bool) -> PairModel {
    let ob = pump_write(p.outbound, ok);
    let q = PairModel {
        source_open: p.source_open,
        dest_open: p.dest_open,
        signaled: p.signaled,
        teardowns: p.teardowns,
        inbound: p.inbound,
        outbound: ob,
    };
    if ob.phase == Phase::Done {
        pair_settle(q)
    } else {
        q
    }
}

/// What the process around the relay must do after reporting an outcome.
pub enum RelayAction {
    /// Write this chunk to the paired connection, then report the outcome.
    Deliver(Chunk),
    /// The write completed: read the next chunk from the same side.
    Resume,
    /// This pump finished first: close both connections of the pair now.
    Teardown,
    /// This pump finished after the pair was already torn down: nothing is
    /// left to do.
    Stop,
}

/// One connection pair: the accepted source connection, its dialed
/// destination connection, the two directional pumps, and the shutdown
/// signal they share.
pub struct Pair {
    /// The accepted inbound connection.
    pub source: Endpoint,
    /// The dialed outbound connection.
    pub dest: Endpoint,
    /// The single "this pair is done" event.
    pub signal: ShutdownSignal,
    /// How many times teardown has run; the contracts keep it at most one.
    pub teardowns: Ghost<nat>,
    /// The source-to-destination pump.
    pub inbound: Pump,
    /// The destination-to-source pump.
    pub outbound: Pump,
}

impl View for Pair {
    type V = PairModel;

    open spec fn view(&self) -> PairModel {
        PairModel {
            source_open: self.source.open,
            dest_open: self.dest.open,
            signaled: self.signal.raised,
            teardowns: self.teardowns@,
            inbound: self.inbound@,
            outbound: self.outbound@,
        }
    }
}

impl Pair {
    /// A pair is well formed when its abstract state is.
    pub open spec fn wf(self) -> bool {
        pair_wf(self@)
    }

    /// Joins an accepted source connection and a freshly dialed destination
    /// connection into one relay pair. A pair only ever comes into being
    /// whole: a source is never retained without its destination.
    pub fn new(source: Endpoint, dest: Endpoint) -> (p: Pair)
        requires
            source.open,
            dest.open,
        ensures
            p@ == pair_init(),
            p.wf(),
    {
        Pair {
            source,
            dest,
            signal: ShutdownSignal::new(),
            teardowns: Ghost(0nat),
            inbound: Pump::new(),
            outbound: Pump::new(),
        }
    }

    /// Absorbs the completion of a pump: delivers the shutdown signal and,
    /// on the first delivery only, tears the pair down.
    fn settle(&mut self) -> (r: RelayAction)
        requires
            old(self)@.signaled ==> !old(self)@.source_open && !old(self)@.dest_open,
            !old(self)@.signaled ==> old(self)@.source_open && old(self)@.dest_open,
            old(self)@.teardowns == if old(self)@.signaled { 1nat } else { 0nat },
        ensures
            final(self)@ == pair_settle(old(self)@),
            r == if old(self)@.signaled { RelayAction::Stop } else { RelayAction::Teardown },
    {
        let first = self.signal.raise();
        if first {
            self.source.close();
            self.dest.close();
            self.teardowns = Ghost(self.teardowns@ + 1);
            RelayAction::Teardown
        } else {
            RelayAction::Stop
        }
    }

    /// Reports the outcome of one read on the source connection.
    ///
    /// A chunk comes back as [`RelayAction::Deliver`] to be written to the
    /// destination; end of stream or a read error finishes the inbound pump
    /// and the action says whether this completion tears the pair down.
    pub fn on_source_read(&mut self, ev: ReadEvent) -> (r: RelayAction)
        requires
            old(self).wf(),
            old(self)@.inbound.phase == Phase::Reading,
            read_event_wf(ev),
        ensures
            final(self).wf(),
            final(self)@ == pair_source_read(old(self)@, ev),
            match ev {
                ReadEvent::Data(c) => r == RelayAction::Deliver(c),
                ReadEvent::Closed => r == if old(self)@.signaled {
                    RelayAction::Stop
                } else {
                    RelayAction::Teardown
                },
                ReadEvent::Failed => r == if old(self)@.signaled {
                    RelayAction::Stop
                } else {
                    RelayAction::Teardown
                },
            },
    {
        match self.inbound.on_read(ev) {
            Some(c) => RelayAction::Deliver(c),
            None => self.settle(),
        }
    }

    /// Reports the outcome of one read on the destination connection.
    ///
    /// A chunk comes back as [`RelayAction::Deliver`] to be written to the
    /// source; end of stream or a read error finishes the outbound pump and
    /// the action says whether this completion tears the pair down.
    pub fn on_dest_read(&mut self, ev: ReadEvent) -> (r: RelayAction)
        requires
            old(self).wf(),
            old(self)@.outbound.phase == Phase::Reading,
            read_event_wf(ev),
        ensures
            final(self).wf(),
            final(self)@ == pair_dest_read(old(self)@, ev),
            match ev {
                ReadEvent::Data(c) => r == RelayAction::Deliver(c),
                ReadEvent::Closed => r == if old(self)@.signaled {
                    RelayAction::Stop
                } else {
                    RelayAction::Teardown
                },
                ReadEvent::Failed => r == if old(self)@.signaled {
                    RelayAction::Stop
                } else {
                    RelayAction::Teardown
                },
            },
    {
        match self.outbound.on_read(ev) {
            Some(c) => RelayAction::Deliver(c),
            None => self.settle(),
        }
    }

    /// Reports the outcome of writing the inbound pump's chunk to the
    /// destination connection. A failed write — including one that lost a
    /// race with the peer closing — is ordinary pair teardown, never a
    /// fault.
    pub fn on_dest_write(&mut self, ok: bool) -> (r: RelayAction)
        requires
            old(self).wf(),
            old(self)@.inbound.phase == Phase::Writing,
        ensures
            final(self).wf(),
            final(self)@ == pair_dest_write(old(self)@, ok),
            ok ==> r == RelayAction::Resume,
            !ok ==> r == if old(self)@.signaled {
                RelayAction::Stop
            } else {
                RelayAction::Teardown
            },
    {
        self.inbound.on_write(ok);
        if ok {
            RelayAction::Resume
        } else {
            self.settle()
        }
    }

    /// Reports the outcome of writing the outbound pump's chunk to the
    /// source connection. A failed write is ordinary pair teardown, never a
    /// fault.
    pub fn on_source_write(&mut self, ok: bool) -> (r: RelayAction)
        requires
            old(self).wf(),
            old(self)@.outbound.phase == Phase::Writing,
        ensures
            final(self).wf(),
            final(self)@ == pair_source_write(old(self)@, ok),
            ok ==> r == RelayAction::Resume,
            !ok ==> r == if old(self)@.signaled {
                RelayAction::Stop
            } else {
                RelayAction::Teardown
            },
    {
        self.outbound.on_write(ok);
        if ok {
            RelayAction::Resume
        } else {
            self.settle()
        }
    }
}

/// Any outcome the process can report to a pair: traffic, closure, or an
/// error on either side.
pub enum PairEvent {
    /// A read outcome on the source connection.
    SourceRead(ReadEvent),
    /// A read outcome on the destination connection.
    DestRead(ReadEvent),
    /// The outcome of a write to the destination connection.
    DestWrite(bool),
    /// The outcome of a write to the source connection.
    SourceWrite(bool),
}

/// A pair event is well formed when any chunk it carries is non-empty.
pub open spec fn pair_event_wf(ev: PairEvent) -> bool {
    match ev {
        PairEvent::SourceRead(r) => read_event_wf(r),
        PairEvent::DestRead(r) => read_event_wf(r),
        PairEvent::DestWrite(_) => true,
        PairEvent::SourceWrite(_) => true,
    }
}

/// The pair after absorbing one event, whichever side it concerns.
pub open spec fn pair_step(p: PairModel, ev: PairEvent) -> PairModel {
    match ev {
        PairEvent::SourceRead(r) => pair_source_read(p, r),
        PairEvent::DestRead(r) => pair_dest_read(p, r),
        PairEvent::DestWrite(ok) => pair_dest_write(p, ok),
        PairEvent::SourceWrite(ok) => pair_source_write(p, ok),
    }
}

/// Law: the pair invariant — byte accounting, signal, and exactly-once
/// teardown — survives every event.
pub proof fn lemma_pair_step_preserves_wf(p: PairModel, ev: PairEvent)
    requires
        pair_wf(p),
        pair_event_wf(ev),
    ensures
        pair_wf(pair_step(p, ev)),
{
    match ev {
        PairEvent::SourceRead(r) => {
            lemma_pump_read_preserves_wf(p.inbound, r);
        }
        PairEvent::DestRead(r) => {
            lemma_pump_read_preserves_wf(p.outbound, r);
        }
        PairEvent::DestWrite(ok) => {
            lemma_pump_write_preserves_wf(p.inbound, ok);
        }
        PairEvent::SourceWrite(ok) => {
            lemma_pump_write_preserves_wf(p.outbound, ok);
        }
    }
}

/// Law: closing one side while the other is idle closes the peer connection
/// within that same read cycle. End of stream on the source finishes the
/// inbound pump, and the teardown it triggers closes the destination — and
/// the source — at once.
pub proof fn lemma_source_close_closes_destination(p: PairModel)
    requires
        pair_wf(p),
        !p.signaled,
        p.inbound.phase == Phase::Reading,
    ensures
        !pair_source_read(p, ReadEvent::Closed).dest_open,
        !pair_source_read(p, ReadEvent::Closed).source_open,
        pair_source_read(p, ReadEvent::Closed).signaled,
{
}

/// Law: closing one side while the other is idle closes the peer connection
/// within that same read cycle — the destination-to-source direction.
pub proof fn lemma_dest_close_closes_source(p: PairModel)
    requires
        pair_wf(p),
        !p.signaled,
        p.outbound.phase == Phase::Reading,
    ensures
        !pair_dest_read(p, ReadEvent::Closed).source_open,
        !pair_dest_read(p, ReadEvent::Closed).dest_open,
        pair_dest_read(p, ReadEvent::Closed).signaled,
{
}

/// Law: even when both pumps deliver the shutdown signal nearly
/// simultaneously, the pair is torn down exactly once, and the second
/// delivery does not close anything again.
pub proof fn lemma_double_signal_single_teardown(p: PairModel, ev1: ReadEvent, ev2: ReadEvent)
    requires
        pair_wf(p),
        !p.signaled,
        p.inbound.phase == Phase::Reading,
        p.outbound.phase == Phase::Reading,
        !(ev1 matches ReadEvent::Data(_)),
        !(ev2 matches ReadEvent::Data(_)),
    ensures
        ({
            let q = pair_dest_read(pair_source_read(p, ev1), ev2);
            &&& q.teardowns == 1
            &&& q.signaled
            &&& !q.source_open
            &&& !q.dest_open
        }),
{
}

/// Law: connection pairs are isolated. In a service holding any collection
/// of pairs, an event on one pair — traffic, closure, or an error — leaves
/// every other pair exactly as it was.
pub open spec fn service_step(
    pairs: Map<nat, PairModel>,
    i: nat,
    ev: PairEvent,
) -> Map<nat, PairModel> {
    pairs.insert(i, pair_step(pairs[i], ev))
}

/// Law: stepping pair `i` does not affect any other pair `j`, and removes
/// no pair from the service.
pub proof fn lemma_pairs_isolated(pairs: Map<nat, PairModel>, i: nat, j: nat, ev: PairEvent)
    requires
        pairs.dom().contains(j),
        i != j,
    ensures
        service_step(pairs, i, ev).dom().contains(j),
        service_step(pairs, i, ev)[j] == pairs[j],
{
}

} // verus!
