//! Connection acceptor: the decision made for each inbound connection.
//!
//! The accept loop itself lives with the process that owns the listening
//! socket; for every accepted connection it dials the fixed destination and
//! reports the outcome here. On a successful dial a fresh relay pair comes
//! into being; on a failed dial the accepted connection is closed on the
//! spot and handed back, and no relay is started. A listener-level failure
//! stops the acceptor for good.

use vstd::prelude::*;

use crate::relay::Endpoint;
use crate::relay::Pair;
use crate::relay::pair_init;

verus! {

/// Where the acceptor stands.
#[derive(Clone, Copy, Debug, PartialEq, Eq, Structural)]
pub enum AcceptorState {
    /// Accepting inbound connections.
    Listening,
    /// The listening socket failed or closed: the service is over.
    Stopped,
}

/// What becomes of one accepted connection.
pub enum AcceptOutcome {
    /// The destination was dialed: a fresh pair, ready for its relay.
    Started(Pair),
    /// The dial failed: the accepted connection, already closed.
    Discarded(Endpoint),
}

/// The accept loop's state machine. It never stops on the failure of one
/// connection; only a listener-level error ends it.
pub struct Acceptor {
    /// Where the acceptor stands.
    pub state: AcceptorState,
}

impl Acceptor {
    /// An acceptor whose listening socket was just bound.
    pub fn new() -> (a: Acceptor)
        ensures
            a.state == AcceptorState::Listening,
    {
        Acceptor { state: AcceptorState::Listening }
    }

    /// Decides what to do with one accepted connection, given whether the
    /// dial to the destination succeeded.
    ///
    /// A successful dial yields a whole pair — a source is never retained
    /// without its destination. A failed dial never leaves the accepted
    /// connection open: it comes back closed, and no relay is started.
    pub fn handle_inbound(&self, source: Endpoint, dial_ok: bool) -> (r: AcceptOutcome)
        requires
            self.state == AcceptorState::Listening,
            source.open,
        ensures
            dial_ok ==> (r matches AcceptOutcome::Started(p) && p@ == pair_init() && p.wf()),
            !dial_ok ==> (r matches AcceptOutcome::Discarded(e) && !e.open),
    {
        if dial_ok {
            let dest = Endpoint::new_open();
            AcceptOutcome::Started(Pair::new(source, dest))
        } else {
            let mut source = source;
            source.close();
            AcceptOutcome::Discarded(source)
        }
    }

    /// Absorbs a listener-level error: the acceptor stops for good.
    pub fn on_listener_error(&mut self)
        ensures
            final(self).state == AcceptorState::Stopped,
    {
        self.state = AcceptorState::Stopped;
    }
}

} // verus!
