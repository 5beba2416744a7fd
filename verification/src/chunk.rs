//! Chunk transport: the unit of data moved by a directional pump, and the
//! outcome of one read on an endpoint.
//!
//! A chunk is an immutable, non-empty run of bytes obtained by a single read
//! on a socket. Chunk boundaries carry no meaning: the relay forwards bytes,
//! not frames. `ReadEvent` is what one read attempt on an endpoint can yield;
//! the caller that owns the socket translates the native I/O result into one
//! of its variants and hands it to the pump.

use vstd::prelude::*;

verus! {

/// A non-empty run of bytes read from an endpoint in one I/O operation.
///
/// Ownership of a chunk moves from the reader to the writer, so at most one
/// chunk per direction is ever in flight.
pub struct Chunk {
    data: Vec<u8>,
}

impl View for Chunk {
    type V = Seq<u8>;

    closed spec fn view(&self) -> Seq<u8> {
        self.data@
    }
}

impl Chunk {
    /// A chunk is well formed when it holds at least one byte.
    pub open spec fn wf(self) -> bool {
        self@.len() > 0
    }

    /// Wraps bytes read from a socket; an empty read yields no chunk.
    pub fn new(data: Vec<u8>) -> (r: Option<Chunk>)
        ensures
            data@.len() > 0 ==> (r matches Some(c) && c@ == data@ && c.wf()),
            data@.len() == 0 ==> r is None,
    {
        if data.len() > 0 {
            Some(Chunk { data })
        } else {
            None
        }
    }

    /// The bytes this chunk carries.
    pub fn bytes(&self) -> (r: &Vec<u8>)
        ensures
            r@ == self@,
    {
        &self.data
    }

    /// Gives the bytes back to the caller, consuming the chunk.
    pub fn into_bytes(self) -> (r: Vec<u8>)
        ensures
            r@ == self@,
    {
        self.data
    }

    /// How many bytes the chunk carries.
    pub fn len(&self) -> (r: usize)
        ensures
            r == self@.len(),
    {
        self.data.len()
    }
}

/// The outcome of one read attempt on an endpoint.
pub enum ReadEvent {
    /// The read produced a chunk of bytes.
    Data(Chunk),
    /// The peer closed its side: end of stream.
    Closed,
    /// The read failed with an I/O error.
    Failed,
}

/// A read event is well formed when any chunk it carries is non-empty.
pub open spec fn read_event_wf(ev: ReadEvent) -> bool {
    match ev {
        ReadEvent::Data(c) => c.wf(),
        ReadEvent::Closed => true,
        ReadEvent::Failed => true,
    }
}

} // verus!
