//! Model of one direction of the bidirectional byte relay.
//!
//! After the success reply, the session copies bytes verbatim in both
//! directions. Each direction is driven by the surrounding program: it reads
//! a chunk from its source, hands it to [`RelayDirection::forward`], and
//! writes what comes back to its sink. The contract pins the copy down: the
//! chunk comes back byte-identical, and the ghost record of carried bytes
//! grows by exactly that chunk, so the bytes written downstream are the bytes
//! read upstream, in order.

use vstd::prelude::*;

verus! {

/// One direction of the relay, with a ghost record of every byte it has
/// carried so far.
pub struct RelayDirection {
    log: Ghost<Seq<u8>>,
}

impl RelayDirection {
    /// All bytes this direction has carried, in order.
    pub closed spec fn carried(self) -> Seq<u8> {
        self.log@
    }

    /// A direction that has carried nothing yet.
    pub fn new() -> (r: RelayDirection)
        ensures
            r.carried() == Seq::<u8>::empty(),
    {
        RelayDirection { log: Ghost(Seq::empty()) }
    }

    /// Law: relayed bytes pass through byte-identical and in order. The chunk
    /// handed back for writing is exactly the chunk read, and the record of
    /// carried bytes grows by exactly that chunk.
    pub fn forward(&mut self, chunk: Vec<u8>) -> (out: Vec<u8>)
        ensures
            out@ == chunk@,
            final(self).carried() == old(self).carried() + chunk@,
    {
        proof {
            self.log@ = self.log@ + chunk@;
        }
        chunk
    }
}

} // verus!
