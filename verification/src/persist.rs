//! The decimation gate in front of the state persister: of the snapshot
//! offered every tick, only every `buffer_size`-th one is written.

use vstd::prelude::*;

verus! {

/// Counts the snapshots offered and admits one in every `buffer_size`.
pub struct PersistGate {
    pub counter: i32,
    pub buffer_size: i32,
}

impl PersistGate {
    pub open spec fn wf(self) -> bool {
        0 <= self.counter < self.buffer_size
    }

    pub fn new(buffer_size: i32) -> (r: PersistGate)
        requires
            buffer_size > 0,
        ensures
            r.wf(),
            r.buffer_size == buffer_size,
            r.counter == 0,
    {
        PersistGate { counter: 0, buffer_size }
    }

    /// Whether the snapshot offered now is written: true on the first
    /// call and then once per `buffer_size` calls.
    pub fn should_write(&mut self) -> (r: bool)
        requires
            old(self).wf(),
        ensures
            final(self).wf(),
            final(self).buffer_size == old(self).buffer_size,
            r == (old(self).counter == 0),
            final(self).counter == (old(self).counter + 1) % (old(self).buffer_size as int),
    {
        proof {
            assert(self.counter % self.buffer_size == self.counter) by (nonlinear_arith)
                requires
                    0 <= self.counter < self.buffer_size,
            ;
        }
        let write = self.counter % self.buffer_size == 0;
        self.counter = (self.counter + 1) % self.buffer_size;
        write
    }
}

} // verus!
