//! The peek buffer: the bytes a client has sent that were inspected but not
//! yet forwarded.
//!
//! During admission the buffer is the only record of what the client sent;
//! nothing is discarded until the handoff replays the whole capture to the
//! backend. Capacity is fixed at construction to the largest record the
//! classifier may need, bounding memory per connection.

use vstd::prelude::*;

verus! {

/// Whether a requested byte count is available, could still arrive, or can
/// never fit. "Insufficient so far" and "can never fit" stay distinct from a
/// hard parse failure: more bytes might still arrive.
#[derive(Clone, Copy, Debug, PartialEq, Eq, Structural)]
pub enum FillState {
    /// At least the requested count is captured.
    Ready,
    /// Fewer bytes are captured, but the request fits under the capacity.
    NeedMore,
    /// The request exceeds the capacity and can never be satisfied.
    CapacityExhausted,
}

/// The captured prefix of a connection, bounded by a fixed capacity.
pub struct PeekBuffer {
    data: Vec<u8>,
    capacity: usize,
}

impl PeekBuffer {
    /// The bytes captured so far, exactly what the client sent un-forwarded.
    pub closed spec fn bytes(&self) -> Seq<u8> {
        self.data@
    }

    /// The fixed capacity set at construction.
    pub closed spec fn cap(&self) -> nat {
        self.capacity as nat
    }

    /// The capture never outgrows the capacity.
    pub closed spec fn wf(&self) -> bool {
        self.data@.len() <= self.capacity
    }

    /// An empty buffer with the given fixed capacity.
    pub fn with_capacity(capacity: usize) -> (pb: PeekBuffer)
        ensures
            pb.wf(),
            pb.bytes() == Seq::<u8>::empty(),
            pb.cap() == capacity,
    {
        PeekBuffer { data: Vec::new(), capacity }
    }

    /// How many captured bytes there are.
    pub fn len(&self) -> (n: usize)
        ensures
            n == self.bytes().len(),
    {
        self.data.len()
    }

    /// How many more bytes may be captured before the capacity is reached.
    pub fn remaining(&self) -> (n: usize)
        requires
            self.wf(),
        ensures
            n == self.cap() - self.bytes().len(),
    {
        self.capacity - self.data.len()
    }

    /// Whether `n` bytes are available, may still arrive, or can never fit.
    pub fn fill_state(&self, n: usize) -> (r: FillState)
        requires
            self.wf(),
        ensures
            r == FillState::Ready <==> n <= self.bytes().len(),
            r == FillState::NeedMore <==> self.bytes().len() < n <= self.cap(),
            r == FillState::CapacityExhausted <==> n > self.cap(),
    {
        if n <= self.data.len() {
            FillState::Ready
        } else if n <= self.capacity {
            FillState::NeedMore
        } else {
            FillState::CapacityExhausted
        }
    }

    /// Append bytes just read from the socket. Nothing already captured is
    /// dropped or reordered; the chunk must fit under the capacity, so the
    /// caller reads at most `remaining()` bytes at a time.
    pub fn feed(&mut self, chunk: &[u8])
        requires
            old(self).wf(),
            chunk@.len() <= old(self).cap() - old(self).bytes().len(),
        ensures
            final(self).wf(),
            final(self).bytes() == old(self).bytes() + chunk@,
            final(self).cap() == old(self).cap(),
    {
        let mut i: usize = 0;
        while i < chunk.len()
            invariant
                i <= chunk@.len(),
                self.capacity == old(self).capacity,
                self.data@.len() == old(self).data@.len() + i,
                self.data@ == old(self).data@ + chunk@.subrange(0, i as int),
                old(self).data@.len() + chunk@.len() <= self.capacity,
            decreases chunk@.len() - i,
        {
            self.data.push(chunk[i]);
            i = i + 1;
            proof {
                assert(self.data@ =~= old(self).data@ + chunk@.subrange(0, i as int));
            }
        }
        proof {
            assert(self.data@ =~= old(self).data@ + chunk@);
        }
    }

    /// The captured bytes, without consuming them.
    pub fn buffer(&self) -> (b: &Vec<u8>)
        ensures
            b@ == self.bytes(),
    {
        &self.data
    }

    /// Consume the buffer and take the capture as a plain byte vector: the
    /// snapshot the handoff replays to the backend. After this the socket is
    /// used raw; the admission layer holds no second copy to lose or
    /// duplicate.
    pub fn into_bytes(self) -> (b: Vec<u8>)
        ensures
            b@ == self.bytes(),
    {
        self.data
    }
}

} // verus!
