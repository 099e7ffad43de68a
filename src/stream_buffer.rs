//! A bounded FIFO of opaque bytes, used for the ICMP direction towards the
//! network, where message framing does not matter inside the relay.

use vstd::prelude::*;

use crate::bytes::append_bytes;

verus! {

/// Bounded byte queue.
pub struct StreamBuffer {
    data: Vec<u8>,
    capacity: usize,
}

impl View for StreamBuffer {
    type V = Seq<u8>;

    closed spec fn view(&self) -> Seq<u8> {
        self.data@
    }
}

impl StreamBuffer {
    /// The number of bytes the buffer can hold.
    pub closed spec fn cap(&self) -> nat {
        self.capacity as nat
    }

    /// The queued bytes never exceed the capacity.
    pub closed spec fn wf(&self) -> bool {
        self.data@.len() <= self.capacity
    }

    /// An empty buffer holding at most `capacity` bytes.
    pub fn new(capacity: usize) -> (r: Self)
        ensures
            r.wf(),
            r@ == Seq::<u8>::empty(),
            r.cap() == capacity,
    {
        StreamBuffer { data: Vec::new(), capacity }
    }

    /// The capacity given at construction.
    pub fn capacity(&self) -> (r: usize)
        ensures
            r == self.cap(),
    {
        self.capacity
    }

    /// Whether no byte is queued.
    pub fn is_empty(&self) -> (r: bool)
        ensures
            r == (self@.len() == 0),
    {
        self.data.len() == 0
    }

    /// The number of bytes that can still be appended.
    pub fn remaining(&self) -> (r: usize)
        requires
            self.wf(),
        ensures
            r == self.cap() - self@.len(),
    {
        self.capacity - self.data.len()
    }

    /// Appends all of `src`; the caller checks that it fits.
    pub fn read_from(&mut self, src: &[u8])
        requires
            old(self).wf(),
            src@.len() <= old(self).cap() - old(self)@.len(),
        ensures
            final(self).wf(),
            final(self)@ == old(self)@ + src@,
            final(self).cap() == old(self).cap(),
    {
        append_bytes(&mut self.data, src);
    }

    /// The queued bytes, in order, to be handed to a writer.
    pub fn pending(&self) -> (r: &[u8])
        ensures
            r@ == self@,
    {
        self.data.as_slice()
    }

    /// Drops the first `n` queued bytes, once a writer has taken them.
    pub fn consume(&mut self, n: usize)
        requires
            old(self).wf(),
            n <= old(self)@.len(),
        ensures
            final(self).wf(),
            final(self)@ == old(self)@.subrange(n as int, old(self)@.len() as int),
            final(self).cap() == old(self).cap(),
    {
        let mut rest: Vec<u8> = Vec::new();
        let mut i: usize = n;
        while i < self.data.len()
            invariant
                n <= i <= self.data@.len(),
                self.data@ == old(self).data@,
                rest@ == self.data@.subrange(n as int, i as int),
            decreases self.data@.len() - i,
        {
            rest.push(self.data[i]);
            i = i + 1;
            assert(self.data@.subrange(n as int, i as int) =~= self.data@.subrange(n as int, i - 1 as int).push(self.data@[i - 1]));
        }
        self.data = rest;
    }
}

} // verus!
