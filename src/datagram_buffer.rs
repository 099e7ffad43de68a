//! A bounded FIFO of whole datagrams, used for the UDP direction towards the
//! network, where datagram boundaries must be kept.

use vstd::prelude::*;

use crate::bytes::copy_bytes;

verus! {

/// The total number of payload bytes of a sequence of datagrams.
pub open spec fn total_len(s: Seq<Seq<u8>>) -> nat
    decreases s.len(),
{
    if s.len() == 0 {
        0
    } else {
        total_len(s.drop_last()) + s.last().len()
    }
}

/// Removing the first datagram removes its bytes from the total.
pub proof fn lemma_total_len_drop_first(s: Seq<Seq<u8>>)
    requires
        s.len() > 0,
    ensures
        total_len(s) == s[0].len() + total_len(s.drop_first()),
    decreases s.len(),
{
    if s.len() > 1 {
        lemma_total_len_drop_first(s.drop_last());
        assert(s.drop_last().drop_first() =~= s.drop_first().drop_last());
        assert(s.drop_first().last() == s.last());
        assert(s.drop_last()[0] == s[0]);
        assert(total_len(s.drop_first()) == total_len(s.drop_first().drop_last()) + s.drop_first().last().len());
    } else {
        assert(s.drop_first().len() == 0);
        assert(s.drop_last().len() == 0);
        assert(total_len(s.drop_last()) == 0);
        assert(total_len(s.drop_first()) == 0);
    }
}

/// The datagram did not fit in what is left of the buffer.
#[derive(Debug, Clone, Copy, PartialEq, Eq, Structural)]
pub struct BufferFull;

/// Bounded datagram queue: the payload bytes of all queued datagrams never
/// exceed the capacity, and a datagram is queued whole or not at all.
pub struct DatagramBuffer {
    datagrams: Vec<Vec<u8>>,
    used: usize,
    capacity: usize,
}

impl View for DatagramBuffer {
    type V = Seq<Seq<u8>>;

    closed spec fn view(&self) -> Seq<Seq<u8>> {
        self.datagrams@.map_values(|d: Vec<u8>| d@)
    }
}

impl DatagramBuffer {
    /// The number of payload bytes the buffer can hold.
    pub closed spec fn cap(&self) -> nat {
        self.capacity as nat
    }

    /// The byte count is accurate and within the capacity.
    pub closed spec fn wf(&self) -> bool {
        &&& self.used == total_len(self@)
        &&& self.used <= self.capacity
    }

    /// An empty buffer holding at most `capacity` payload bytes.
    pub fn new(capacity: usize) -> (r: Self)
        ensures
            r.wf(),
            r@ == Seq::<Seq<u8>>::empty(),
            r.cap() == capacity,
    {
        let r = DatagramBuffer { datagrams: Vec::new(), used: 0, capacity };
        assert(r@ =~= Seq::<Seq<u8>>::empty());
        r
    }

    /// Whether no datagram is queued.
    pub fn is_empty(&self) -> (r: bool)
        ensures
            r == (self@.len() == 0),
    {
        self.datagrams.len() == 0
    }

    /// The number of payload bytes that can still be queued.
    pub fn remaining(&self) -> (r: usize)
        requires
            self.wf(),
        ensures
            r == self.cap() - total_len(self@),
    {
        self.capacity - self.used
    }

    /// Queues `src` as one datagram if it fits in what is left; otherwise
    /// leaves the buffer as it was.
    pub fn read_from(&mut self, src: &[u8]) -> (r: Result<(), BufferFull>)
        requires
            old(self).wf(),
        ensures
            final(self).wf(),
            final(self).cap() == old(self).cap(),
            r is Ok <==> total_len(old(self)@) + src@.len() <= old(self).cap(),
            r is Ok ==> final(self)@ == old(self)@.push(src@),
            r is Err ==> final(self)@ == old(self)@,
    {
        if src.len() > self.capacity - self.used {
            return Err(BufferFull);
        }
        let ghost before = self@;
        let d = copy_bytes(src);
        self.datagrams.push(d);
        self.used = self.used + src.len();
        assert(self@ =~= before.push(src@));
        assert(self@.drop_last() =~= before);
        Ok(())
    }

    /// The oldest queued datagram, to be sent in one write.
    pub fn front(&self) -> (r: Option<&[u8]>)
        ensures
            self@.len() == 0 ==> r is None,
            self@.len() > 0 ==> r is Some && r.unwrap()@ == self@[0],
    {
        if self.datagrams.len() == 0 {
            None
        } else {
            Some(self.datagrams[0].as_slice())
        }
    }

    /// Drops the oldest datagram, once a writer has sent it.
    pub fn consume_front(&mut self)
        requires
            old(self).wf(),
            old(self)@.len() > 0,
        ensures
            final(self).wf(),
            final(self)@ == old(self)@.drop_first(),
            final(self).cap() == old(self).cap(),
    {
        let ghost before = self@;
        proof {
            lemma_total_len_drop_first(before);
        }
        let d = self.datagrams.remove(0);
        self.used = self.used - d.len();
        assert(self@ =~= before.drop_first());
    }
}

} // verus!
