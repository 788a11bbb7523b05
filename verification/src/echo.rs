use vstd::prelude::*;
use crate::addr::Ipv4Address;

verus! {

/// Capacity of the UDP forwarding queue between the receiver and the
/// sender task.
pub const UDP_QUEUE_CAPACITY: usize = 1000;

/// A datagram source or destination as plain values.
#[derive(Clone, Copy, Debug, PartialEq, Eq, Structural)]
pub struct Endpoint {
    pub addr: Ipv4Address,
    pub port: u16,
}

/// One datagram on its way back to its source.
pub struct Datagram {
    pub payload: Vec<u8>,
    pub source: Endpoint,
}

/// One step of the TCP echo loop: after a read of `n` bytes into `buf`,
/// the bytes to write back are exactly the `n` bytes read, in order; a
/// read of zero bytes means the client disconnected and nothing is
/// written.
pub fn echo_chunk(buf: &Vec<u8>, n: usize) -> (r: Option<Vec<u8>>)
    requires
        n <= buf@.len(),
    ensures
        n == 0 ==> r is None,
        n > 0 ==> (r matches Some(out) && out@ == buf@.subrange(0, n as int)),
{
    if n == 0 {
        None
    } else {
        let mut out: Vec<u8> = Vec::new();
        let mut i: usize = 0;
        while i < n
            invariant
                i <= n <= buf@.len(),
                out@ == buf@.subrange(0, i as int),
            decreases n - i,
        {
            out.push(buf[i]);
            assert(out@ =~= buf@.subrange(0, i + 1 as int));
            i += 1;
        }
        Some(out)
    }
}

/// All the bytes of a connection, read (or written) chunk by chunk.
pub open spec fn concat_chunks(cs: Seq<Seq<u8>>) -> Seq<u8>
    decreases cs.len(),
{
    if cs.len() == 0 {
        Seq::empty()
    } else {
        cs[0] + concat_chunks(cs.drop_first())
    }
}

/// Round trip over a whole connection: when every chunk read from the
/// client is echoed verbatim — which is what `echo_chunk` returns — the
/// bytes written back are exactly the bytes received, preserving length
/// and byte order.
pub proof fn lemma_tcp_round_trip(reads: Seq<Seq<u8>>, writes: Seq<Seq<u8>>)
    requires
        reads.len() == writes.len(),
        forall|i: int| 0 <= i < reads.len() ==> writes[i] == reads[i],
    ensures
        concat_chunks(writes) == concat_chunks(reads),
    decreases reads.len(),
{
    if reads.len() > 0 {
        assert(writes[0] == reads[0]);
        assert forall|i: int| 0 <= i < reads.drop_first().len() implies writes.drop_first()[i]
            == reads.drop_first()[i] by {
            assert(writes[i + 1] == reads[i + 1]);
        }
        lemma_tcp_round_trip(reads.drop_first(), writes.drop_first());
    }
}

/// The reply to one received datagram: the same bytes, addressed back to
/// the datagram's source.
pub fn echo_datagram(d: Datagram) -> (r: Datagram)
    ensures
        r.payload@ == d.payload@,
        r.source == d.source,
{
    d
}

/// The bounded first-in-first-out queue between the UDP receiver task and
/// the sender task. A full queue accepts nothing and loses nothing: the
/// receiver suspends until the sender has drained capacity.
pub struct ForwardQueue {
    pub items: Vec<Datagram>,
    pub capacity: usize,
}

impl ForwardQueue {
    pub fn new(capacity: usize) -> (q: ForwardQueue)
        ensures
            q.items@ == Seq::<Datagram>::empty(),
            q.capacity == capacity,
    {
        ForwardQueue { items: Vec::new(), capacity }
    }

    pub fn len(&self) -> (n: usize)
        ensures
            n == self.items@.len(),
    {
        self.items.len()
    }

    pub fn is_full(&self) -> (b: bool)
        ensures
            b == (self.items@.len() >= self.capacity),
    {
        self.items.len() >= self.capacity
    }

    /// Enqueue at the tail. A datagram is accepted exactly when the queue
    /// is below capacity; a full queue leaves both the queue and the
    /// datagram's place in the order unchanged — nothing is dropped, the
    /// caller suspends and offers the same datagram again.
    pub fn try_enqueue(&mut self, d: Datagram) -> (accepted: bool)
        ensures
            final(self).capacity == old(self).capacity,
            accepted == (old(self).items@.len() < old(self).capacity),
            accepted ==> final(self).items@ == old(self).items@.push(d),
            !accepted ==> final(self).items@ == old(self).items@,
    {
        if self.items.len() < self.capacity {
            self.items.push(d);
            true
        } else {
            false
        }
    }

    /// Dequeue from the head: the oldest datagram leaves first.
    pub fn dequeue(&mut self) -> (d: Option<Datagram>)
        ensures
            final(self).capacity == old(self).capacity,
            old(self).items@.len() == 0 ==> d is None && final(self).items@ == old(self).items@,
            old(self).items@.len() > 0 ==> (d matches Some(x) && x == old(self).items@[0]
                && final(self).items@ == old(self).items@.drop_first()),
    {
        if self.items.len() == 0 {
            None
        } else {
            let x = self.items.remove(0);
            assert(final(self).items@ =~= old(self).items@.drop_first());
            Some(x)
        }
    }
}

/// First-in-first-out delivery under backpressure: whatever was already
/// queued keeps its place when more datagrams are accepted, and each
/// accepted datagram lines up behind everything before it. Together with
/// `try_enqueue` (tail, nothing dropped when full) and `dequeue` (head),
/// this says every accepted datagram is sent after exactly the datagrams
/// accepted before it.
pub proof fn lemma_queue_fifo(s: Seq<Datagram>, d1: Datagram, d2: Datagram)
    ensures
        s.push(d1).push(d2).len() == s.len() + 2,
        forall|i: int| 0 <= i < s.len() ==> s.push(d1).push(d2)[i] == s[i],
        s.push(d1).push(d2)[s.len() as int] == d1,
        s.push(d1).push(d2)[s.len() as int + 1] == d2,
{
}

} // verus!
