//! Compressed packets and the byte-accounted packet queue.
//!
//! One `PacketQueue` exists per elementary stream, filled by the demuxer
//! and drained by that stream's decode loop.  The queue is a plain FIFO
//! bounded by a byte budget: `is_full` only throttles the producer, a
//! push itself always succeeds.  The central invariant is byte
//! accounting: the occupied-byte counter always equals the sum of the
//! sizes of the packets still queued.

use vstd::prelude::*;

use std::collections::VecDeque;

verus! {

/// A compressed unit of media data belonging to exactly one elementary
/// stream.  An empty payload is the flush marker that tells a decoder to
/// drain its internal buffers.
pub struct Packet {
    /// Index of the elementary stream this packet belongs to.
    pub stream_index: i32,
    /// The compressed payload; empty for a flush marker.
    pub data: Vec<u8>,
}

impl Packet {
    /// Byte size of the packet, as counted by queue accounting.
    pub open spec fn spec_size(self) -> nat {
        self.data@.len()
    }

    /// An empty payload signals "flush the codec", not data.
    pub open spec fn spec_is_flush(self) -> bool {
        self.data@.len() == 0
    }

    pub fn new(stream_index: i32, data: Vec<u8>) -> (p: Packet)
        ensures
            p.stream_index == stream_index,
            p.data@ == data@,
    {
        Packet { stream_index, data }
    }

    pub fn size(&self) -> (r: usize)
        ensures
            r == self.spec_size(),
    {
        self.data.len()
    }

    pub fn is_flush_marker(&self) -> (r: bool)
        ensures
            r == self.spec_is_flush(),
    {
        self.data.len() == 0
    }
}

/// Sum of the byte sizes of a sequence of packets.
pub open spec fn sum_sizes(s: Seq<Packet>) -> int
    decreases s.len(),
{
    if s.len() == 0 {
        0
    } else {
        s[0].spec_size() + sum_sizes(s.drop_first())
    }
}

pub proof fn lemma_sum_sizes_nonneg(s: Seq<Packet>)
    ensures
        sum_sizes(s) >= 0,
    decreases s.len(),
{
    if s.len() > 0 {
        lemma_sum_sizes_nonneg(s.drop_first());
    }
}

pub proof fn lemma_sum_sizes_push(s: Seq<Packet>, p: Packet)
    ensures
        sum_sizes(s.push(p)) == sum_sizes(s) + p.spec_size(),
    decreases s.len(),
{
    let sp = s.push(p);
    if s.len() == 0 {
        assert(sp[0] == p);
        assert(sp.drop_first() =~= Seq::<Packet>::empty());
        assert(sum_sizes(sp.drop_first()) == 0);
        assert(sum_sizes(sp) == sp[0].spec_size() + sum_sizes(sp.drop_first()));
    } else {
        assert(sp[0] == s[0]);
        assert(sp.drop_first() =~= s.drop_first().push(p));
        lemma_sum_sizes_push(s.drop_first(), p);
        assert(sum_sizes(sp) == sp[0].spec_size() + sum_sizes(sp.drop_first()));
        assert(sum_sizes(s) == s[0].spec_size() + sum_sizes(s.drop_first()));
    }
}

/// Ordered packets of one stream, with byte accounting against a fixed
/// budget.  Decode order equals arrival order: strictly first in, first
/// out.
pub struct PacketQueue {
    /// The queued packets, front = next to decode.
    pub queue: VecDeque<Packet>,
    /// Bytes occupied by the queued packets.
    pub mem_size: usize,
    /// Byte budget: the queue reports full at or above this.
    pub max_mem_size: usize,
    /// Stream index this queue serves.
    pub stream_idx: i32,
}

impl PacketQueue {
    /// Byte accounting: the occupied-byte counter equals the sum of the
    /// sizes of the packets still queued.
    pub open spec fn wf(self) -> bool {
        self.mem_size == sum_sizes(self.queue@)
    }

    /// The queue throttles its producer exactly when the occupied bytes
    /// reach the budget.
    pub open spec fn spec_is_full(self) -> bool {
        self.mem_size >= self.max_mem_size
    }

    pub fn new(stream_idx: i32, max_mem_size: usize) -> (q: PacketQueue)
        ensures
            q.wf(),
            q.queue@ == Seq::<Packet>::empty(),
            q.mem_size == 0,
            q.max_mem_size == max_mem_size,
            q.stream_idx == stream_idx,
    {
        PacketQueue { queue: VecDeque::new(), mem_size: 0, max_mem_size, stream_idx }
    }

    pub fn stream_idx(&self) -> (r: i32)
        ensures
            r == self.stream_idx,
    {
        self.stream_idx
    }

    pub fn is_full(&self) -> (r: bool)
        ensures
            r == self.spec_is_full(),
    {
        self.mem_size >= self.max_mem_size
    }

    pub fn is_empty(&self) -> (r: bool)
        ensures
            r == (self.queue@.len() == 0),
    {
        self.queue.len() == 0
    }

    /// Appends a packet and charges its size to the byte counter.  Always
    /// succeeds: backpressure is the producer's duty, exercised through
    /// `is_full`.
    pub fn push(&mut self, pkt: Packet)
        requires
            old(self).wf(),
            old(self).mem_size + pkt.spec_size() <= usize::MAX,
        ensures
            final(self).wf(),
            final(self).queue@ == old(self).queue@.push(pkt),
            final(self).mem_size == old(self).mem_size + pkt.spec_size(),
            final(self).max_mem_size == old(self).max_mem_size,
            final(self).stream_idx == old(self).stream_idx,
    {
        proof {
            lemma_sum_sizes_push(self.queue@, pkt);
        }
        self.mem_size = self.mem_size + pkt.size();
        self.queue.push_back(pkt);
    }

    /// Removes the front packet, refunding its size; `None` exactly when
    /// the queue is empty.
    pub fn pop(&mut self) -> (r: Option<Packet>)
        requires
            old(self).wf(),
        ensures
            final(self).wf(),
            final(self).max_mem_size == old(self).max_mem_size,
            final(self).stream_idx == old(self).stream_idx,
            match r {
                Some(pkt) => {
                    &&& old(self).queue@.len() > 0
                    &&& pkt == old(self).queue@[0]
                    &&& final(self).queue@ == old(self).queue@.drop_first()
                    &&& final(self).mem_size == old(self).mem_size - pkt.spec_size()
                },
                None => {
                    &&& old(self).queue@.len() == 0
                    &&& final(self).queue@ == old(self).queue@
                    &&& final(self).mem_size == old(self).mem_size
                },
            },
    {
        proof {
            if self.queue@.len() > 0 {
                lemma_sum_sizes_nonneg(self.queue@.drop_first());
            }
        }
        let pkt = self.queue.pop_front();
        if let Some(p) = &pkt {
            self.mem_size = self.mem_size - p.size();
        }
        pkt
    }
}

/// Byte-accounting invariant, stated on its own: however many pushes and
/// pops produced a well-formed queue, its occupied bytes equal the sum of
/// the sizes of the packets still queued.
pub proof fn lemma_byte_accounting(q: PacketQueue)
    requires
        q.wf(),
    ensures
        q.mem_size == sum_sizes(q.queue@),
{
}

/// Fullness tracks the byte budget and nothing else: a well-formed queue
/// is full exactly when the bytes still queued reach the budget, so it
/// turns false again as soon as enough pops refund enough bytes.
pub proof fn lemma_full_iff_budget_reached(q: PacketQueue)
    requires
        q.wf(),
    ensures
        q.spec_is_full() <==> sum_sizes(q.queue@) >= q.max_mem_size,
{
}

} // verus!
