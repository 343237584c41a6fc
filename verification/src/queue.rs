//! The bounded frame queue between a decode stage and its play stage.
//!
//! A `PlayQueue` holds decoded frames, accounted by their byte size
//! against a byte budget; the producer stops pushing while
//! `has_available_space` is false.  Frames can be appended in decode
//! order with `push`, or placed by presentation time with `insert`,
//! which keeps a time-ordered queue time-ordered.

use vstd::prelude::*;

use std::collections::VecDeque;

use crate::frame::PlayFrame;

verus! {

/// Sum of the byte sizes of a sequence of frames.
pub open spec fn sum_frame_sizes<T: PlayFrame>(s: Seq<T>) -> int
    decreases s.len(),
{
    if s.len() == 0 {
        0
    } else {
        s[0].spec_mem_size() + sum_frame_sizes(s.drop_first())
    }
}

pub proof fn lemma_sum_frame_sizes_nonneg<T: PlayFrame>(s: Seq<T>)
    ensures
        sum_frame_sizes(s) >= 0,
    decreases s.len(),
{
    if s.len() > 0 {
        lemma_sum_frame_sizes_nonneg(s.drop_first());
    }
}

pub proof fn lemma_sum_frame_sizes_insert<T: PlayFrame>(s: Seq<T>, i: int, f: T)
    requires
        0 <= i <= s.len(),
    ensures
        sum_frame_sizes(s.insert(i, f)) == sum_frame_sizes(s) + f.spec_mem_size(),
    decreases s.len(),
{
    let t = s.insert(i, f);
    if i == 0 {
        assert(t[0] == f);
        assert(t.drop_first() =~= s);
        assert(sum_frame_sizes(t) == t[0].spec_mem_size() + sum_frame_sizes(t.drop_first()));
    } else {
        assert(t[0] == s[0]);
        assert(t.drop_first() =~= s.drop_first().insert(i - 1, f));
        lemma_sum_frame_sizes_insert(s.drop_first(), i - 1, f);
        assert(sum_frame_sizes(t) == t[0].spec_mem_size() + sum_frame_sizes(t.drop_first()));
        assert(sum_frame_sizes(s) == s[0].spec_mem_size() + sum_frame_sizes(s.drop_first()));
    }
}

/// The index at which a frame of presentation time `pts` is placed:
/// walking from the back, just after the first frame whose time is at
/// most `pts` (so among equal times, the newcomer goes last), or at the
/// front if every queued frame is later.
pub open spec fn insert_pos<T: PlayFrame>(s: Seq<T>, pts: i64) -> int
    decreases s.len(),
{
    if s.len() == 0 {
        0
    } else if s[s.len() - 1].spec_pts() <= pts {
        s.len() as int
    } else {
        insert_pos(s.drop_last(), pts)
    }
}

pub proof fn lemma_insert_pos_properties<T: PlayFrame>(s: Seq<T>, pts: i64)
    ensures
        0 <= insert_pos(s, pts) <= s.len(),
        forall|j: int| insert_pos(s, pts) <= j < s.len() ==> (#[trigger] s[j].spec_pts()) > pts,
        insert_pos(s, pts) > 0 ==> s[insert_pos(s, pts) - 1].spec_pts() <= pts,
    decreases s.len(),
{
    if s.len() > 0 && s[s.len() - 1].spec_pts() > pts {
        lemma_insert_pos_properties(s.drop_last(), pts);
        assert(forall|j: int|
            0 <= j < s.len() - 1 ==> #[trigger] s[j] == s.drop_last()[j]);
    }
}

/// Frames ordered by presentation time, earliest first.
pub open spec fn sorted_by_pts<T: PlayFrame>(s: Seq<T>) -> bool {
    forall|i: int, j: int|
        0 <= i <= j < s.len() ==> (#[trigger] s[i].spec_pts()) <= (#[trigger] s[j].spec_pts())
}

/// Placing a frame at its `insert_pos` keeps a time-ordered queue
/// time-ordered.
pub proof fn lemma_insert_keeps_sorted<T: PlayFrame>(s: Seq<T>, f: T)
    requires
        sorted_by_pts(s),
    ensures
        sorted_by_pts(s.insert(insert_pos(s, f.spec_pts()), f)),
{
    let pts = f.spec_pts();
    let pos = insert_pos(s, pts);
    lemma_insert_pos_properties(s, pts);
    let t = s.insert(pos, f);
    assert forall|i: int, j: int| 0 <= i <= j < t.len() implies (#[trigger] t[i].spec_pts()) <= (
    #[trigger] t[j].spec_pts()) by {
        if i < pos {
            assert(t[i] == s[i]);
        } else if i == pos {
            assert(t[i] == f);
        } else {
            assert(t[i] == s[i - 1]);
        }
        if j < pos {
            assert(t[j] == s[j]);
        } else if j == pos {
            assert(t[j] == f);
        } else {
            assert(t[j] == s[j - 1]);
        }
        if i == pos && j > pos {
            assert(s[j - 1].spec_pts() > pts);
        }
        if i < pos && j == pos {
            assert(s[pos - 1].spec_pts() <= pts);
            assert(s[i].spec_pts() <= s[pos - 1].spec_pts());
        }
    }
}

/// Bounded-by-bytes FIFO of decoded frames for one media type.
pub struct PlayQueue<T> {
    /// Byte budget of the queue.
    pub max_mem_size: usize,
    /// Bytes occupied by the queued frames.
    pub mem_size: usize,
    /// The queued frames, front = next to play.
    pub queue: VecDeque<T>,
}

impl<T: PlayFrame> PlayQueue<T> {
    /// Byte accounting holds and every queued frame is sound.
    pub open spec fn wf(self) -> bool {
        &&& self.mem_size == sum_frame_sizes(self.queue@)
        &&& forall|i: int| 0 <= i < self.queue@.len() ==> (#[trigger] self.queue@[i]).inv()
    }

    pub fn new(max_mem_size: usize) -> (q: PlayQueue<T>)
        ensures
            q.wf(),
            q.queue@ == Seq::<T>::empty(),
            q.mem_size == 0,
            q.max_mem_size == max_mem_size,
    {
        PlayQueue { max_mem_size, mem_size: 0, queue: VecDeque::new() }
    }

    pub fn mem_size(&self) -> (r: usize)
        ensures
            r == self.mem_size,
    {
        self.mem_size
    }

    /// The producer may push only while this holds: backpressure by
    /// byte budget.
    pub fn has_available_space(&self) -> (r: bool)
        ensures
            r == (self.mem_size < self.max_mem_size),
    {
        self.mem_size < self.max_mem_size
    }

    pub fn is_empty(&self) -> (r: bool)
        ensures
            r == (self.queue@.len() == 0),
    {
        self.queue.len() == 0
    }

    pub fn len(&self) -> (r: usize)
        ensures
            r == self.queue@.len(),
    {
        self.queue.len()
    }

    /// Removes and returns the front frame, refunding its size; `None`
    /// exactly when the queue is empty.
    pub fn pop(&mut self) -> (r: Option<T>)
        requires
            old(self).wf(),
        ensures
            final(self).wf(),
            final(self).max_mem_size == old(self).max_mem_size,
            match r {
                Some(f) => {
                    &&& old(self).queue@.len() > 0
                    &&& f == old(self).queue@[0]
                    &&& f.inv()
                    &&& final(self).queue@ == old(self).queue@.drop_first()
                    &&& final(self).mem_size == old(self).mem_size - f.spec_mem_size()
                },
                None => {
                    &&& old(self).queue@.len() == 0
                    &&& final(self).queue@ == old(self).queue@
                    &&& final(self).mem_size == old(self).mem_size
                },
            },
    {
        proof {
            if self.queue@.len() > 0 {
                lemma_sum_frame_sizes_nonneg(self.queue@.drop_first());
            }
        }
        let frame = self.queue.pop_front();
        if let Some(f) = &frame {
            self.mem_size = self.mem_size - f.mem_size();
        }
        frame
    }

    /// The play stage's dequeue: one frame, front of the queue.
    pub fn fetch_frame(&mut self) -> (r: Option<T>)
        requires
            old(self).wf(),
        ensures
            final(self).wf(),
            final(self).max_mem_size == old(self).max_mem_size,
            match r {
                Some(f) => {
                    &&& old(self).queue@.len() > 0
                    &&& f == old(self).queue@[0]
                    &&& f.inv()
                    &&& final(self).queue@ == old(self).queue@.drop_first()
                    &&& final(self).mem_size == old(self).mem_size - f.spec_mem_size()
                },
                None => {
                    &&& old(self).queue@.len() == 0
                    &&& final(self).queue@ == old(self).queue@
                    &&& final(self).mem_size == old(self).mem_size
                },
            },
    {
        self.pop()
    }

    /// Appends a frame in decode order and charges its size.
    pub fn push(&mut self, new_frame: T)
        requires
            old(self).wf(),
            new_frame.inv(),
            old(self).mem_size + new_frame.spec_mem_size() <= usize::MAX,
        ensures
            final(self).wf(),
            final(self).queue@ == old(self).queue@.push(new_frame),
            final(self).mem_size == old(self).mem_size + new_frame.spec_mem_size(),
            final(self).max_mem_size == old(self).max_mem_size,
    {
        proof {
            assert(self.queue@.push(new_frame) =~= self.queue@.insert(
                self.queue@.len() as int,
                new_frame,
            ));
            lemma_sum_frame_sizes_insert(self.queue@, self.queue@.len() as int, new_frame);
        }
        let size: usize = new_frame.mem_size();
        self.queue.push_back(new_frame);
        self.mem_size = self.mem_size + size;
    }

    /// Places a frame by presentation time, from the back: it lands just
    /// after the last run of frames no later than it, so a time-ordered
    /// queue stays time-ordered (`lemma_insert_keeps_sorted`).
    pub fn insert(&mut self, new_frame: T)
        requires
            old(self).wf(),
            new_frame.inv(),
            old(self).mem_size + new_frame.spec_mem_size() <= usize::MAX,
        ensures
            final(self).wf(),
            final(self).queue@ == old(self).queue@.insert(
                insert_pos(old(self).queue@, new_frame.spec_pts()),
                new_frame,
            ),
            final(self).mem_size == old(self).mem_size + new_frame.spec_mem_size(),
            final(self).max_mem_size == old(self).max_mem_size,
            sorted_by_pts(old(self).queue@) ==> sorted_by_pts(final(self).queue@),
    {
        let ghost s = self.queue@;
        let pts: i64 = new_frame.pts();
        let mut i: usize = self.queue.len();
        proof {
            lemma_insert_pos_properties(s, pts);
            assert(s.take(s.len() as int) =~= s);
        }
        loop
            invariant_except_break
                i <= s.len(),
                self.queue@ == s,
                forall|k: int| 0 <= k < s.len() ==> (#[trigger] s[k]).inv(),
                insert_pos(s, pts) == insert_pos(s.take(i as int), pts),
                forall|j: int| i <= j < s.len() ==> (#[trigger] s[j].spec_pts()) > pts,
            ensures
                i <= s.len(),
                self.queue@ == s,
                insert_pos(s, pts) == insert_pos(s.take(i as int), pts),
                forall|j: int| i <= j < s.len() ==> (#[trigger] s[j].spec_pts()) > pts,
                i == 0 || s[i - 1].spec_pts() <= pts,
            decreases i,
        {
            if i == 0 {
                break;
            }
            let prev_pts: i64 = self.queue[i - 1].pts();
            if prev_pts <= pts {
                break;
            }
            proof {
                assert(s.take(i as int).drop_last() =~= s.take(i - 1));
                assert(s.take(i as int)[i - 1] == s[i - 1]);
            }
            i = i - 1;
        }
        proof {
            if i > 0 {
                assert(s.take(i as int)[i - 1] == s[i - 1]);
                assert(insert_pos(s.take(i as int), pts) == i);
            } else {
                assert(s.take(0) =~= Seq::<T>::empty());
            }
            assert(insert_pos(s, pts) == i);
            lemma_sum_frame_sizes_insert(s, i as int, new_frame);
            if sorted_by_pts(s) {
                lemma_insert_keeps_sorted(s, new_frame);
            }
        }
        let size: usize = new_frame.mem_size();
        self.queue.insert(i, new_frame);
        self.mem_size = self.mem_size + size;
    }
}

} // verus!
