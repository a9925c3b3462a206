//! Bounded fan-out channel with per-subscriber cursors.
//!
//! A single producer pushes estimates into a ring of bounded history;
//! each subscriber reads at its own pace through a private cursor.  A
//! subscriber that falls behind the retained history is told exactly how
//! many entries it skipped and resumes at the oldest retained entry — the
//! producer is never blocked, and other subscribers are unaffected.

use vstd::prelude::*;

verus! {

use crate::models::FusedSensorData;

/// What one receive attempt yields.
#[derive(Clone, Copy, Debug)]
pub enum RecvOutcome {
    /// Nothing new has been published.
    Empty,
    /// The subscriber lagged: this many entries were skipped; the next
    /// receive returns the oldest retained entry.
    Lagged(u64),
    /// The next estimate, in publication order.
    Msg(FusedSensorData),
}

/// Bounded-history fan-out channel.
pub struct FanOut {
    /// Retained history, oldest first; at most `cap` entries.
    pub buf: Vec<FusedSensorData>,
    /// Capacity of the retained history.
    pub cap: usize,
    /// Sequence number of the oldest retained entry.
    pub base: u64,
    /// One cursor per subscriber: the sequence number it reads next.
    pub cursors: Vec<u64>,
}

impl FanOut {
    /// The sequence number the next published estimate will get (also the
    /// count of estimates published so far).
    pub open spec fn spec_next(self) -> int {
        self.base + self.buf@.len()
    }

    /// Well-formedness: the ring respects its capacity, sequence numbers
    /// cannot overflow, and no cursor runs ahead of the producer.
    pub open spec fn wf(self) -> bool {
        &&& 1 <= self.cap
        &&& self.buf@.len() <= self.cap
        &&& self.spec_next() < u64::MAX
        &&& forall|i: int|
            0 <= i < self.cursors@.len() ==> #[trigger] self.cursors@[i] <= self.spec_next()
    }

    /// A new channel retaining up to `capacity` estimates, with no
    /// subscribers yet.
    pub fn new(capacity: usize) -> (c: FanOut)
        requires
            capacity >= 1,
        ensures
            c.wf(),
            c.cap == capacity,
            c.buf@.len() == 0,
            c.base == 0,
            c.cursors@.len() == 0,
    {
        FanOut { buf: Vec::new(), cap: capacity, base: 0, cursors: Vec::new() }
    }

    /// Register a new subscriber; it starts at the current head, so it sees
    /// exactly the estimates published after this call.
    pub fn subscribe(&mut self) -> (id: usize)
        requires
            old(self).wf(),
        ensures
            final(self).wf(),
            id == old(self).cursors@.len(),
            final(self).cursors@ == old(self).cursors@.push((old(self).spec_next()) as u64),
            final(self).buf == old(self).buf,
            final(self).cap == old(self).cap,
            final(self).base == old(self).base,
    {
        let id = self.cursors.len();
        let next = self.base + self.buf.len() as u64;
        self.cursors.push(next);
        id
    }

    /// Publish one estimate: it is appended to the retained history, and
    /// the oldest retained entry is dropped once the ring is full.  The
    /// producer never waits, whatever the subscribers do; with no
    /// subscribers the estimate simply ages out.
    pub fn publish(&mut self, e: FusedSensorData)
        requires
            old(self).wf(),
            old(self).spec_next() + 1 < u64::MAX,
        ensures
            final(self).wf(),
            final(self).spec_next() == old(self).spec_next() + 1,
            final(self).cap == old(self).cap,
            final(self).cursors == old(self).cursors,
            old(self).buf@.len() < old(self).cap ==> final(self).base == old(self).base && final(self).buf@ == old(self).buf@.push(e),
            old(self).buf@.len() == old(self).cap ==> final(self).base == old(self).base + 1
                && final(self).buf@ == old(self).buf@.subrange(
                1,
                old(self).buf@.len() as int,
            ).push(e),
    {
        if self.buf.len() == self.cap {
            self.buf.remove(0);
            self.base = self.base + 1;
        }
        self.buf.push(e);
        proof {
            assert(old(self).buf@.len() == old(self).cap ==> final(self).buf@ == old(self).buf@.subrange(1, old(self).buf@.len() as int).push(e));
        }
    }

    /// Receive the next estimate for subscriber `id`: the next unread entry
    /// in publication order; or a lag report with the exact skipped count
    /// when the subscriber fell behind the retained history (its cursor
    /// then resumes at the oldest retained entry); or nothing when it has
    /// read everything published.
    pub fn recv(&mut self, id: usize) -> (r: RecvOutcome)
        requires
            old(self).wf(),
            id < old(self).cursors@.len(),
        ensures
            final(self).wf(),
            final(self).buf == old(self).buf,
            final(self).cap == old(self).cap,
            final(self).base == old(self).base,
            final(self).cursors@.len() == old(self).cursors@.len(),
            forall|i: int|
                0 <= i < old(self).cursors@.len() && i != id ==> final(self).cursors@[i] == old(self).cursors@[i],
            old(self).cursors@[id as int] == old(self).spec_next() ==> r is Empty && final(self).cursors@[id as int] == old(self).cursors@[id as int],
            old(self).cursors@[id as int] < old(self).base ==> r == RecvOutcome::Lagged(
                (old(self).base - old(self).cursors@[id as int]) as u64,
            ) && final(self).cursors@[id as int] == old(self).base,
            old(self).base <= old(self).cursors@[id as int] < old(self).spec_next() ==> r
                == RecvOutcome::Msg(
                old(self).buf@[old(self).cursors@[id as int] - old(self).base],
            ) && final(self).cursors@[id as int] == old(self).cursors@[id as int] + 1,
    {
        let cur = self.cursors[id];
        let next = self.base + self.buf.len() as u64;
        if cur == next {
            RecvOutcome::Empty
        } else if cur < self.base {
            let skipped = self.base - cur;
            self.cursors[id] = self.base;
            RecvOutcome::Lagged(skipped)
        } else {
            let idx = (cur - self.base) as usize;
            let m = self.buf[idx];
            self.cursors[id] = cur + 1;
            RecvOutcome::Msg(m)
        }
    }

    /// How many estimates have been published so far.
    pub fn published(&self) -> (n: u64)
        requires
            self.wf(),
        ensures
            n == self.spec_next(),
    {
        self.base + self.buf.len() as u64
    }
}


/// Law: a subscriber that fell behind the retained history is told, in one
/// lag report, exactly how many estimates it can never read — everything
/// published past its cursor minus what is still retained — and the report
/// leaves it positioned on the oldest retained estimate, so its next
/// receive continues the stream in publication order, uninterrupted.
///
/// `pre` is the channel before the lagged receive; `mid` is any state that
/// `recv`'s contract admits afterwards.
pub proof fn lemma_lag_resume(pre: FanOut, mid: FanOut, id: int)
    requires
        pre.wf(),
        0 <= id < pre.cursors@.len(),
        pre.cursors@[id] < pre.base,
        mid.buf == pre.buf,
        mid.base == pre.base,
        mid.cap == pre.cap,
        mid.cursors@.len() == pre.cursors@.len(),
        mid.cursors@[id] == pre.base,
    ensures
        pre.base - pre.cursors@[id] == (pre.spec_next() - pre.cursors@[id]) - pre.buf@.len(),
        pre.buf@.len() > 0 ==> mid.base <= mid.cursors@[id] < mid.spec_next(),
        pre.buf@.len() > 0 ==> pre.buf@[mid.cursors@[id] - mid.base] == pre.buf@[0],
{
}

} // verus!
