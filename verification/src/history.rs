//! Fixed-capacity rolling window of recent scalar samples for one metric
//! channel. Samples arrive oldest-first; once the window is full, each new
//! sample evicts exactly the oldest one (strict FIFO). Values are stored
//! unmodified; any clamping or scaling is the caller's concern.

use vstd::prelude::*;

verus! {

/// The window that remains after `pushed` samples have gone through a buffer
/// of capacity `cap`: all of them while they fit, otherwise the last `cap`.
pub open spec fn retained(pushed: Seq<i64>, cap: nat) -> Seq<i64> {
    if pushed.len() <= cap {
        pushed
    } else {
        pushed.skip(pushed.len() - cap)
    }
}

/// One bounded time series: the last `capacity` samples pushed, oldest first.
pub struct HistoryBuffer {
    data: Vec<i64>,
    capacity: usize,
    pushed: Ghost<Seq<i64>>,
}

impl View for HistoryBuffer {
    type V = Seq<i64>;

    /// The current contents, oldest first.
    closed spec fn view(&self) -> Seq<i64> {
        self.data@
    }
}

impl HistoryBuffer {
    /// Every sample ever pushed, in arrival order.
    pub closed spec fn pushed(self) -> Seq<i64> {
        self.pushed@
    }

    /// The capacity fixed at construction.
    pub closed spec fn cap(self) -> nat {
        self.capacity as nat
    }

    /// The contents are exactly the retained window of all pushed samples.
    pub closed spec fn wf(self) -> bool {
        self.data@ == retained(self.pushed@, self.capacity as nat)
    }

    pub fn new(capacity: usize) -> (buf: HistoryBuffer)
        ensures
            buf.wf(),
            buf.cap() == capacity,
            buf@ == Seq::<i64>::empty(),
            buf.pushed() == Seq::<i64>::empty(),
    {
        HistoryBuffer { data: Vec::new(), capacity, pushed: Ghost(Seq::empty()) }
    }

    pub fn capacity(&self) -> (cap: usize)
        ensures
            cap == self.cap(),
    {
        self.capacity
    }

    pub fn len(&self) -> (n: usize)
        ensures
            n == self@.len(),
    {
        self.data.len()
    }

    /// Appends one sample, evicting the oldest if the window is full.
    pub fn push(&mut self, value: i64)
        requires
            old(self).wf(),
        ensures
            final(self).wf(),
            final(self).cap() == old(self).cap(),
            final(self).pushed() == old(self).pushed().push(value),
            old(self)@.len() < old(self).cap() ==> final(self)@ == old(self)@.push(value),
            old(self).cap() > 0 && old(self)@.len() == old(self).cap() ==> final(self)@
                == old(self)@.skip(1).push(value),
            old(self).cap() == 0 ==> final(self)@ == old(self)@,
    {
        proof {
            lemma_retained_len(self.pushed@, self.capacity as nat);
        }
        if self.capacity > 0 {
            if self.data.len() == self.capacity {
                self.data.remove(0);
            }
            self.data.push(value);
        }
        self.pushed = Ghost(self.pushed@.push(value));
        proof {
            lemma_retained_push(old(self).pushed@, self.capacity as nat, value);
        }
    }

    /// The current contents, oldest first, as a fresh vector.
    pub fn snapshot(&self) -> (samples: Vec<i64>)
        ensures
            samples@ == self@,
    {
        let mut samples: Vec<i64> = Vec::new();
        let mut i: usize = 0;
        while i < self.data.len()
            invariant
                i <= self.data@.len(),
                samples@ == self.data@.take(i as int),
            decreases self.data@.len() - i,
        {
            samples.push(self.data[i]);
            proof {
                assert(samples@ =~= self.data@.take(i + 1));
            }
            i = i + 1;
        }
        proof {
            assert(samples@ =~= self.data@);
        }
        samples
    }

    /// The contents of a well-formed buffer are exactly the retained window
    /// of everything pushed into it.
    pub proof fn lemma_window(self)
        requires
            self.wf(),
        ensures
            self@ == retained(self.pushed(), self.cap()),
    {
    }

    /// The window never holds more samples than fit: its length is the
    /// number of pushes until the capacity is reached, and the capacity
    /// from then on.
    pub proof fn lemma_window_length(self)
        requires
            self.wf(),
        ensures
            self@.len() == vstd::math::min(self.pushed().len() as int, self.cap() as int),
    {
        lemma_retained_len(self.pushed@, self.capacity as nat);
    }

    /// Strict FIFO eviction: once at least `cap` samples were pushed, the
    /// window is exactly the last `cap` of them; in particular the oldest
    /// retained sample is the one pushed `cap` positions from the end.
    pub proof fn lemma_fifo_eviction(self)
        requires
            self.wf(),
            self.pushed().len() >= self.cap(),
        ensures
            self@ == self.pushed().skip(self.pushed().len() - self.cap()),
            self.cap() > 0 ==> self@[0] == self.pushed()[self.pushed().len() - self.cap()],
    {
        if self.pushed@.len() == self.capacity as nat {
            assert(self.pushed@.skip(0) =~= self.pushed@);
        }
    }
}

proof fn lemma_retained_len(pushed: Seq<i64>, cap: nat)
    ensures
        retained(pushed, cap).len() == vstd::math::min(pushed.len() as int, cap as int),
{
}

proof fn lemma_retained_push(pushed: Seq<i64>, cap: nat, value: i64)
    ensures
        cap > 0 && retained(pushed, cap).len() < cap ==> retained(pushed.push(value), cap)
            == retained(pushed, cap).push(value),
        cap > 0 && retained(pushed, cap).len() == cap ==> retained(pushed.push(value), cap)
            == retained(pushed, cap).skip(1).push(value),
        cap == 0 ==> retained(pushed.push(value), cap) == retained(pushed, cap),
{
    lemma_retained_len(pushed, cap);
    if cap == 0 {
        assert(retained(pushed.push(value), cap) =~= retained(pushed, cap));
    } else if pushed.len() < cap {
        assert(retained(pushed.push(value), cap) =~= retained(pushed, cap).push(value));
    } else {
        assert(retained(pushed.push(value), cap) =~= retained(pushed, cap).skip(1).push(value));
    }
}

} // verus!
