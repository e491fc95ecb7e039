//! The bounded history of samples behind the waveform display.

use std::collections::VecDeque;
use vstd::prelude::*;

verus! {

/// The default length of the history.
pub const DEFAULT_HISTORY: usize = 8192;

/// The last `limit` entries of `history`, or all of it where it is shorter.
pub open spec fn keep_last<T>(history: Seq<T>, limit: nat) -> Seq<T> {
    if history.len() <= limit {
        history
    } else {
        history.subrange(history.len() - limit, history.len() as int)
    }
}

/// Dropping old entries after every push leaves what dropping them once at
/// the end leaves.
pub proof fn lemma_keep_last_push<T>(history: Seq<T>, limit: nat, sample: T)
    ensures
        keep_last(keep_last(history, limit).push(sample), limit) == keep_last(
            history.push(sample),
            limit,
        ),
{
    assert(keep_last(keep_last(history, limit).push(sample), limit) =~= keep_last(
        history.push(sample),
        limit,
    ));
}

/// An ordered history of at most `capacity` samples, oldest first. A push
/// into a full buffer evicts the oldest sample.
#[derive(Debug)]
pub struct VisualizationRingBuffer<T> {
    samples: VecDeque<T>,
    capacity: usize,
}

impl<T> VisualizationRingBuffer<T> {
    /// The samples held, oldest first.
    pub closed spec fn view(&self) -> Seq<T> {
        self.samples@
    }

    /// The most samples the buffer ever holds.
    pub closed spec fn limit(&self) -> nat {
        self.capacity as nat
    }

    /// Holds of every buffer: the history never outgrows the capacity.
    #[verifier::type_invariant]
    pub open spec fn bounded(&self) -> bool {
        self@.len() <= self.limit()
    }

    /// An empty buffer that will hold up to `capacity` samples.
    pub fn new(capacity: usize) -> (buffer: Self)
        ensures
            buffer@ == Seq::<T>::empty(),
            buffer.limit() == capacity,
    {
        VisualizationRingBuffer { samples: VecDeque::new(), capacity }
    }

    /// The most samples the buffer ever holds.
    pub fn capacity(&self) -> (capacity: usize)
        ensures
            capacity == self.limit(),
    {
        self.capacity
    }

    /// How many samples are held; never more than the capacity.
    pub fn len(&self) -> (len: usize)
        ensures
            len == self@.len(),
            len <= self.limit(),
    {
        proof {
            use_type_invariant(self);
        }
        self.samples.len()
    }

    /// Whether no sample is held.
    pub fn is_empty(&self) -> (empty: bool)
        ensures
            empty == (self@.len() == 0),
    {
        self.samples.len() == 0
    }

    /// Whether the next push will evict.
    pub fn is_full(&self) -> (full: bool)
        ensures
            full == (self@.len() == self.limit()),
    {
        self.samples.len() == self.capacity
    }

    /// The sample at `index`, counted from the oldest.
    pub fn get(&self, index: usize) -> (sample: Option<&T>)
        ensures
            sample == if index < self@.len() {
                Some(&self@[index as int])
            } else {
                None
            },
    {
        if index < self.samples.len() {
            Some(&self.samples[index])
        } else {
            None
        }
    }

    /// Appends `sample` as the newest entry, evicting the oldest first where
    /// the buffer is full. A buffer of capacity 0 stays empty.
    pub fn push(&mut self, sample: T)
        ensures
            final(self)@ == keep_last(old(self)@.push(sample), old(self).limit()),
            final(self).limit() == old(self).limit(),
            final(self)@.len() <= final(self).limit(),
    {
        proof {
            use_type_invariant(&*self);
        }
        if self.capacity == 0 {
            return ;
        }
        // The queue is moved out while it changes, so that the bound holds of
        // `self` at every step.
        let mut samples: VecDeque<T> = VecDeque::new();
        std::mem::swap(&mut self.samples, &mut samples);
        if samples.len() == self.capacity {
            let _ = samples.pop_front();
        }
        samples.push_back(sample);
        assert(samples@ =~= keep_last(old(self)@.push(sample), old(self).limit()));
        self.samples = samples;
    }

    /// Forgets every sample; the capacity stays.
    pub fn clear(&mut self)
        ensures
            final(self)@ == Seq::<T>::empty(),
            final(self).limit() == old(self).limit(),
    {
        self.samples = VecDeque::new();
    }
}

impl<T: Copy> Clone for VisualizationRingBuffer<T> {
    /// A buffer of the same capacity that holds the same samples.
    fn clone(&self) -> (copy: Self)
        ensures
            copy@ == self@,
            copy.limit() == self.limit(),
    {
        proof {
            use_type_invariant(self);
        }
        let mut samples: VecDeque<T> = VecDeque::new();
        let n: usize = self.samples.len();
        let mut i: usize = 0;
        while i < n
            invariant
                n == self.samples@.len(),
                i <= n,
                samples@ == self.samples@.subrange(0, i as int),
            decreases n - i,
        {
            samples.push_back(self.samples[i]);
            assert(samples@ =~= self.samples@.subrange(0, i + 1));
            i += 1;
        }
        assert(samples@ =~= self.samples@);
        VisualizationRingBuffer { samples, capacity: self.capacity }
    }
}

impl<T: Copy> VisualizationRingBuffer<T> {
    /// A copy of the samples held, oldest first, for the renderer.
    pub fn snapshot(&self) -> (copy: Vec<T>)
        ensures
            copy@ == self@,
    {
        let mut copy: Vec<T> = Vec::new();
        let n: usize = self.samples.len();
        let mut i: usize = 0;
        while i < n
            invariant
                n == self.samples@.len(),
                i <= n,
                copy@ == self.samples@.subrange(0, i as int),
            decreases n - i,
        {
            copy.push(self.samples[i]);
            assert(copy@ =~= self.samples@.subrange(0, i + 1));
            i += 1;
        }
        assert(copy@ =~= self.samples@);
        copy
    }
}

} // verus!
