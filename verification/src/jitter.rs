//! The jitter buffer: a bounded first-in, first-out queue of decoded samples
//! between the receive loop, which fills it, and playback, which drains it.
//!
//! The buffer never reorders and never repeats a sample. When more arrives
//! than it may hold, the oldest samples give way. When playback asks for
//! more than it holds, the rest is silence.

use crate::config::{capped, AudioConfig};
use std::collections::VecDeque;
use vstd::prelude::*;

verus! {

/// `s` with the two samples of every pair exchanged. A last sample without a
/// partner stays where it is.
pub open spec fn swap_pairs<T>(s: Seq<T>) -> Seq<T> {
    Seq::new(
        s.len(),
        |i: int|
            if i % 2 == 1 {
                s[i - 1]
            } else if i + 1 < s.len() {
                s[i + 1]
            } else {
                s[i]
            },
    )
}

/// The order in which samples enter the queue.
pub open spec fn arranged<T>(s: Seq<T>, swap: bool) -> Seq<T> {
    if swap {
        swap_pairs(s)
    } else {
        s
    }
}

/// The newest `capacity` samples of `s`, or all of `s` if it has no more.
pub open spec fn keep_newest<T>(s: Seq<T>, capacity: nat) -> Seq<T> {
    if s.len() <= capacity {
        s
    } else {
        s.skip(s.len() - capacity)
    }
}

/// How many samples of `s` do not fit into `capacity`.
pub open spec fn overflow(len: nat, capacity: nat) -> nat {
    if len <= capacity {
        0
    } else {
        (len - capacity) as nat
    }
}

/// `n` samples of silence.
pub open spec fn silent<T>(n: nat, silence: T) -> Seq<T> {
    Seq::new(n, |i: int| silence)
}

/// What playback is handed when it asks for `n` samples of `queued`.
pub open spec fn played<T>(queued: Seq<T>, n: nat, silence: T) -> Seq<T> {
    if n <= queued.len() {
        queued.take(n as int)
    } else {
        queued + silent((n - queued.len()) as nat, silence)
    }
}

/// What stays queued after playback took `n` samples.
pub open spec fn remaining<T>(queued: Seq<T>, n: nat) -> Seq<T> {
    if n <= queued.len() {
        queued.skip(n as int)
    } else {
        Seq::<T>::empty()
    }
}

/// How many of the `n` samples handed to playback came from a queue of
/// `queued` samples; the others are silence.
pub open spec fn real_samples(queued: nat, n: nat) -> nat {
    if n <= queued {
        n
    } else {
        queued
    }
}

/// A bounded queue of samples.
pub struct JitterBuffer<T> {
    queue: VecDeque<T>,
    capacity: usize,
    swap: bool,
    silence: T,
}

impl<T> View for JitterBuffer<T> {
    type V = Seq<T>;

    /// The queued samples, oldest first.
    closed spec fn view(&self) -> Seq<T> {
        self.queue@
    }
}

impl<T> JitterBuffer<T> {
    #[verifier::type_invariant]
    spec fn bounded(self) -> bool {
        self.queue@.len() <= self.capacity
    }
}

impl<T: Copy> JitterBuffer<T> {
    /// The most samples the buffer holds.
    pub closed spec fn capacity(&self) -> nat {
        self.capacity as nat
    }

    /// Whether the two samples of every pair are exchanged on the way in.
    pub closed spec fn swaps(&self) -> bool {
        self.swap
    }

    /// The sample that stands for silence.
    pub closed spec fn silence(&self) -> T {
        self.silence
    }

    /// An empty buffer that holds at most `capacity` samples.
    pub fn new(capacity: usize, swap: bool, silence: T) -> (buffer: Self)
        ensures
            buffer@ == Seq::<T>::empty(),
            buffer.capacity() == capacity,
            buffer.swaps() == swap,
            buffer.silence() == silence,
    {
        JitterBuffer { queue: VecDeque::new(), capacity, swap, silence }
    }

    /// The buffer that `config` asks for: room for one frame per thousand
    /// samples of the rate, pairs exchanged if the stream is stereo and the
    /// configuration says so.
    pub fn from_config(config: &AudioConfig, silence: T) -> (buffer: Self)
        ensures
            buffer@ == Seq::<T>::empty(),
            buffer.capacity() == capped(
                ((config.sample_rate / 1000) * config.frame_samples()) as nat,
            ),
            buffer.swaps() == (config.stereo_swap && config.channels == 2),
            buffer.silence() == silence,
    {
        Self::new(config.jitter_capacity(), config.swaps_pairs(), silence)
    }

    /// Number of queued samples. It never exceeds the capacity.
    pub fn len(&self) -> (n: usize)
        ensures
            n == self@.len(),
            n <= self.capacity(),
    {
        proof {
            use_type_invariant(self);
        }
        self.queue.len()
    }

    /// The most samples the buffer holds.
    pub fn limit(&self) -> (n: usize)
        ensures
            n == self.capacity(),
    {
        self.capacity
    }

    /// Appends `samples`, pair-swapped if the buffer was built so. If the
    /// queue would outgrow its capacity, the oldest samples are dropped,
    /// those of `samples` too where it is longer than the capacity itself.
    /// Returns how many samples were dropped.
    pub fn push(&mut self, samples: &[T]) -> (dropped: usize)
        ensures
            final(self)@ == keep_newest(
                old(self)@ + arranged(samples@, old(self).swaps()),
                old(self).capacity(),
            ),
            dropped == overflow(old(self)@.len() + samples@.len(), old(self).capacity()),
            final(self).capacity() == old(self).capacity(),
            final(self).swaps() == old(self).swaps(),
            final(self).silence() == old(self).silence(),
    {
        proof {
            use_type_invariant(&*self);
        }
        let n: usize = samples.len();
        let ghost incoming = arranged(samples@, self.swap);
        let ghost before = self.queue@;
        let mut queue: VecDeque<T> = VecDeque::new();
        core::mem::swap(&mut self.queue, &mut queue);
        let held: usize = queue.len();
        // Room is made first: the queue is within bounds at every step.
        let first: usize = if n > self.capacity {
            n - self.capacity
        } else {
            0
        };
        let room: usize = self.capacity - (n - first);
        let evicted: usize = if held > room {
            held - room
        } else {
            0
        };
        drop_oldest(&mut queue, evicted);
        let mut k: usize = first;
        while k < n
            invariant
                first <= k <= n,
                n == samples@.len(),
                incoming == arranged(samples@, self.swap),
                incoming.len() == n,
                queue@ == before.skip(evicted as int) + incoming.subrange(first as int, k as int),
                before.len() - evicted + (n - first) <= self.capacity,
                evicted <= before.len(),
            decreases n - k,
        {
            let source: usize = if !self.swap {
                k
            } else if k % 2 == 1 {
                k - 1
            } else if k + 1 < n {
                k + 1
            } else {
                k
            };
            queue.push_back(samples[source]);
            k += 1;
            assert(queue@ =~= before.skip(evicted as int) + incoming.subrange(
                first as int,
                k as int,
            ));
        }
        assert(queue@ =~= keep_newest(before + incoming, self.capacity as nat));
        core::mem::swap(&mut self.queue, &mut queue);
        first + evicted
    }

    /// Moves up to `destination.len()` samples, oldest first, from the queue
    /// into `destination` and fills what is left of it with silence. Returns
    /// how many samples came from the queue.
    pub fn pop_into(&mut self, destination: &mut [T]) -> (supplied: usize)
        ensures
            final(destination)@ == played(
                old(self)@,
                old(destination)@.len(),
                old(self).silence(),
            ),
            final(self)@ == remaining(old(self)@, old(destination)@.len()),
            supplied == real_samples(old(self)@.len(), old(destination)@.len()),
            final(self).capacity() == old(self).capacity(),
            final(self).swaps() == old(self).swaps(),
            final(self).silence() == old(self).silence(),
    {
        proof {
            use_type_invariant(&*self);
        }
        let n: usize = destination.len();
        let silence: T = self.silence;
        let ghost before = self.queue@;
        let mut queue: VecDeque<T> = VecDeque::new();
        core::mem::swap(&mut self.queue, &mut queue);
        let mut supplied: usize = 0;
        let mut k: usize = 0;
        while k < n
            invariant
                k <= n,
                n == destination@.len(),
                supplied == if k <= before.len() {
                    k as int
                } else {
                    before.len() as int
                },
                queue@ == remaining(before, k as nat),
                destination@.take(k as int) == played(before, k as nat, silence),
            decreases n - k,
        {
            let ghost filled = destination@.take(k as int);
            match queue.pop_front() {
                Some(sample) => {
                    destination[k] = sample;
                    supplied += 1;
                },
                None => {
                    destination[k] = silence;
                },
            }
            k += 1;
            assert(queue@ =~= remaining(before, k as nat));
            assert forall|i: int| 0 <= i < k implies destination@.take(k as int)[i] == played(
                before,
                k as nat,
                silence,
            )[i] by {
                if i < k - 1 {
                    assert(destination@[i] == filled[i]);
                    assert(filled[i] == played(before, (k - 1) as nat, silence)[i]);
                }
            }
            assert(destination@.take(k as int) =~= played(before, k as nat, silence));
        }
        assert(destination@.take(n as int) =~= destination@);
        core::mem::swap(&mut self.queue, &mut queue);
        supplied
    }
}

/// Drops the `n` oldest samples of `queue`.
fn drop_oldest<T>(queue: &mut VecDeque<T>, n: usize)
    requires
        n <= old(queue)@.len(),
    ensures
        final(queue)@ == old(queue)@.skip(n as int),
{
    let mut k: usize = 0;
    while k < n
        invariant
            k <= n <= old(queue)@.len(),
            queue@ == old(queue)@.skip(k as int),
        decreases n - k,
    {
        let _ = queue.pop_front();
        k += 1;
        assert(queue@ =~= old(queue)@.skip(k as int));
    }
    assert(old(queue)@.skip(0) =~= old(queue)@);
}

/// What was pushed comes out as it went in: if the queue has room for
/// `samples` behind what is `queued`, playback first gets `queued` and then
/// `samples`, unchanged and in order, and not one sample of silence.
pub proof fn lemma_push_then_pop<T>(queued: Seq<T>, samples: Seq<T>, capacity: nat, silence: T)
    requires
        queued.len() + samples.len() <= capacity,
    ensures
        ({
            let after = keep_newest(queued + arranged(samples, false), capacity);
            &&& played(after, queued.len(), silence) == queued
            &&& played(remaining(after, queued.len()), samples.len(), silence) == samples
            &&& real_samples(remaining(after, queued.len()).len(), samples.len()) == samples.len()
            &&& remaining(remaining(after, queued.len()), samples.len()) == Seq::<T>::empty()
        }),
{
    let after = keep_newest(queued + arranged(samples, false), capacity);
    assert(after =~= queued + samples);
    assert(played(after, queued.len(), silence) =~= queued);
    let rest = remaining(after, queued.len());
    assert(rest =~= samples);
    assert(played(rest, samples.len(), silence) =~= samples);
    assert(remaining(rest, samples.len()) =~= Seq::<T>::empty());
}

/// Playback from an empty queue is all silence, and none of it counts as a
/// real sample.
pub proof fn lemma_pop_empty<T>(n: nat, silence: T)
    ensures
        played(Seq::<T>::empty(), n, silence) == silent(n, silence),
        forall|i: int| 0 <= i < n ==> played(Seq::<T>::empty(), n, silence)[i] == silence,
        real_samples(0, n) == 0,
        remaining(Seq::<T>::empty(), n) == Seq::<T>::empty(),
{
    assert(played(Seq::<T>::empty(), n, silence) =~= silent(n, silence));
    assert(remaining(Seq::<T>::empty(), n) =~= Seq::<T>::empty());
}

/// The queue never holds more than its capacity, whatever is pushed, and
/// what it holds after a push ends with the newest samples.
pub proof fn lemma_push_bounded<T>(queued: Seq<T>, samples: Seq<T>, swap: bool, capacity: nat)
    ensures
        keep_newest(queued + arranged(samples, swap), capacity).len() <= capacity,
        keep_newest(queued + arranged(samples, swap), capacity).len() + overflow(
            queued.len() + samples.len(),
            capacity,
        ) == queued.len() + samples.len(),
        keep_newest(queued + arranged(samples, swap), capacity).is_suffix_of(
            queued + arranged(samples, swap),
        ),
{
    let all = queued + arranged(samples, swap);
    let kept = keep_newest(all, capacity);
    assert(kept =~= all.skip(all.len() - kept.len()));
}

} // verus!
