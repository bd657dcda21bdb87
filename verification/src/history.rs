//! Bounded history of one metric, kept in a ring of fixed capacity.

use circular_buffer::CircularBuffer;
use vstd::prelude::*;

verus! {

/// Number of samples that a history holds before the oldest one leaves.
pub const CAPACITY: usize = 60;

/// `circular_buffer::CircularBuffer`, which is opaque to the verifier.
#[verifier::external_type_specification]
#[verifier::external_body]
#[verifier::reject_recursive_types(T)]
pub struct ExCircularBuffer<const N: usize, T>(CircularBuffer<N, T>);

/// The items of a ring, front (oldest) first.
pub uninterp spec fn ring_items(ring: CircularBuffer<60, i32>) -> Seq<i32>;

/// `CircularBuffer::new`: a ring without items.
#[verifier::external_body]
fn ring_new() -> (ring: CircularBuffer<60, i32>)
    ensures
        ring_items(ring) == Seq::<i32>::empty(),
{
    CircularBuffer::new()
}

/// `CircularBuffer::len`: the number of items, which never exceeds the
/// capacity that the type was made with.
#[verifier::external_body]
fn ring_len(ring: &CircularBuffer<60, i32>) -> (n: usize)
    ensures
        n == ring_items(*ring).len(),
        n <= 60,
{
    ring.len()
}

/// `CircularBuffer::push_back`: the item goes to the back. A ring with room
/// left returns `None`; a full one drops its front item and returns it.
#[verifier::external_body]
fn ring_push_back(ring: &mut CircularBuffer<60, i32>, item: i32) -> (evicted: Option<i32>)
    ensures
        ring_items(*old(ring)).len() < 60 ==> evicted.is_none() && ring_items(*final(ring))
            == ring_items(*old(ring)).push(item),
        ring_items(*old(ring)).len() == 60 ==> evicted == Some(ring_items(*old(ring))[0])
            && ring_items(*final(ring)) == ring_items(*old(ring)).drop_first().push(item),
{
    ring.push_back(item)
}

/// `CircularBuffer::get`: the item at `index` counted from the front, if
/// there is one.
#[verifier::external_body]
fn ring_get(ring: &CircularBuffer<60, i32>, index: usize) -> (item: Option<i32>)
    ensures
        index < ring_items(*ring).len() ==> item == Some(ring_items(*ring)[index as int]),
        index >= ring_items(*ring).len() ==> item.is_none(),
{
    ring.get(index).copied()
}

/// The most recent `CAPACITY` items of `all`, in their order.
pub open spec fn latest(all: Seq<i32>) -> Seq<i32> {
    if all.len() <= CAPACITY {
        all
    } else {
        all.subrange(all.len() - CAPACITY, all.len() as int)
    }
}

/// What a history holds after `samples` were pushed one after another onto
/// one that held `held`.
pub open spec fn pushed_all(held: Seq<i32>, samples: Seq<i32>) -> Seq<i32>
    decreases samples.len(),
{
    if samples.len() == 0 {
        held
    } else {
        latest(pushed_all(held, samples.drop_last()).push(samples.last()))
    }
}

/// Pushing never loses a recent sample: after any run of pushes a history
/// holds the most recent `CAPACITY` of all the samples it ever took, in the
/// order in which they came.
pub proof fn lemma_keeps_latest(held: Seq<i32>, samples: Seq<i32>)
    requires
        held.len() <= CAPACITY,
    ensures
        pushed_all(held, samples) == latest(held + samples),
    decreases samples.len(),
{
    if samples.len() == 0 {
        assert(held + samples =~= held);
    } else {
        let front = samples.drop_last();
        lemma_keeps_latest(held, front);
        let all = held + front;
        assert(held + samples =~= all.push(samples.last()));
        assert(latest(latest(all).push(samples.last())) =~= latest(all.push(samples.last())));
    }
}

/// After `CAPACITY` or more pushes a history that began empty holds exactly
/// the last `CAPACITY` samples pushed, oldest first.
pub proof fn lemma_full_after_capacity(samples: Seq<i32>)
    requires
        samples.len() >= CAPACITY,
    ensures
        pushed_all(Seq::<i32>::empty(), samples) == samples.subrange(
            samples.len() - CAPACITY,
            samples.len() as int,
        ),
        pushed_all(Seq::<i32>::empty(), samples).len() == CAPACITY,
{
    lemma_keeps_latest(Seq::<i32>::empty(), samples);
    assert(Seq::<i32>::empty() + samples =~= samples);
    assert(samples.subrange(0, samples.len() as int) =~= samples);
}

/// The greatest of `samples`; of no samples, the least value there is.
pub open spec fn max_of(samples: Seq<i32>) -> i32
    decreases samples.len(),
{
    if samples.len() == 0 {
        i32::MIN
    } else if samples.last() >= max_of(samples.drop_last()) {
        samples.last()
    } else {
        max_of(samples.drop_last())
    }
}

/// The least of `samples`; of no samples, the greatest value there is.
pub open spec fn min_of(samples: Seq<i32>) -> i32
    decreases samples.len(),
{
    if samples.len() == 0 {
        i32::MAX
    } else if samples.last() <= min_of(samples.drop_last()) {
        samples.last()
    } else {
        min_of(samples.drop_last())
    }
}

/// The extrema bound every sample, and each of them is one of the samples.
pub proof fn lemma_extrema(samples: Seq<i32>)
    ensures
        forall|i: int|
            0 <= i < samples.len() ==> min_of(samples) <= #[trigger] samples[i] <= max_of(
                samples,
            ),
        samples.len() > 0 ==> samples.contains(min_of(samples)) && samples.contains(
            max_of(samples),
        ),
    decreases samples.len(),
{
    if samples.len() > 0 {
        let front = samples.drop_last();
        lemma_extrema(front);
        assert forall|i: int| 0 <= i < samples.len() implies min_of(samples)
            <= #[trigger] samples[i] <= max_of(samples) by {
            if i < front.len() {
                assert(samples[i] == front[i]);
            }
        }
        let last = samples.len() - 1;
        assert(samples[last] == samples.last());
        if front.len() > 0 {
            let at_min = choose|i: int| 0 <= i < front.len() && front[i] == min_of(front);
            assert(samples[at_min] == min_of(front));
            let at_max = choose|i: int| 0 <= i < front.len() && front[i] == max_of(front);
            assert(samples[at_max] == max_of(front));
        }
    }
}

/// The recent samples of one metric, oldest first.
pub struct History {
    ring: CircularBuffer<60, i32>,
}

impl View for History {
    type V = Seq<i32>;

    closed spec fn view(&self) -> Seq<i32> {
        ring_items(self.ring)
    }
}

impl History {
    /// A history without samples.
    pub fn new() -> (history: History)
        ensures
            history@ == Seq::<i32>::empty(),
    {
        History { ring: ring_new() }
    }

    /// The number of samples held, which never exceeds `CAPACITY`.
    pub fn len(&self) -> (n: usize)
        ensures
            n == self@.len(),
            n <= CAPACITY,
    {
        ring_len(&self.ring)
    }

    /// The samples held, oldest first.
    pub fn samples(&self) -> (all: Vec<i32>)
        ensures
            all@ == self@,
            all@.len() <= CAPACITY,
    {
        let count = ring_len(&self.ring);
        let mut all: Vec<i32> = Vec::new();
        let mut index: usize = 0;
        while index < count
            invariant
                count == self@.len(),
                index <= count,
                all@ == self@.subrange(0, index as int),
            decreases count - index,
        {
            match ring_get(&self.ring, index) {
                Some(sample) => {
                    all.push(sample);
                    assert(all@ =~= self@.subrange(0, index + 1));
                },
                None => {
                    assert(false);
                },
            }
            index += 1;
        }
        assert(all@ =~= self@);
        all
    }

    /// The least sample held, or `None` while there is none.
    pub fn min(&self) -> (least: Option<i32>)
        ensures
            least == if self@.len() == 0 {
                None
            } else {
                Some(min_of(self@))
            },
    {
        let all = self.samples();
        if all.len() == 0 {
            return None;
        }
        let mut least: i32 = i32::MAX;
        let mut index: usize = 0;
        while index < all.len()
            invariant
                index <= all.len(),
                least == min_of(all@.subrange(0, index as int)),
            decreases all.len() - index,
        {
            assert(all@.subrange(0, index + 1).drop_last() =~= all@.subrange(0, index as int));
            if all[index] <= least {
                least = all[index];
            }
            index += 1;
        }
        assert(all@.subrange(0, index as int) =~= all@);
        Some(least)
    }

    /// The greatest sample held, or `None` while there is none.
    pub fn max(&self) -> (greatest: Option<i32>)
        ensures
            greatest == if self@.len() == 0 {
                None
            } else {
                Some(max_of(self@))
            },
    {
        let all = self.samples();
        if all.len() == 0 {
            return None;
        }
        let mut greatest: i32 = i32::MIN;
        let mut index: usize = 0;
        while index < all.len()
            invariant
                index <= all.len(),
                greatest == max_of(all@.subrange(0, index as int)),
            decreases all.len() - index,
        {
            assert(all@.subrange(0, index + 1).drop_last() =~= all@.subrange(0, index as int));
            if all[index] >= greatest {
                greatest = all[index];
            }
            index += 1;
        }
        assert(all@.subrange(0, index as int) =~= all@);
        Some(greatest)
    }

    /// Appends `sample` as the newest one; a full history first lets go of
    /// its oldest sample.
    pub fn push(&mut self, sample: i32)
        ensures
            final(self)@ == latest(old(self)@.push(sample)),
            final(self)@ == pushed_all(old(self)@, seq![sample]),
            final(self)@.len() <= CAPACITY,
    {
        let _held = ring_len(&self.ring);
        let _ = ring_push_back(&mut self.ring, sample);
        proof {
            let before = old(self)@;
            if before.len() == 60 {
                assert(before.drop_first().push(sample) =~= latest(before.push(sample)));
            }
            assert(seq![sample].drop_last() =~= Seq::<i32>::empty());
            assert(pushed_all(before, seq![sample].drop_last()) == before);
        }
    }
}

} // verus!
