//! Sample buffers for the periodic sensor and fan sampling tasks.

use heapless::Deque;
use vstd::prelude::*;

verus! {

/// Number of samples a [`SampleBuf`] keeps.
pub const SAMPLE_CAPACITY: usize = 10;

/// `heapless::Deque`, opaque: what it holds is given by
/// [`sample_deque_contents`].
#[verifier::external_type_specification]
#[verifier::external_body]
#[verifier::reject_recursive_types(T)]
pub struct ExDeque<T, const N: usize>(Deque<T, N>);

/// What a bounded deque of samples holds, front to back.
pub uninterp spec fn sample_deque_contents(d: Deque<u32, SAMPLE_CAPACITY>) -> Seq<u32>;

/// `heapless::Deque::new`: the new deque is empty.
#[verifier::external_body]
fn deque_new() -> (r: Deque<u32, SAMPLE_CAPACITY>)
    ensures
        sample_deque_contents(r) == Seq::<u32>::empty(),
{
    Deque::new()
}

/// `heapless::Deque::is_full`: true exactly when the deque holds its
/// capacity of items.
#[verifier::external_body]
fn deque_is_full(d: &Deque<u32, SAMPLE_CAPACITY>) -> (r: bool)
    ensures
        r == (sample_deque_contents(*d).len() == SAMPLE_CAPACITY),
    no_unwind
{
    d.is_full()
}

/// `heapless::Deque::pop_back`: removes and returns the last item, or
/// returns `None` and leaves the deque unchanged when it is empty.
#[verifier::external_body]
fn deque_pop_back(d: &mut Deque<u32, SAMPLE_CAPACITY>) -> (r: Option<u32>)
    ensures
        sample_deque_contents(*old(d)).len() == 0 ==> r is None && sample_deque_contents(*final(d)) == sample_deque_contents(*old(d)),
        sample_deque_contents(*old(d)).len() > 0 ==> r == Some(sample_deque_contents(*old(d)).last())
            && sample_deque_contents(*final(d)) == sample_deque_contents(*old(d)).drop_last(),
    no_unwind
{
    d.pop_back()
}

/// `heapless::Deque::push_front`: when the deque is full the item is handed
/// back and the deque is unchanged; otherwise the item becomes the front.
#[verifier::external_body]
fn deque_push_front(d: &mut Deque<u32, SAMPLE_CAPACITY>, item: u32) -> (r: Result<(), u32>)
    ensures
        sample_deque_contents(*old(d)).len() >= SAMPLE_CAPACITY ==> (r matches Err(x) && x == item)
            && sample_deque_contents(*final(d)) == sample_deque_contents(*old(d)),
        sample_deque_contents(*old(d)).len() < SAMPLE_CAPACITY ==> r is Ok
            && sample_deque_contents(*final(d)) == seq![item] + sample_deque_contents(*old(d)),
    no_unwind
{
    d.push_front(item)
}

/// `heapless::Deque::front`: the first item, or `None` when empty.
#[verifier::external_body]
fn deque_front(d: &Deque<u32, SAMPLE_CAPACITY>) -> (r: Option<u32>)
    ensures
        sample_deque_contents(*d).len() == 0 ==> r is None,
        sample_deque_contents(*d).len() > 0 ==> r == Some(sample_deque_contents(*d)[0]),
{
    d.front().copied()
}

/// The samples after recording `sample`: it becomes the newest, and the
/// oldest one is dropped when the buffer was full.
pub open spec fn pushed(samples: Seq<u32>, sample: u32) -> Seq<u32> {
    seq![sample] + (if samples.len() >= SAMPLE_CAPACITY {
        samples.drop_last()
    } else {
        samples
    })
}

/// The most recent sample, or 0 when there is none.
pub open spec fn most_recent(samples: Seq<u32>) -> u32 {
    if samples.len() == 0 {
        0
    } else {
        samples[0]
    }
}

/// Law: the most recent sample after recording one is that sample, and a
/// buffer within its capacity stays within it.
pub proof fn lemma_push_then_recent(samples: Seq<u32>, sample: u32)
    ensures
        most_recent(pushed(samples, sample)) == sample,
        samples.len() <= SAMPLE_CAPACITY ==> pushed(samples, sample).len() <= SAMPLE_CAPACITY,
        samples.len() < SAMPLE_CAPACITY ==> pushed(samples, sample).len() == samples.len() + 1,
{
}

/// Law: recording a sample keeps the earlier samples, newest first, behind
/// it (all of them when the buffer was not full, all but the oldest one
/// otherwise).
pub proof fn lemma_push_keeps_order(samples: Seq<u32>, sample: u32, i: int)
    requires
        samples.len() <= SAMPLE_CAPACITY,
        0 <= i < samples.len(),
        i < SAMPLE_CAPACITY - 1,
    ensures
        pushed(samples, sample)[i + 1] == samples[i],
{
}

/// Bounded buffer of the most recent samples, newest first.
///
/// Samples are stored as `u32` words: fan speeds widen losslessly and sensor
/// temperatures are stored by their bit pattern.
pub struct SampleBuf {
    deque: Deque<u32, SAMPLE_CAPACITY>,
}

impl SampleBuf {
    /// The buffer never holds more than [`SAMPLE_CAPACITY`] samples.
    #[verifier::type_invariant]
    spec fn within_capacity(self) -> bool {
        sample_deque_contents(self.deque).len() <= SAMPLE_CAPACITY
    }

    /// The samples held, newest first.
    pub closed spec fn view(&self) -> Seq<u32> {
        sample_deque_contents(self.deque)
    }

    /// A new, empty buffer.
    pub fn new() -> (r: Self)
        ensures
            r.view() == Seq::<u32>::empty(),
    {
        SampleBuf { deque: deque_new() }
    }

    /// Records a sample, dropping the oldest one when the buffer is full.
    pub fn push(&mut self, sample: u32)
        ensures
            final(self).view() == pushed(old(self).view(), sample),
        no_unwind
    {
        proof {
            use_type_invariant(&*self);
        }
        if deque_is_full(&self.deque) {
            let _ = deque_pop_back(&mut self.deque);
        }
        let r = deque_push_front(&mut self.deque, sample);
        assert(r is Ok);
    }

    /// The most recent sample, or 0 when nothing was recorded yet.
    pub fn recent(&self) -> (r: u32)
        ensures
            r == most_recent(self.view()),
            self.view().len() <= SAMPLE_CAPACITY,
    {
        proof {
            use_type_invariant(self);
        }
        match deque_front(&self.deque) {
            Some(v) => v,
            None => 0,
        }
    }
}

} // verus!
