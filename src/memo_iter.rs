//! A producer paired with a cache of every value it has produced.
use vstd::prelude::*;
use vstd::std_specs::iter::IteratorSpec;
use crate::bounds::{IndexBound, SliceBounds};

verus! {

/// The index of the first value that a start bound admits.
pub open spec fn start_index(b: IndexBound) -> int {
    match b {
        IndexBound::Included(i) => i as int,
        IndexBound::Excluded(i) => i + 1,
        IndexBound::Unbounded => 0,
    }
}

/// One past the index of the last value that an end bound admits, among
/// `len` cached values.
pub open spec fn end_index(b: IndexBound, len: int) -> int {
    match b {
        IndexBound::Included(i) => if i + 1 < len { i + 1 } else { len },
        IndexBound::Excluded(i) => if i < len { i as int } else { len },
        IndexBound::Unbounded => len,
    }
}

/// The values of `s` between two bounds; empty where the start lies at or
/// past the end.
pub open spec fn slice_of<T>(s: Seq<T>, bounds: (IndexBound, IndexBound)) -> Seq<T> {
    let e = end_index(bounds.1, s.len() as int);
    let b = start_index(bounds.0);
    s.subrange(if b < e { b } else { e }, e)
}

/// A producer of values together with the values it has produced so far,
/// in the order it produced them.
#[derive(Debug)]
#[verifier::reject_recursive_types(T)]
#[verifier::reject_recursive_types(I)]
pub struct MemoIter<I, T> where I: Iterator<Item = T> {
    exhausted: bool,
    iterator: I,
    sequence: Vec<T>,
}

impl<I, T> MemoIter<I, T> where I: Iterator<Item = T> {
    /// The values produced so far, in production order.
    pub closed spec fn cached(self) -> Seq<T> {
        self.sequence@
    }

    /// Whether the producer has signalled that it has no more values.
    pub closed spec fn exhausted(self) -> bool {
        self.exhausted
    }

    /// The wrapped producer, in its current state.
    pub closed spec fn producer(self) -> I {
        self.iterator
    }

    /// `later` can follow `self`: the cache has only grown at its end, and an
    /// exhausted container stays as it is.
    pub open spec fn extends_to(self, later: Self) -> bool {
        &&& self.cached().is_prefix_of(later.cached())
        &&& self.exhausted() ==> later == self
    }

    /// `post` is `self` after making sure that index `idx` is cached: the
    /// producer is driven only while the index is missing, and no further.
    pub open spec fn expanded(self, idx: int, post: Self) -> bool {
        &&& self.extends_to(post)
        &&& (self.exhausted() || idx < self.cached().len()) ==> post == self
        &&& post.exhausted() || idx < post.cached().len()
        &&& !self.exhausted() && self.cached().len() <= idx && !post.exhausted() ==> post.cached().len() == idx + 1
        &&& !self.exhausted() && post.exhausted() ==> post.cached().len() <= idx
    }

    /// Wraps a producer, with nothing cached yet.
    pub fn new(iterator: I) -> (r: Self)
        ensures
            r.cached() == Seq::<T>::empty(),
            !r.exhausted(),
            r.producer() == iterator,
    {
        Self { exhausted: false, iterator, sequence: Vec::new() }
    }

    /// Wraps a producer, with nothing cached yet and room set aside for
    /// `capacity` values; the cache still grows past that.
    pub fn with_capacity(capacity: usize, iterator: I) -> (r: Self)
        ensures
            r.cached() == Seq::<T>::empty(),
            !r.exhausted(),
            r.producer() == iterator,
    {
        Self { exhausted: false, iterator, sequence: Vec::with_capacity(capacity) }
    }

    /// Wraps a producer whose first values are already known; the producer
    /// goes on from index `sequence.len()`.
    pub fn with_vec(iterator: I, sequence: Vec<T>) -> (r: Self)
        ensures
            r.cached() == sequence@,
            !r.exhausted(),
            r.producer() == iterator,
    {
        Self { exhausted: false, iterator, sequence }
    }

    /// The number of values produced so far.
    pub fn evaluated(&self) -> (r: usize)
        ensures
            r == self.cached().len(),
    {
        self.sequence.len()
    }

    /// Drives the producer until index `idx` is cached or the producer ends.
    fn expand_to_contain(&mut self, idx: usize)
        ensures
            old(self).expanded(idx as int, *final(self)),
            idx < old(self).cached().len() ==> *final(self) == *old(self),
            old(self).exhausted() ==> *final(self) == *old(self),
            IteratorSpec::obeys_prophetic_iter_laws(&old(self).producer()) ==> {
                &&& IteratorSpec::obeys_prophetic_iter_laws(&final(self).producer())
                &&& old(self).cached() + IteratorSpec::remaining(&old(self).producer())
                    == final(self).cached() + IteratorSpec::remaining(&final(self).producer())
                &&& !old(self).exhausted() && final(self).exhausted()
                    ==> IteratorSpec::remaining(&final(self).producer()).len() == 0
            },
    {
        if !self.exhausted {
            let len: usize = self.sequence.len();
            if idx >= len {
                while self.sequence.len() <= idx
                    invariant
                        !self.exhausted,
                        !old(self).exhausted,
                        len == old(self).sequence@.len(),
                        len <= idx,
                        len <= self.sequence@.len() <= idx + 1,
                        old(self).sequence@ == self.sequence@.subrange(0, len as int),
                        IteratorSpec::obeys_prophetic_iter_laws(&old(self).iterator) ==> {
                            &&& IteratorSpec::obeys_prophetic_iter_laws(&self.iterator)
                            &&& old(self).sequence@ + IteratorSpec::remaining(&old(self).iterator)
                                == self.sequence@ + IteratorSpec::remaining(&self.iterator)
                        },
                    decreases idx + 1 - self.sequence@.len(),
                {
                    match self.iterator.next() {
                        Some(v) => {
                            self.sequence.push(v);
                        },
                        None => {
                            self.exhausted = true;
                            return;
                        },
                    }
                }
            }
        }
    }

    /// The value at index `idx`, driving the producer as far as needed;
    /// `None` where the producer ends before reaching that index.
    pub fn get(&mut self, idx: usize) -> (r: Option<&T>)
        ensures
            old(self).expanded(idx as int, *final(self)),
            idx < old(self).cached().len() ==> *final(self) == *old(self),
            old(self).exhausted() ==> *final(self) == *old(self),
            r == (if idx < final(self).cached().len() {
                Some(&final(self).cached()[idx as int])
            } else {
                None::<&T>
            }),
            IteratorSpec::obeys_prophetic_iter_laws(&old(self).producer()) ==> {
                &&& IteratorSpec::obeys_prophetic_iter_laws(&final(self).producer())
                &&& old(self).cached() + IteratorSpec::remaining(&old(self).producer())
                    == final(self).cached() + IteratorSpec::remaining(&final(self).producer())
                &&& !old(self).exhausted() && final(self).exhausted()
                    ==> IteratorSpec::remaining(&final(self).producer()).len() == 0
            },
    {
        self.expand_to_contain(idx);
        if idx < self.sequence.len() {
            Some(&self.sequence[idx])
        } else {
            None
        }
    }

    /// The cached values between the bounds of `range`. An end bound drives
    /// the producer until the values it admits are cached or the producer
    /// ends; an unbounded end drives nothing and reads what is cached.
    pub fn get_slice<R: SliceBounds>(&mut self, range: R) -> (r: &[T])
        requires
            range.bounds_known(),
        ensures
            match range.bounds_spec().1 {
                IndexBound::Unbounded => *final(self) == *old(self),
                IndexBound::Included(i) => old(self).expanded(i as int, *final(self)),
                IndexBound::Excluded(i) => if i == 0 {
                    *final(self) == *old(self)
                } else {
                    old(self).expanded(i - 1, *final(self))
                },
            },
            r@ == slice_of(final(self).cached(), range.bounds_spec()),
            IteratorSpec::obeys_prophetic_iter_laws(&old(self).producer()) ==> {
                &&& IteratorSpec::obeys_prophetic_iter_laws(&final(self).producer())
                &&& old(self).cached() + IteratorSpec::remaining(&old(self).producer())
                    == final(self).cached() + IteratorSpec::remaining(&final(self).producer())
                &&& !old(self).exhausted() && final(self).exhausted()
                    ==> IteratorSpec::remaining(&final(self).producer()).len() == 0
            },
    {
        let (start, end_bound) = range.bounds();
        let end: usize = match end_bound {
            IndexBound::Unbounded => self.sequence.len(),
            IndexBound::Included(i) => {
                self.expand_to_contain(i);
                let len: usize = self.sequence.len();
                if i < len { i + 1 } else { len }
            },
            IndexBound::Excluded(i) => {
                if i > 0 {
                    self.expand_to_contain(i - 1);
                }
                let len: usize = self.sequence.len();
                if i < len { i } else { len }
            },
        };
        let first: usize = match start {
            IndexBound::Unbounded => 0,
            IndexBound::Included(i) => if i < end { i } else { end },
            IndexBound::Excluded(i) => if i < end { i + 1 } else { end },
        };
        let all: &[T] = self.sequence.as_slice();
        &all[first..end]
    }

    /// Whether the producer has signalled that it has no more values.
    pub fn is_exhausted(&self) -> (r: bool)
        ensures
            r == self.exhausted(),
    {
        self.exhausted
    }

    /// The value at index `idx` if it is cached already; never drives the
    /// producer.
    pub fn recall(&self, idx: usize) -> (r: Option<&T>)
        ensures
            r == (if idx < self.cached().len() {
                Some(&self.cached()[idx as int])
            } else {
                None::<&T>
            }),
    {
        if idx < self.sequence.len() {
            Some(&self.sequence[idx])
        } else {
            None
        }
    }

    /// Takes the container apart into its cache and its producer.
    pub fn consume(self) -> (r: (Vec<T>, I))
        ensures
            r.0@ == self.cached(),
            r.1 == self.producer(),
    {
        let Self { sequence, iterator, .. } = self;
        (sequence, iterator)
    }

    /// All values cached so far, in production order; drives nothing.
    pub fn as_slice(&self) -> (r: &[T])
        ensures
            r@ == self.cached(),
    {
        self.sequence.as_slice()
    }

    /// Pulls one more value from the producer, caches it and hands it out;
    /// `None` once the producer has ended, without asking it again.
    pub fn next(&mut self) -> (r: Option<T>)
        where
            T: Copy,
        ensures
            old(self).extends_to(*final(self)),
            old(self).exhausted() ==> r is None,
            !old(self).exhausted() ==> match r {
                Some(v) => !final(self).exhausted() && final(self).cached() == old(self).cached().push(v),
                None => final(self).exhausted() && final(self).cached() == old(self).cached(),
            },
            IteratorSpec::obeys_prophetic_iter_laws(&old(self).producer()) ==> {
                &&& IteratorSpec::obeys_prophetic_iter_laws(&final(self).producer())
                &&& old(self).cached() + IteratorSpec::remaining(&old(self).producer())
                    == final(self).cached() + IteratorSpec::remaining(&final(self).producer())
                &&& !old(self).exhausted() && final(self).exhausted()
                    ==> IteratorSpec::remaining(&final(self).producer()).len() == 0
            },
    {
        if !self.exhausted {
            match self.iterator.next() {
                Some(v) => {
                    self.sequence.push(v);
                    Some(v)
                },
                None => {
                    self.exhausted = true;
                    None
                },
            }
        } else {
            None
        }
    }
}

/// `a + b`, or `usize::MAX` where that sum does not fit.
pub open spec fn saturated_total(a: int, b: int) -> int {
    if a + b <= usize::MAX {
        a + b
    } else {
        usize::MAX as int
    }
}

/// Relies on ExactSizeIterator::len: the exact number of values that the
/// iterator has left to produce.
#[verifier::external_body]
fn exact_remaining<I: ExactSizeIterator>(it: &I) -> (r: usize)
    ensures
        IteratorSpec::obeys_prophetic_iter_laws(it) ==> r == IteratorSpec::remaining(it).len(),
{
    it.len()
}

impl<I, T> MemoIter<I, T> where I: ExactSizeIterator<Item = T> {
    /// The number of values cached plus the number that the producer has
    /// left, saturating at `usize::MAX`.
    pub fn len(&self) -> (r: usize)
        ensures
            IteratorSpec::obeys_prophetic_iter_laws(&self.producer()) ==> r == saturated_total(
                self.cached().len() as int,
                IteratorSpec::remaining(&self.producer()).len() as int,
            ),
    {
        self.sequence.len().saturating_add(exact_remaining(&self.iterator))
    }
}

impl<I, T> AsRef<[T]> for MemoIter<I, T> where I: Iterator<Item = T> {
    fn as_ref(&self) -> (r: &[T])
        ensures
            r@ == self.cached(),
    {
        self.sequence.as_slice()
    }
}

impl<I, T> core::ops::Deref for MemoIter<I, T> where I: Iterator<Item = T> {
    type Target = [T];

    fn deref(&self) -> (r: &[T])
        ensures
            r@ == self.cached(),
    {
        self.sequence.as_slice()
    }
}

} // verus!
