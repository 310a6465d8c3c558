//! Facts about chains of operations on a `MemoIter`.
use vstd::prelude::*;
use crate::memo_iter::MemoIter;

verus! {

/// The cache is append-only: along any chain of states in which each extends
/// its predecessor (as every operation ensures), the cache never shrinks, and
/// a value cached at an index keeps that index and that value in every later
/// state.
pub proof fn lemma_cache_append_only<I, T>(states: Seq<MemoIter<I, T>>)
    where
        I: Iterator<Item = T>,
    requires
        forall|i: int| 0 <= i < states.len() - 1 ==> #[trigger] states[i].extends_to(states[i + 1]),
    ensures
        forall|i: int, j: int|
            0 <= i <= j < states.len() ==> {
                &&& #[trigger] states[i].extends_to(#[trigger] states[j])
                &&& states[i].cached().len() <= states[j].cached().len()
                &&& forall|k: int|
                    0 <= k < states[i].cached().len() ==> #[trigger] states[j].cached()[k]
                        == states[i].cached()[k]
            },
    decreases states.len(),
{
    if states.len() > 0 {
        let front = states.drop_last();
        assert forall|i: int| 0 <= i < front.len() - 1 implies #[trigger] front[i].extends_to(
            front[i + 1],
        ) by {
            assert(states[i].extends_to(states[i + 1]));
        }
        lemma_cache_append_only(front);
        let n = states.len() - 1;
        assert forall|i: int, j: int| 0 <= i <= j < states.len() implies {
            &&& #[trigger] states[i].extends_to(#[trigger] states[j])
            &&& states[i].cached().len() <= states[j].cached().len()
            &&& forall|k: int|
                0 <= k < states[i].cached().len() ==> #[trigger] states[j].cached()[k]
                    == states[i].cached()[k]
        } by {
            if j < n {
                assert(front[i] == states[i] && front[j] == states[j]);
            } else if i == j {
                assert(states[i].cached() =~= states[i].cached().subrange(
                    0,
                    states[i].cached().len() as int,
                ));
            } else {
                let m = n - 1;
                assert(front[i] == states[i] && front[m] == states[m]);
                assert(states[m].extends_to(states[m + 1]));
                lemma_extends_transitive(states[i], states[m], states[n]);
            }
        }
    }
}

/// Two steps that each extend their predecessor make one such step.
pub proof fn lemma_extends_transitive<I, T>(a: MemoIter<I, T>, b: MemoIter<I, T>, c: MemoIter<I, T>)
    where
        I: Iterator<Item = T>,
    requires
        a.extends_to(b),
        b.extends_to(c),
    ensures
        a.extends_to(c),
{
    assert(a.cached() =~= c.cached().subrange(0, a.cached().len() as int)) by {
        assert(b.cached().subrange(0, a.cached().len() as int) =~= c.cached().subrange(
            0,
            a.cached().len() as int,
        ));
    }
}

/// Asking for an index at or below one asked for before drives the producer
/// no further: the container, producer included, is left as it was. In
/// particular asking twice for the same index changes nothing the second time.
pub proof fn lemma_no_recompute<I, T>(
    s0: MemoIter<I, T>,
    s1: MemoIter<I, T>,
    s2: MemoIter<I, T>,
    n: int,
    k: int,
)
    where
        I: Iterator<Item = T>,
    requires
        s0.expanded(n, s1),
        s1.expanded(k, s2),
        k <= n,
    ensures
        s2 == s1,
{
}

/// Once exhausted, a container stays exhausted, its number of evaluated
/// values no longer changes, and its producer is never queried again.
pub proof fn lemma_exhaustion_monotonic<I, T>(a: MemoIter<I, T>, b: MemoIter<I, T>)
    where
        I: Iterator<Item = T>,
    requires
        a.exhausted(),
        a.extends_to(b),
    ensures
        b.exhausted(),
        b.cached().len() == a.cached().len(),
        b.producer() == a.producer(),
{
}

} // verus!
