use vstd::prelude::*;

use crate::samplers::common::Sampler;
use core::cmp::Ordering;
use vstd::std_specs::cmp::PartialOrdSpec;

verus! {

/// Always picks the largest logit.
pub struct GreedySampler;

/// The index that a left-to-right maximum search over the first `n` logits
/// settles on: a later logit takes over unless the one held so far compares
/// strictly greater, so ties and incomparable values (NaN) go to the later
/// index.
pub open spec fn greedy_pick<T: PartialOrd>(logits: Seq<T>, n: int) -> int
    decreases n,
{
    if n <= 1 {
        0
    } else {
        let held = greedy_pick(logits, n - 1);
        if keeps_held(logits[held], logits[n - 1]) {
            held
        } else {
            n - 1
        }
    }
}

/// The held logit stays only when it compares strictly greater.
pub open spec fn keeps_held<T: PartialOrd>(held: T, next: T) -> bool {
    held.partial_cmp_spec(&next) == Some(Ordering::Greater)
}

/// The greedy choice over a whole row.
pub open spec fn greedy_choice<T: PartialOrd>(logits: Seq<T>) -> int {
    greedy_pick(logits, logits.len() as int)
}

/// The greedy choice over the first `i` logits.
pub open spec fn greedy_prefix<T: PartialOrd>(logits: Seq<T>, i: usize) -> int {
    greedy_pick(logits, i as int)
}

/// The search's answer is one of the first `n` indices.
pub proof fn lemma_greedy_pick_in_range<T: PartialOrd>(logits: Seq<T>, n: int)
    requires
        n >= 1,
    ensures
        0 <= greedy_pick(logits, n) < n,
    decreases n,
{
    if n > 1 {
        lemma_greedy_pick_in_range(logits, n - 1);
    }
}

/// When the comparisons agree with an integer `score` (a total order, ties
/// allowed), the greedy choice holds the highest score, and every later
/// logit scores strictly lower: the last position of the maximum.
pub proof fn lemma_greedy_picks_last_max<T: PartialOrd>(
    logits: Seq<T>,
    n: int,
    score: spec_fn(T) -> int,
)
    requires
        1 <= n <= logits.len(),
        forall|i: int, j: int|
            0 <= i < logits.len() && 0 <= j < logits.len() ==> (keeps_held(logits[i], logits[j])
                <==> score(logits[i]) > score(logits[j])),
    ensures
        0 <= greedy_pick(logits, n) < n,
        forall|j: int| 0 <= j < n ==> #[trigger] score(logits[j]) <= score(logits[greedy_pick(logits, n)]),
        forall|j: int|
            greedy_pick(logits, n) < j < n ==> #[trigger] score(logits[j]) < score(
                logits[greedy_pick(logits, n)],
            ),
    decreases n,
{
    if n > 1 {
        lemma_greedy_picks_last_max(logits, n - 1, score);
        let held = greedy_pick(logits, n - 1);
        assert(keeps_held(logits[held], logits[n - 1]) <==> score(logits[held]) > score(
            logits[n - 1],
        ));
    }
}

impl<T: PartialOrd + Copy> Sampler<T> for GreedySampler {
    /// The position of the maximum under `partial_cmp`, the last one among
    /// equals; a comparison that fails counts as equal.
    fn sample(logits: &[T]) -> (r: usize)
        ensures
            T::obeys_partial_cmp_spec() ==> r == greedy_choice(logits@),
    {
        let n = logits.len();
        let mut best: usize = 0;
        let mut i: usize = 1;
        while i < n
            invariant
                n == logits@.len(),
                1 <= i <= n,
                best < i,
                T::obeys_partial_cmp_spec() ==> best == greedy_prefix(logits@, i),
            decreases n - i,
        {
            let held = logits[best];
            let next = logits[i];
            match held.partial_cmp(&next) {
                Some(Ordering::Greater) => {},
                _ => {
                    best = i;
                },
            }
            i = i + 1;
        }
        best
    }
}

} // verus!
