//! Greedy token selection: the arg-max over a vector of comparable
//! per-vocabulary-entry scores, with ties broken by the lowest index.
//!
//! Scores are integer keys whose order mirrors the runtime's total order
//! on logit values; the caller derives them from the raw logits.

use vstd::prelude::*;

verus! {

/// The index selected by a left-to-right greedy scan in which only a
/// strictly greater score replaces the current best: the first occurrence
/// of the maximum.
pub open spec fn argmax_idx(s: Seq<i64>) -> int
    decreases s.len(),
{
    if s.len() <= 1 {
        0
    } else {
        let r = argmax_idx(s.drop_last());
        if s.last() > s[r] {
            s.len() - 1
        } else {
            r
        }
    }
}

/// `argmax_idx` selects a maximal score, and every earlier score is
/// strictly smaller: ties go to the lowest index.
pub proof fn lemma_argmax_first_max(s: Seq<i64>)
    requires
        s.len() > 0,
    ensures
        0 <= argmax_idx(s) < s.len(),
        forall|j: int| 0 <= j < s.len() ==> #[trigger] s[j] <= s[argmax_idx(s)],
        forall|j: int| 0 <= j < argmax_idx(s) ==> #[trigger] s[j] < s[argmax_idx(s)],
    decreases s.len(),
{
    if s.len() > 1 {
        lemma_argmax_first_max(s.drop_last());
        assert(forall|j: int| 0 <= j < s.len() - 1 ==> #[trigger] s[j] == s.drop_last()[j]);
    }
}

/// Greedy selection over a score vector: returns the index of the first
/// occurrence of the maximum score, or nothing when the vector is empty.
pub fn greedy_argmax(scores: &[i64]) -> (r: Option<usize>)
    ensures
        r is Some <==> scores@.len() > 0,
        r matches Some(i) ==> i == argmax_idx(scores@),
{
    let n = scores.len();
    if n == 0 {
        return None;
    }
    let mut best: usize = 0;
    let mut i: usize = 1;
    while i < n
        invariant
            n == scores@.len(),
            1 <= i <= n,
            0 <= best < i,
            best == argmax_idx(scores@.subrange(0, i as int)),
        decreases n - i,
    {
        proof {
            let pre = scores@.subrange(0, i as int);
            let cur = scores@.subrange(0, i + 1 as int);
            assert(cur.drop_last() =~= pre);
            assert(cur.last() == scores@[i as int]);
            lemma_argmax_first_max(pre);
        }
        if scores[i] > scores[best] {
            best = i;
        }
        i = i + 1;
    }
    assert(scores@.subrange(0, n as int) =~= scores@);
    Some(best)
}

} // verus!
