//! Shannon entropy of a ternary system: the bookkeeping of strategy counts.
use vstd::prelude::*;

verus! {

/// Shannon entropy of a ternary distribution.
///
/// For probabilities (p₁, p₂, p₃) the entropy is S = -Σ pᵢ ln(pᵢ); a term
/// with pᵢ = 0 contributes nothing. When the distribution is observed as
/// raw counts, pᵢ is the share of count i in the total.
pub struct SystemEntropy;

/// The total of three strategy counts.
pub open spec fn count_total(counts: [u64; 3]) -> int {
    counts[0] + counts[1] + counts[2]
}

/// The non-zero counts, in strategy order: the only ones whose share enters
/// the entropy.
pub open spec fn occupied_counts(counts: [u64; 3]) -> Seq<u64> {
    (if counts[0] > 0 { seq![counts[0]] } else { Seq::empty() }) + (if counts[1] > 0 {
        seq![counts[1]]
    } else {
        Seq::empty()
    }) + (if counts[2] > 0 { seq![counts[2]] } else { Seq::empty() })
}

/// How many of the counts before strategy slot `k` are non-zero.
pub open spec fn nonzero_before(counts: [u64; 3], k: int) -> int
    decreases k,
{
    if k <= 0 {
        0
    } else {
        nonzero_before(counts, k - 1) + if counts[k - 1] > 0 { 1int } else { 0int }
    }
}

/// The sum of a sequence of counts.
pub open spec fn sum_counts(s: Seq<u64>) -> int
    decreases s.len(),
{
    if s.len() == 0 {
        0
    } else {
        sum_counts(s.drop_last()) + s.last()
    }
}

impl SystemEntropy {
    /// The entropy terms of raw counts: the non-zero counts, in strategy
    /// order, and the total they are shares of. `None` when all counts are
    /// zero, since there is then no distribution.
    pub fn count_terms(counts: [u64; 3]) -> (terms: Option<(Vec<u64>, u64)>)
        requires
            count_total(counts) <= u64::MAX,
        ensures
            terms is None <==> count_total(counts) == 0,
            terms matches Some((occupied, total)) ==> {
                &&& total == count_total(counts)
                &&& occupied@ == occupied_counts(counts)
                &&& occupied@.len() == nonzero_before(counts, 3)
                &&& forall|k: int|
                    0 <= k < 3 && counts[k] > 0 ==> occupied@[nonzero_before(counts, k)]
                        == counts[k]
            },
    {
        let total = counts[0] + counts[1] + counts[2];
        if total == 0 {
            return None;
        }
        let mut occupied: Vec<u64> = Vec::new();
        if counts[0] > 0 {
            occupied.push(counts[0]);
        }
        if counts[1] > 0 {
            occupied.push(counts[1]);
        }
        if counts[2] > 0 {
            occupied.push(counts[2]);
        }
        proof {
            assert(occupied@ =~= occupied_counts(counts));
            Self::lemma_occupied_counts_are_the_nonzero_counts(counts);
        }
        Some((occupied, total))
    }

    /// The occupied counts are exactly the non-zero counts, one term per
    /// strategy and in strategy order: there are as many terms as non-zero
    /// counts, the term of a non-zero count comes after those of the
    /// non-zero counts before it, and every term is positive.
    pub proof fn lemma_occupied_counts_are_the_nonzero_counts(counts: [u64; 3])
        ensures
            occupied_counts(counts).len() == nonzero_before(counts, 3),
            forall|k: int|
                0 <= k < 3 && counts[k] > 0 ==> occupied_counts(counts)[nonzero_before(counts, k)]
                    == counts[k],
            forall|m: int|
                0 <= m < occupied_counts(counts).len() ==> #[trigger] occupied_counts(counts)[m]
                    > 0,
    {
        reveal_with_fuel(nonzero_before, 4);
        let s = occupied_counts(counts);
        if counts[0] > 0 {
            assert(s[0] == counts[0]);
        }
    }

    /// The shares of the occupied counts make up the whole: the occupied
    /// counts add up to the total, and there is at least one of them when
    /// the total is not zero.
    pub proof fn lemma_shares_make_up_the_total(counts: [u64; 3])
        ensures
            sum_counts(occupied_counts(counts)) == count_total(counts),
            count_total(counts) > 0 ==> occupied_counts(counts).len() > 0,
            forall|k: int|
                0 <= k < occupied_counts(counts).len() ==> occupied_counts(counts)[k] > 0,
    {
        let s = occupied_counts(counts);
        let a: Seq<u64> = if counts[0] > 0 { seq![counts[0]] } else { Seq::empty() };
        let b: Seq<u64> = if counts[1] > 0 { seq![counts[1]] } else { Seq::empty() };
        let c: Seq<u64> = if counts[2] > 0 { seq![counts[2]] } else { Seq::empty() };
        reveal_with_fuel(sum_counts, 4);
        assert(sum_counts(a) == (if counts[0] > 0 { counts[0] as int } else { 0 }));
        assert(sum_counts(a + b) == sum_counts(a) + (if counts[1] > 0 { counts[1] as int } else { 0 })) by {
            if b.len() == 0 {
                assert(a + b =~= a);
            } else {
                assert((a + b).drop_last() =~= a);
            }
        };
        assert(sum_counts(s) == sum_counts(a + b) + (if counts[2] > 0 { counts[2] as int } else { 0 })) by {
            if c.len() == 0 {
                assert(s =~= a + b);
            } else {
                assert(s.drop_last() =~= a + b);
            }
        };
    }
}

} // verus!
