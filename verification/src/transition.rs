//! Phase transitions: the order–disorder changes of a system along a
//! temperature sweep.
use vstd::prelude::*;
use crate::binary64::{abs_bits, abs_spec, is_nan, less, less_than, rank, POSITIVE_ZERO};

verus! {

/// Classification of the transition.
#[derive(Debug, Clone, Copy, PartialEq, Eq, Structural)]
pub enum TransitionType {
    /// Order → Disorder (like melting)
    Melting,
    /// Disorder → Order (like freezing)
    Freezing,
    /// Gradual crossover, no sharp transition
    Crossover,
}

/// The transition at one step of a temperature sweep, given the change
/// `delta` of the order parameter over that step and the detector's
/// `sensitivity` (both by their encodings): a transition happens when
/// `|delta| > sensitivity`; it is a Freezing when the order grew
/// (`delta > 0`) and a Melting otherwise.
pub open spec fn step_transition(delta: u64, sensitivity: u64) -> Option<TransitionType> {
    if less(sensitivity, abs_spec(delta)) {
        if less(POSITIVE_ZERO, delta) {
            Some(TransitionType::Freezing)
        } else {
            Some(TransitionType::Melting)
        }
    } else {
        None
    }
}

/// The transitions of a sweep, by the changes of its order parameter:
/// for each step `k` with a transition, the pair of `k + 1` (the index of the
/// temperature the step arrives at) and the transition's type, in sweep
/// order.
pub open spec fn transition_steps(deltas: Seq<u64>, sensitivity: u64) -> Seq<(usize, TransitionType)>
    decreases deltas.len(),
{
    if deltas.len() == 0 {
        Seq::empty()
    } else {
        let earlier = transition_steps(deltas.drop_last(), sensitivity);
        match step_transition(deltas.last(), sensitivity) {
            Some(t) => earlier.push((deltas.len() as usize, t)),
            None => earlier,
        }
    }
}

/// The encoding of `-x` for the encoding of `x`: the sign bit flipped.
pub open spec fn negated(bits: u64) -> u64 {
    if bits >= 0x8000_0000_0000_0000 {
        (bits - 0x8000_0000_0000_0000) as u64
    } else {
        (bits + 0x8000_0000_0000_0000) as u64
    }
}

impl TransitionType {
    /// The transition, if any, at one step of a sweep whose order parameter
    /// changed by `delta`, for a detector of the given `sensitivity`.
    pub fn classify_change(delta: u64, sensitivity: u64) -> (t: Option<TransitionType>)
        ensures
            t == step_transition(delta, sensitivity),
            t is Some <==> less(sensitivity, abs_spec(delta)),
            t == Some(TransitionType::Freezing) <==> (less(sensitivity, abs_spec(delta)) && less(
                POSITIVE_ZERO,
                delta,
            )),
            t == Some(TransitionType::Melting) <==> (less(sensitivity, abs_spec(delta)) && !less(
                POSITIVE_ZERO,
                delta,
            )),
            t != Some(TransitionType::Crossover),
    {
        if less_than(sensitivity, abs_bits(delta)) {
            if less_than(POSITIVE_ZERO, delta) {
                Some(TransitionType::Freezing)
            } else {
                Some(TransitionType::Melting)
            }
        } else {
            None
        }
    }

    /// Scan a temperature sweep for transitions. `deltas[k]` is the change of
    /// the order parameter from temperature `k` to temperature `k + 1`; a
    /// transition over that step is reported at index `k + 1`, the
    /// temperature it arrives at. The result lists every step with a
    /// transition, in sweep order, with its type.
    pub fn detect_steps(deltas: &Vec<u64>, sensitivity: u64) -> (found: Vec<(usize, TransitionType)>)
        ensures
            found@ == transition_steps(deltas@, sensitivity),
            forall|m: int|
                #![trigger found@[m]]
                0 <= m < found@.len() ==> {
                    &&& 1 <= found@[m].0 <= deltas@.len()
                    &&& less(sensitivity, abs_spec(deltas@[found@[m].0 - 1]))
                    &&& found@[m].1 == if less(POSITIVE_ZERO, deltas@[found@[m].0 - 1]) {
                        TransitionType::Freezing
                    } else {
                        TransitionType::Melting
                    }
                    &&& step_transition(deltas@[found@[m].0 - 1], sensitivity) == Some(
                        found@[m].1,
                    )
                },
            forall|m1: int, m2: int|
                0 <= m1 < m2 < found@.len() ==> found@[m1].0 < found@[m2].0,
            forall|i: int|
                1 <= i <= deltas@.len() && (#[trigger] step_transition(
                    deltas@[i - 1],
                    sensitivity,
                )) is Some ==> exists|m: int| 0 <= m < found@.len() && found@[m].0 == i,
    {
        let mut found: Vec<(usize, TransitionType)> = Vec::new();
        let mut k: usize = 0;
        while k < deltas.len()
            invariant
                k <= deltas@.len(),
                found@ == transition_steps(deltas@.take(k as int), sensitivity),
                forall|m: int|
                    #![trigger found@[m]]
                    0 <= m < found@.len() ==> {
                        &&& 1 <= found@[m].0 <= k
                        &&& step_transition(deltas@[found@[m].0 - 1], sensitivity) == Some(
                            found@[m].1,
                        )
                    },
                forall|m1: int, m2: int|
                    0 <= m1 < m2 < found@.len() ==> found@[m1].0 < found@[m2].0,
                forall|i: int|
                    1 <= i <= k && (#[trigger] step_transition(deltas@[i - 1], sensitivity))
                        is Some ==> exists|m: int| 0 <= m < found@.len() && found@[m].0 == i,
            decreases deltas@.len() - k,
        {
            let step = Self::classify_change(deltas[k], sensitivity);
            let ghost before = found@;
            assert(deltas@.take(k + 1).drop_last() =~= deltas@.take(k as int));
            if let Some(t) = step {
                found.push((k + 1, t));
                proof {
                    assert(found@[before.len() as int].0 == k + 1);
                    assert forall|i: int|
                        1 <= i <= k + 1 && (#[trigger] step_transition(
                            deltas@[i - 1],
                            sensitivity,
                        )) is Some implies exists|m: int|
                        0 <= m < found@.len() && found@[m].0 == i by {
                        if i <= k {
                            let m = choose|m: int| 0 <= m < before.len() && before[m].0 == i;
                            assert(found@[m] == before[m]);
                        } else {
                            assert(found@[before.len() as int].0 == i);
                        }
                    }
                }
            }
            k = k + 1;
        }
        assert(deltas@.take(k as int) =~= deltas@);
        found
    }

    /// What a step of a sweep is, in terms of the change and the sensitivity
    /// alone: a change larger in size than the sensitivity is a transition,
    /// a Freezing when the order parameter grew and a Melting when it fell
    /// (or stayed at a signed zero); a change no larger in size is none. A
    /// single step is never a Crossover.
    pub proof fn lemma_step_is_decided_by_size_and_sign(delta: u64, sensitivity: u64)
        ensures
            less(sensitivity, abs_spec(delta)) && less(POSITIVE_ZERO, delta) ==> step_transition(
                delta,
                sensitivity,
            ) == Some(TransitionType::Freezing),
            less(sensitivity, abs_spec(delta)) && less(delta, POSITIVE_ZERO) ==> step_transition(
                delta,
                sensitivity,
            ) == Some(TransitionType::Melting),
            less(sensitivity, abs_spec(delta)) && rank(delta) == 0 ==> step_transition(
                delta,
                sensitivity,
            ) == Some(TransitionType::Melting),
            !less(sensitivity, abs_spec(delta)) ==> step_transition(delta, sensitivity) is None,
            step_transition(delta, sensitivity) != Some(TransitionType::Crossover),
    {
    }

    /// Reversing a change reverses its transition: for a non-zero change,
    /// the opposite change is a transition exactly when the change is, and
    /// a Freezing one way is a Melting the other way.
    pub proof fn lemma_opposite_changes_have_opposite_transitions(delta: u64, sensitivity: u64)
        requires
            !is_nan(delta),
            rank(delta) != 0,
        ensures
            (step_transition(negated(delta), sensitivity) is Some) == (step_transition(
                delta,
                sensitivity,
            ) is Some),
            step_transition(delta, sensitivity) == Some(TransitionType::Freezing)
                ==> step_transition(negated(delta), sensitivity) == Some(TransitionType::Melting),
            step_transition(delta, sensitivity) == Some(TransitionType::Melting)
                ==> step_transition(negated(delta), sensitivity) == Some(TransitionType::Freezing),
    {
    }

    /// A more sensitive detector finds every transition that a less
    /// sensitive one finds, with the same type.
    pub proof fn lemma_lower_sensitivity_keeps_transitions(delta: u64, low: u64, high: u64)
        requires
            !is_nan(low),
            !is_nan(high),
            rank(low) <= rank(high),
            step_transition(delta, high) is Some,
        ensures
            step_transition(delta, low) == step_transition(delta, high),
    {
    }
}

} // verus!
