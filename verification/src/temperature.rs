//! The temperature of an agent system: its thermal classification, and the
//! choice of the two strategies from which a temperature is fitted.
use vstd::prelude::*;
use crate::binary64::{less, less_than, is_nan, rank};

verus! {

/// Thermal state classification.
#[derive(Debug, Clone, Copy, PartialEq, Eq, Structural)]
pub enum ThermalState {
    /// T ≈ 0 — fully ordered
    Frozen,
    /// Low temperature — mostly ordered
    Cold,
    /// Moderate temperature — mixed
    Warm,
    /// High temperature — nearly random
    Hot,
}

impl ThermalState {
    /// How warm a state is: Frozen, Cold, Warm and Hot in increasing order.
    pub open spec fn warmth(self) -> int {
        match self {
            ThermalState::Frozen => 0,
            ThermalState::Cold => 1,
            ThermalState::Warm => 2,
            ThermalState::Hot => 3,
        }
    }
}

/// "Temperature" of the agent system.
///
/// High temperature spreads the agents uniformly over the strategies; low
/// temperature concentrates them on the fittest one.
pub struct SystemTemperature;

/// Encoding of the normalized temperature below which a system is Frozen
/// (the binary64 value nearest to one tenth).
pub const FROZEN_BELOW: u64 = 0x3FB9_9999_9999_999A;

/// Encoding of the normalized temperature below which a system is Cold
/// (one half).
pub const COLD_BELOW: u64 = 0x3FE0_0000_0000_0000;

/// Encoding of the normalized temperature below which a system is Warm
/// (the binary64 value nearest to nine tenths).
pub const WARM_BELOW: u64 = 0x3FEC_CCCC_CCCC_CCCD;

/// Encoding of the smallest probability that a temperature fit takes into
/// account: a probability counts only when it is above this value (the
/// binary64 value nearest to ten to the minus fifteenth).
pub const SIGNIFICANCE_FLOOR: u64 = 0x3CD2_03AF_9EE7_5616;

/// Whether a probability (by its encoding) takes part in a temperature fit.
pub open spec fn is_significant(p: u64) -> bool {
    less(SIGNIFICANCE_FLOOR, p)
}

/// How many of the three probabilities take part in a temperature fit.
pub open spec fn significant_count(probs: [u64; 3]) -> int {
    (if is_significant(probs[0]) { 1int } else { 0int }) + (if is_significant(probs[1]) {
        1int
    } else {
        0int
    }) + (if is_significant(probs[2]) { 1int } else { 0int })
}

/// `i` and `j` are the two ends of the significant strategies ranked by
/// probability, most probable first, ties kept in strategy order: `i` is the
/// first of the most probable ones and `j` the last of the least probable.
pub open spec fn is_fit_pair(probs: [u64; 3], i: int, j: int) -> bool {
    &&& 0 <= i < 3
    &&& 0 <= j < 3
    &&& i != j
    &&& is_significant(probs[i])
    &&& is_significant(probs[j])
    &&& forall|k: int|
        #![trigger probs[k]]
        0 <= k < 3 && is_significant(probs[k]) ==> {
            &&& !less(probs[i], probs[k])
            &&& (k < i ==> less(probs[k], probs[i]))
            &&& !less(probs[k], probs[j])
            &&& (j < k ==> less(probs[j], probs[k]))
        }
}

/// The thermal state of a normalized temperature (by its encoding), as
/// bands: Frozen below one tenth, Cold from one tenth to below one half, Warm
/// from one half to below nine tenths, Hot from nine tenths on. A NaN
/// compares below nothing and is Hot.
pub open spec fn thermal_band(temperature: u64) -> ThermalState {
    if less(temperature, FROZEN_BELOW) {
        ThermalState::Frozen
    } else if less(temperature, COLD_BELOW) {
        ThermalState::Cold
    } else if less(temperature, WARM_BELOW) {
        ThermalState::Warm
    } else {
        ThermalState::Hot
    }
}

/// Whether probability `k` of a triple (by its encoding) is above the
/// significance floor, as 1 or 0.
pub open spec fn above_floor(probs: [u64; 3], k: int) -> int {
    if less(SIGNIFICANCE_FLOOR, probs[k]) {
        1
    } else {
        0
    }
}

impl SystemTemperature {
    /// Classify a normalized temperature (by its encoding): Frozen below one
    /// tenth, Cold below one half, Warm below nine tenths, Hot otherwise.
    pub fn classify(temperature: u64) -> (state: ThermalState)
        ensures
            state == thermal_band(temperature),
    {
        if less_than(temperature, FROZEN_BELOW) {
            ThermalState::Frozen
        } else if less_than(temperature, COLD_BELOW) {
            ThermalState::Cold
        } else if less_than(temperature, WARM_BELOW) {
            ThermalState::Warm
        } else {
            ThermalState::Hot
        }
    }

    /// The two strategies (by slot) from which a temperature is fitted to a
    /// distribution: the most and the least probable of the strategies whose
    /// probability is significant, or `None` when fewer than two are.
    pub fn boltzmann_fit_pair(probs: [u64; 3]) -> (pair: Option<(usize, usize)>)
        ensures
            pair is None <==> significant_count(probs) < 2,
            pair matches Some((i, j)) ==> is_fit_pair(probs, i as int, j as int),
            pair is None <==> (above_floor(probs, 0) + above_floor(probs, 1) + above_floor(
                probs,
                2,
            ) < 2),
            pair matches Some((i, j)) ==> {
                &&& less(SIGNIFICANCE_FLOOR, probs[i as int])
                &&& less(SIGNIFICANCE_FLOOR, probs[j as int])
                &&& forall|k: int|
                    #![trigger probs[k]]
                    0 <= k < 3 && less(SIGNIFICANCE_FLOOR, probs[k]) ==> {
                        &&& !less(probs[i as int], probs[k])
                        &&& !less(probs[k], probs[j as int])
                    }
            },
    {
        let mut count: usize = 0;
        let mut i: usize = 0;
        let mut j: usize = 0;
        let mut k: usize = 0;
        while k < 3
            invariant
                k <= 3,
                count <= k,
                count == (if k > 0 && is_significant(probs[0]) { 1int } else { 0int }) + (if k
                    > 1 && is_significant(probs[1]) {
                    1int
                } else {
                    0int
                }) + (if k > 2 && is_significant(probs[2]) { 1int } else { 0int }),
                count > 0 ==> {
                    &&& i < k
                    &&& j < k
                    &&& is_significant(probs[i as int])
                    &&& is_significant(probs[j as int])
                },
                count > 1 ==> i != j,
                forall|m: int|
                    #![trigger probs[m]]
                    0 <= m < k && is_significant(probs[m]) ==> {
                        &&& !less(probs[i as int], probs[m])
                        &&& (m < i ==> less(probs[m], probs[i as int]))
                        &&& !less(probs[m], probs[j as int])
                        &&& (j < m ==> less(probs[j as int], probs[m]))
                    },
            decreases 3 - k,
        {
            let p = probs[k];
            if less_than(SIGNIFICANCE_FLOOR, p) {
                if count == 0 {
                    i = k;
                    j = k;
                } else {
                    if less_than(probs[i], p) {
                        i = k;
                    }
                    if !less_than(probs[j], p) {
                        j = k;
                    }
                }
                count = count + 1;
            }
            k = k + 1;
        }
        if count < 2 {
            None
        } else {
            Some((i, j))
        }
    }

    /// A probability takes part in a temperature fit exactly when it is
    /// above the significance floor (ten to the minus fifteenth); whenever
    /// two of the three probabilities are above it, a fit pair exists, and
    /// it is made of two of them, the more probable first.
    pub proof fn lemma_fit_uses_every_probability_above_the_floor(probs: [u64; 3], i: int, j: int)
        ensures
            forall|p: u64| #[trigger] is_significant(p) <==> less(SIGNIFICANCE_FLOOR, p),
            significant_count(probs) >= 2 <==> (exists|a: int, b: int|
                0 <= a < b < 3 && less(SIGNIFICANCE_FLOOR, probs[a]) && less(
                    SIGNIFICANCE_FLOOR,
                    probs[b],
                )),
            is_fit_pair(probs, i, j) ==> {
                &&& less(SIGNIFICANCE_FLOOR, probs[i])
                &&& less(SIGNIFICANCE_FLOOR, probs[j])
                &&& !less(probs[i], probs[j])
            },
    {
        if significant_count(probs) >= 2 {
            if is_significant(probs[0]) && is_significant(probs[1]) {
                assert(less(SIGNIFICANCE_FLOOR, probs[0]) && less(SIGNIFICANCE_FLOOR, probs[1]));
            } else if is_significant(probs[0]) {
                assert(less(SIGNIFICANCE_FLOOR, probs[0]) && less(SIGNIFICANCE_FLOOR, probs[2]));
            } else {
                assert(less(SIGNIFICANCE_FLOOR, probs[1]) && less(SIGNIFICANCE_FLOOR, probs[2]));
            }
        }
        if is_fit_pair(probs, i, j) {
            assert(!less(probs[i], probs[j]));
        }
    }

    /// A warmer normalized temperature is never classified as a colder
    /// state: the thermal classification is monotone in temperature.
    pub proof fn lemma_classification_is_monotone(t1: u64, t2: u64)
        requires
            !is_nan(t1),
            !is_nan(t2),
            rank(t1) <= rank(t2),
        ensures
            thermal_band(t1).warmth() <= thermal_band(t2).warmth(),
    {
    }
}

} // verus!
