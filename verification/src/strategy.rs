//! The three strategies of a ternary agent system.
use vstd::prelude::*;

verus! {

/// The three strategies in a ternary agent system.
#[derive(Debug, Clone, Copy, PartialEq, Eq, Structural, Hash)]
pub enum Strategy {
    /// Strategy 0 (analogous to "Rock")
    Rock,
    /// Strategy 1 (analogous to "Paper")
    Paper,
    /// Strategy 2 (analogous to "Scissors")
    Scissors,
}

impl Strategy {
    /// The slot of a strategy in every per-strategy triple of the toolkit
    /// (probabilities, fitnesses, counts): Rock, then Paper, then Scissors.
    pub open spec fn slot(self) -> int {
        match self {
            Strategy::Rock => 0,
            Strategy::Paper => 1,
            Strategy::Scissors => 2,
        }
    }

    /// The slot of this strategy in a per-strategy triple.
    pub fn index(self) -> (i: usize)
        ensures
            i == self.slot(),
            i < 3,
    {
        match self {
            Strategy::Rock => 0,
            Strategy::Paper => 1,
            Strategy::Scissors => 2,
        }
    }

    /// Distinct strategies occupy distinct slots, and every slot of a triple
    /// belongs to some strategy.
    pub proof fn lemma_slots_are_a_bijection(a: Strategy, b: Strategy, i: int)
        ensures
            a.slot() == b.slot() ==> a == b,
            0 <= a.slot() < 3,
            0 <= i < 3 ==> (i == Strategy::Rock.slot() || i == Strategy::Paper.slot()
                || i == Strategy::Scissors.slot()),
    {
    }
}

} // verus!
