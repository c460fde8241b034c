//! One entry of the high-score list kept outside the simulation.

use vstd::prelude::*;

verus! {

/// A named final score, as the high-score registrar keeps it.
#[derive(PartialEq)]
pub struct Score {
    name: String,
    score: i32,
}

impl Score {
    /// The holder's name.
    pub closed spec fn name_spec(self) -> Seq<char> {
        self.name@
    }

    /// The points scored.
    pub closed spec fn score_spec(self) -> i32 {
        self.score
    }

    /// A new entry from a name and a final score.
    pub fn new(name: String, score: i32) -> (r: Score)
        ensures
            r.name_spec() == name@,
            r.score_spec() == score,
    {
        Score { name, score }
    }

    /// Reads the holder's name.
    pub fn name(&self) -> (r: &String)
        ensures
            r@ == self.name_spec(),
    {
        &self.name
    }

    /// Reads the points scored.
    pub fn score(&self) -> (r: i32)
        ensures
            r == self.score_spec(),
    {
        self.score
    }
}

} // verus!
