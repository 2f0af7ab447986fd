//! Parameters used in search.

use vstd::prelude::*;

verus! {

/// Tunable search parameters.
#[derive(Clone, Copy, PartialEq, Eq, Structural, Debug)]
pub struct Tunable {
    pub best_move_stability_multiplier_0: u64,
    pub best_move_stability_multiplier_1: u64,
    pub best_move_stability_multiplier_2: u64,
    pub best_move_stability_multiplier_3: u64,
    pub best_move_stability_multiplier_4: u64,
    pub best_move_stability_multiplier_5: u64,
    pub best_move_stability_multiplier_6: u64,
    pub best_move_stability_multiplier_7: u64,
    pub hard_time_divisor: u64,
    pub soft_time_divisor: u64,
}

/// The tuned values.
pub open spec fn spec_default_tunables() -> Tunable {
    Tunable {
        best_move_stability_multiplier_0: 176,
        best_move_stability_multiplier_1: 133,
        best_move_stability_multiplier_2: 123,
        best_move_stability_multiplier_3: 110,
        best_move_stability_multiplier_4: 107,
        best_move_stability_multiplier_5: 117,
        best_move_stability_multiplier_6: 86,
        best_move_stability_multiplier_7: 83,
        hard_time_divisor: 6,
        soft_time_divisor: 25,
    }
}

/// The tuned values.
pub fn default_tunables() -> (tunable: Tunable)
    ensures
        tunable == spec_default_tunables(),
{
    Tunable {
        best_move_stability_multiplier_0: 176,
        best_move_stability_multiplier_1: 133,
        best_move_stability_multiplier_2: 123,
        best_move_stability_multiplier_3: 110,
        best_move_stability_multiplier_4: 107,
        best_move_stability_multiplier_5: 117,
        best_move_stability_multiplier_6: 86,
        best_move_stability_multiplier_7: 83,
        hard_time_divisor: 6,
        soft_time_divisor: 25,
    }
}

impl Tunable {
    /// The percentage of the soft time limit to allow when the best move has
    /// stayed the same for `best_move_stability` depths (the last multiplier
    /// from 7 on).
    pub open spec fn spec_stability_multiplier(&self, best_move_stability: u64) -> u64 {
        if best_move_stability == 0 {
            self.best_move_stability_multiplier_0
        } else if best_move_stability == 1 {
            self.best_move_stability_multiplier_1
        } else if best_move_stability == 2 {
            self.best_move_stability_multiplier_2
        } else if best_move_stability == 3 {
            self.best_move_stability_multiplier_3
        } else if best_move_stability == 4 {
            self.best_move_stability_multiplier_4
        } else if best_move_stability == 5 {
            self.best_move_stability_multiplier_5
        } else if best_move_stability == 6 {
            self.best_move_stability_multiplier_6
        } else {
            self.best_move_stability_multiplier_7
        }
    }

    /// See `spec_stability_multiplier`.
    pub fn stability_multiplier(&self, best_move_stability: u64) -> (multiplier: u64)
        ensures
            multiplier == self.spec_stability_multiplier(best_move_stability),
    {
        match best_move_stability {
            0 => self.best_move_stability_multiplier_0,
            1 => self.best_move_stability_multiplier_1,
            2 => self.best_move_stability_multiplier_2,
            3 => self.best_move_stability_multiplier_3,
            4 => self.best_move_stability_multiplier_4,
            5 => self.best_move_stability_multiplier_5,
            6 => self.best_move_stability_multiplier_6,
            _ => self.best_move_stability_multiplier_7,
        }
    }
}

} // verus!
