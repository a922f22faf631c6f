//! The table of tunable synthesis parameters.
use vstd::prelude::*;

verus! {

/// Number of excitation sources: white noise followed by nine coherent noise fields.
pub const SOURCE_COUNT: usize = 10;

/// Number of parameters reachable through the indexed table.
pub const PARAMETER_COUNT: i32 = 13;

/// Index of the attack duration in the parameter table.
pub const ATTACK_INDEX: i32 = 10;

/// Index of the release duration in the parameter table.
pub const RELEASE_INDEX: i32 = 11;

/// Index of the damping factor in the parameter table.
pub const DAMPING_INDEX: i32 = 12;

/// Parameter values are held in thousandths: this value stands for 1.0.
pub const PARAM_ONE: u32 = 1000;

/// Smallest attack or release duration, in milliseconds.
pub const MIN_DURATION_MS: u32 = 1;

/// Synthesis parameters in thousandths: mix levels per source, attack and
/// release durations in milliseconds, and the resonator's damping factor.
pub struct KarplusParameters {
    /// Mix level of each excitation source; zero disables the source.
    pub levels: [u32; SOURCE_COUNT],
    /// Attack duration in milliseconds.
    pub attack_ms: u32,
    /// Release duration in milliseconds.
    pub release_ms: u32,
    /// Feedback factor of the resonator, in thousandths.
    pub damping: u32,
}

/// The value that the table shows at `index`; zero outside the table.
pub open spec fn parameter_value(p: KarplusParameters, index: int) -> u32 {
    if 0 <= index < SOURCE_COUNT {
        p.levels@[index]
    } else if index == ATTACK_INDEX {
        p.attack_ms
    } else if index == RELEASE_INDEX {
        p.release_ms
    } else if index == DAMPING_INDEX {
        p.damping
    } else {
        0
    }
}

/// The value that storing `value` at `index` keeps: durations are floored at
/// one millisecond, everything else is kept as given.
pub open spec fn stored_value(index: int, value: u32) -> u32 {
    if (index == ATTACK_INDEX || index == RELEASE_INDEX) && value < MIN_DURATION_MS {
        MIN_DURATION_MS
    } else {
        value
    }
}

/// The display name of the parameter at `index`; empty outside the table.
pub open spec fn parameter_name(index: int) -> Seq<char> {
    if index == 0 {
        "White"@
    } else if index == 1 {
        "Perlin"@
    } else if index == 2 {
        "Value"@
    } else if index == 3 {
        "Worley"@
    } else if index == 4 {
        "RidgedMulti"@
    } else if index == 5 {
        "OpenSimplex"@
    } else if index == 6 {
        "Billow"@
    } else if index == 7 {
        "Cylinders"@
    } else if index == 8 {
        "HybridMulti"@
    } else if index == 9 {
        "BasicMulti"@
    } else if index == 10 {
        "Attack"@
    } else if index == 11 {
        "Release"@
    } else if index == 12 {
        "Damping"@
    } else {
        ""@
    }
}

impl KarplusParameters {
    /// The value at `index`, or zero where the index is outside the table.
    pub fn get_parameter(&self, index: i32) -> (r: u32)
        ensures
            r == parameter_value(*self, index as int),
    {
        if 0 <= index && index < SOURCE_COUNT as i32 {
            self.levels[index as usize]
        } else if index == ATTACK_INDEX {
            self.attack_ms
        } else if index == RELEASE_INDEX {
            self.release_ms
        } else if index == DAMPING_INDEX {
            self.damping
        } else {
            0
        }
    }

    /// Stores `value` at `index`; durations are floored at one millisecond.
    /// An index outside the table changes nothing.
    pub fn set_parameter(&mut self, index: i32, value: u32)
        ensures
            forall|j: int|
                #[trigger] parameter_value(*final(self), j) == if j == index && 0 <= index
                    < PARAMETER_COUNT {
                    stored_value(index as int, value)
                } else {
                    parameter_value(*old(self), j)
                },
    {
        let kept = if (index == ATTACK_INDEX || index == RELEASE_INDEX) && value < MIN_DURATION_MS {
            MIN_DURATION_MS
        } else {
            value
        };
        if 0 <= index && index < SOURCE_COUNT as i32 {
            self.levels[index as usize] = kept;
        } else if index == ATTACK_INDEX {
            self.attack_ms = kept;
        } else if index == RELEASE_INDEX {
            self.release_ms = kept;
        } else if index == DAMPING_INDEX {
            self.damping = kept;
        }
    }

    /// The display name of the parameter at `index`; empty outside the table.
    pub fn get_parameter_name(&self, index: i32) -> (r: String)
        ensures
            r@ == parameter_name(index as int),
    {
        broadcast use vstd::string::to_string_from_display_ensures_for_str;

        let name: &str = if index == 0 {
            "White"
        } else if index == 1 {
            "Perlin"
        } else if index == 2 {
            "Value"
        } else if index == 3 {
            "Worley"
        } else if index == 4 {
            "RidgedMulti"
        } else if index == 5 {
            "OpenSimplex"
        } else if index == 6 {
            "Billow"
        } else if index == 7 {
            "Cylinders"
        } else if index == 8 {
            "HybridMulti"
        } else if index == 9 {
            "BasicMulti"
        } else if index == 10 {
            "Attack"
        } else if index == 11 {
            "Release"
        } else if index == 12 {
            "Damping"
        } else {
            ""
        };
        name.to_string()
    }
}

impl Default for KarplusParameters {
    /// White noise at full level, every other source off, half-second attack
    /// and release, and a damping factor of 0.996.
    fn default() -> (r: KarplusParameters)
        ensures
            r.levels@ == seq![PARAM_ONE, 0u32, 0u32, 0u32, 0u32, 0u32, 0u32, 0u32, 0u32, 0u32],
            r.attack_ms == 500,
            r.release_ms == 500,
            r.damping == 996,
    {
        KarplusParameters {
            levels: [PARAM_ONE, 0, 0, 0, 0, 0, 0, 0, 0, 0],
            attack_ms: 500,
            release_ms: 500,
            damping: 996,
        }
    }
}

} // verus!
