//! What a player has done so far.

use vstd::prelude::*;

verus! {

/// The running totals of one player. Time is in microseconds. Every total
/// stops at the greatest value of its type.
#[derive(Clone, Copy, Debug, PartialEq, Eq, Structural)]
pub struct PlayerStats {
    pub time_us: u64,
    pub pieces: u32,
    pub keys: u32,
    pub attack: u32,
    pub finesse: u32,
    pub lines_sent: u32,
}

impl PlayerStats {
    /// The totals of a player who has done nothing yet.
    pub open spec fn zero() -> PlayerStats {
        PlayerStats { time_us: 0, pieces: 0, keys: 0, attack: 0, finesse: 0, lines_sent: 0 }
    }
}

impl Default for PlayerStats {
    fn default() -> (s: PlayerStats)
        ensures
            s == PlayerStats::zero(),
    {
        PlayerStats { time_us: 0, pieces: 0, keys: 0, attack: 0, finesse: 0, lines_sent: 0 }
    }
}

/// A sum of two counts that stops at the greatest `u32`.
pub open spec fn capped(a: int, b: int) -> int {
    if a + b > u32::MAX {
        u32::MAX as int
    } else {
        a + b
    }
}

/// A sum of two times that stops at the greatest `u64`.
pub open spec fn capped_time(a: int, b: int) -> int {
    if a + b > u64::MAX {
        u64::MAX as int
    } else {
        a + b
    }
}

} // verus!
