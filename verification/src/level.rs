use vstd::prelude::*;

verus! {

/// Difficulty tier of a problem, derived from the numeric rank that the
/// problem source reports.
#[derive(Debug)]
pub enum Level {
    Unrated,
    Bronze(u8),
    Silver(u8),
    Gold(u8),
    Platinum(u8),
    Diamond(u8),
    Ruby(u8),
}

impl Level {
    /// The tier a numeric rank denotes: rank 0 is unrated, then each band of
    /// five ranks maps to one tier with sub-level 1 to 5; ranks past the last
    /// band fall back to unrated.
    pub open spec fn spec_from_rank(rank: usize) -> Level {
        if rank == 0 {
            Level::Unrated
        } else if rank <= 5 {
            Level::Bronze(rank as u8)
        } else if rank <= 10 {
            Level::Silver((rank - 5) as u8)
        } else if rank <= 15 {
            Level::Gold((rank - 10) as u8)
        } else if rank <= 20 {
            Level::Platinum((rank - 15) as u8)
        } else if rank <= 25 {
            Level::Diamond((rank - 20) as u8)
        } else if rank <= 30 {
            Level::Ruby((rank - 25) as u8)
        } else {
            Level::Unrated
        }
    }

    pub fn from_rank(rank: usize) -> (level: Level)
        ensures
            level == Level::spec_from_rank(rank),
    {
        if rank == 0 {
            Level::Unrated
        } else if rank <= 5 {
            Level::Bronze(rank as u8)
        } else if rank <= 10 {
            Level::Silver((rank - 5) as u8)
        } else if rank <= 15 {
            Level::Gold((rank - 10) as u8)
        } else if rank <= 20 {
            Level::Platinum((rank - 15) as u8)
        } else if rank <= 25 {
            Level::Diamond((rank - 20) as u8)
        } else if rank <= 30 {
            Level::Ruby((rank - 25) as u8)
        } else {
            Level::Unrated
        }
    }
}

} // verus!
