use vstd::prelude::*;

verus! {

/// The tier declared for a sequence; each tier has its own bitrate and
/// compression ceilings at every level.
#[derive(Clone, Copy, Debug, PartialEq, Eq, Structural)]
pub enum Tier {
    Main,
    High,
}

impl Default for Tier {
    fn default() -> (r: Tier)
        ensures
            r == Tier::Main,
    {
        Tier::Main
    }
}

/// The coded properties of a sequence that the level ceilings bound.
#[derive(Clone, Copy, Debug)]
pub struct SequenceContext {
    pub tier: Tier,
    /// Picture width and height in samples.
    pub pic_size: (u16, u16),
    pub display_rate: u64,
    pub decode_rate: u64,
    pub header_rate: u16,
    /// The bitrate metric in thousandths of a megabit per second, so that
    /// a rate of 1.5 Mbit/s is 1500.
    pub mbps_milli: u64,
    pub cr: u8,
    /// Tile columns and tile rows.
    pub tiles: (u8, u8),
}

impl SequenceContext {
    /// Picture area in samples.
    pub open spec fn pic_area(self) -> int {
        self.pic_size.0 * self.pic_size.1
    }

    /// Number of tiles in the grid.
    pub open spec fn tile_count(self) -> int {
        self.tiles.0 * self.tiles.1
    }

    /// Every field but the tier is at most the matching field of `other`,
    /// and the tiers agree.
    pub open spec fn dominated_by(self, other: SequenceContext) -> bool {
        &&& self.tier == other.tier
        &&& self.pic_size.0 <= other.pic_size.0
        &&& self.pic_size.1 <= other.pic_size.1
        &&& self.display_rate <= other.display_rate
        &&& self.decode_rate <= other.decode_rate
        &&& self.header_rate <= other.header_rate
        &&& self.mbps_milli <= other.mbps_milli
        &&& self.cr <= other.cr
        &&& self.tiles.0 <= other.tiles.0
        &&& self.tiles.1 <= other.tiles.1
    }

    /// Every field but the tier equals the matching field of `other`.
    pub open spec fn same_but_tier(self, other: SequenceContext) -> bool {
        &&& self.pic_size == other.pic_size
        &&& self.display_rate == other.display_rate
        &&& self.decode_rate == other.decode_rate
        &&& self.header_rate == other.header_rate
        &&& self.mbps_milli == other.mbps_milli
        &&& self.cr == other.cr
        &&& self.tiles == other.tiles
    }
}

} // verus!
