use vstd::prelude::*;

use crate::context::{SequenceContext, Tier};

verus! {

/// The resource ceilings of one defined level. Every ceiling is inclusive:
/// only a value strictly above it disqualifies a sequence.
#[derive(Clone, Copy, Debug)]
pub struct LevelLimits {
    pub max_pic_size: u32,
    pub max_h_size: u16,
    pub max_v_size: u16,
    pub max_display_rate: u64,
    pub max_decode_rate: u64,
    pub max_header_rate: u16,
    /// Main-tier bitrate ceiling, in thousandths of a megabit per second.
    pub main_mbps_milli: u64,
    /// High-tier bitrate ceiling, in thousandths of a megabit per second.
    pub high_mbps_milli: u64,
    pub main_cr: u8,
    pub high_cr: u8,
    pub max_tiles: u8,
    pub max_tile_cols: u8,
}

/// The ceilings record with the given fields, in declaration order.
pub open spec fn ceilings(
    max_pic_size: u32,
    max_h_size: u16,
    max_v_size: u16,
    max_display_rate: u64,
    max_decode_rate: u64,
    max_header_rate: u16,
    main_mbps_milli: u64,
    high_mbps_milli: u64,
    main_cr: u8,
    high_cr: u8,
    max_tiles: u8,
    max_tile_cols: u8,
) -> LevelLimits {
    LevelLimits {
        max_pic_size,
        max_h_size,
        max_v_size,
        max_display_rate,
        max_decode_rate,
        max_header_rate,
        main_mbps_milli,
        high_mbps_milli,
        main_cr,
        high_cr,
        max_tiles,
        max_tile_cols,
    }
}

/// The level table: the ceilings of the level at `index`, or `None` where
/// the slot is reserved. Slot 31 holds the largest value of every field and
/// stands for an unconstrained sequence.
pub open spec fn level_table(index: int) -> Option<LevelLimits> {
    if index == 0 {
        Some(ceilings(147456, 2048, 1152, 4423680, 5529600, 150, 1500, 0, 2, 0, 8, 4))
    } else if index == 1 {
        Some(ceilings(278784, 2816, 1584, 8363520, 10454400, 150, 3000, 0, 2, 0, 8, 4))
    } else if index == 4 {
        Some(ceilings(665856, 4352, 2448, 19975680, 24969600, 150, 6000, 0, 2, 0, 16, 6))
    } else if index == 5 {
        Some(ceilings(1065024, 5504, 3096, 31950720, 39938400, 150, 10000, 0, 2, 0, 8, 4))
    } else if index == 8 {
        Some(ceilings(2359296, 6144, 3456, 70778880, 77856768, 300, 12000, 30000, 4, 4, 32, 8))
    } else if index == 9 {
        Some(ceilings(2359296, 6144, 3456, 141557760, 155713536, 300, 20000, 50000, 4, 4, 32, 8))
    } else if index == 12 {
        Some(ceilings(8912896, 8192, 4352, 267386880, 273715200, 300, 30000, 100000, 6, 4, 64, 8))
    } else if index == 13 {
        Some(ceilings(8912896, 8192, 4352, 534773760, 547430400, 300, 40000, 160000, 8, 4, 64, 8))
    } else if index == 14 {
        Some(ceilings(8912896, 8192, 4352, 1069547520, 1094860800, 300, 60000, 240000, 8, 4, 64, 8))
    } else if index == 15 {
        Some(ceilings(8912896, 8192, 4352, 1069547520, 1176502272, 300, 60000, 240000, 8, 4, 64, 8))
    } else if index == 16 {
        Some(ceilings(35651584, 16384, 8704, 1069547520, 1176502272, 300, 60000, 240000, 8, 4, 128, 16))
    } else if index == 17 {
        Some(ceilings(35651584, 16384, 8704, 2139095040, 2189721600, 300, 100000, 480000, 8, 4, 128, 16))
    } else if index == 18 {
        Some(ceilings(35651584, 16384, 8704, 4278190080, 4379443200, 300, 160000, 800000, 8, 4, 128, 16))
    } else if index == 19 {
        Some(ceilings(35651584, 16384, 8704, 4278190080, 4706009088, 300, 160000, 800000, 8, 4, 128, 16))
    } else if index == 31 {
        Some(ceilings(u32::MAX, u16::MAX, u16::MAX, u64::MAX, u64::MAX, u16::MAX, u64::MAX, u64::MAX, u8::MAX, u8::MAX, u8::MAX, u8::MAX))
    } else {
        None
    }
}

/// A slot with no ceilings record: 2, 3, 6, 7, 10, 11 and 20 through 30.
pub open spec fn is_reserved(index: int) -> bool {
    ||| index == 2 || index == 3
    ||| index == 6 || index == 7
    ||| index == 10 || index == 11
    ||| 20 <= index <= 30
}

impl LevelLimits {
    /// The bitrate ceiling of the given tier.
    pub open spec fn mbps_ceiling(self, tier: Tier) -> u64 {
        match tier {
            Tier::Main => self.main_mbps_milli,
            Tier::High => self.high_mbps_milli,
        }
    }

    /// The compression ceiling of the given tier.
    pub open spec fn cr_ceiling(self, tier: Tier) -> u8 {
        match tier {
            Tier::Main => self.main_cr,
            Tier::High => self.high_cr,
        }
    }

    /// The sequence's bitrate metric or compression bound is above the
    /// ceilings of its own tier.
    pub open spec fn tier_exceeded_by(self, c: SequenceContext) -> bool {
        self.mbps_ceiling(c.tier) < c.mbps_milli || self.cr_ceiling(c.tier) < c.cr
    }

    /// Some value of the sequence is above the matching ceiling.
    pub open spec fn exceeded_by(self, c: SequenceContext) -> bool {
        ||| self.max_pic_size < c.pic_area()
        ||| self.max_h_size < c.pic_size.0
        ||| self.max_v_size < c.pic_size.1
        ||| self.max_display_rate < c.display_rate
        ||| self.max_decode_rate < c.decode_rate
        ||| self.max_header_rate < c.header_rate
        ||| self.tier_exceeded_by(c)
        ||| self.max_tiles < c.tile_count()
        ||| self.max_tile_cols < c.tiles.0
    }

    fn new(
        max_pic_size: u32,
        max_h_size: u16,
        max_v_size: u16,
        max_display_rate: u64,
        max_decode_rate: u64,
        max_header_rate: u16,
        main_mbps_milli: u64,
        high_mbps_milli: u64,
        main_cr: u8,
        high_cr: u8,
        max_tiles: u8,
        max_tile_cols: u8,
    ) -> (r: LevelLimits)
        ensures
            r == ceilings(
                max_pic_size,
                max_h_size,
                max_v_size,
                max_display_rate,
                max_decode_rate,
                max_header_rate,
                main_mbps_milli,
                high_mbps_milli,
                main_cr,
                high_cr,
                max_tiles,
                max_tile_cols,
            ),
    {
        LevelLimits {
            max_pic_size,
            max_h_size,
            max_v_size,
            max_display_rate,
            max_decode_rate,
            max_header_rate,
            main_mbps_milli,
            high_mbps_milli,
            main_cr,
            high_cr,
            max_tiles,
            max_tile_cols,
        }
    }

    /// Tells whether some value of `c` is above the matching ceiling.
    pub fn is_exceeded_by(&self, c: &SequenceContext) -> (r: bool)
        ensures
            r == self.exceeded_by(*c),
    {
        let (width, height) = c.pic_size;
        let (cols, rows) = c.tiles;
        assert(width as int * height as int <= 65535 * 65535) by (nonlinear_arith)
            requires
                width <= 65535,
                height <= 65535,
        ;
        assert(cols as int * rows as int <= 255 * 255) by (nonlinear_arith)
            requires
                cols <= 255,
                rows <= 255,
        ;
        let area: u32 = width as u32 * height as u32;
        let tile_count: u16 = cols as u16 * rows as u16;
        let (mbps_ceiling, cr_ceiling) = match c.tier {
            Tier::Main => (self.main_mbps_milli, self.main_cr),
            Tier::High => (self.high_mbps_milli, self.high_cr),
        };
        self.max_pic_size < area
            || self.max_h_size < width
            || self.max_v_size < height
            || self.max_display_rate < c.display_rate
            || self.max_decode_rate < c.decode_rate
            || self.max_header_rate < c.header_rate
            || mbps_ceiling < c.mbps_milli
            || cr_ceiling < c.cr
            || (self.max_tiles as u16) < tile_count
            || self.max_tile_cols < cols
    }
}

/// The ceilings of the level at `index`, `None` for a reserved slot.
pub fn level_limits(index: u8) -> (r: Option<LevelLimits>)
    requires
        index < 32,
    ensures
        r == level_table(index as int),
{
    match index {
        0 => Some(LevelLimits::new(147456, 2048, 1152, 4423680, 5529600, 150, 1500, 0, 2, 0, 8, 4)),
        1 => Some(LevelLimits::new(278784, 2816, 1584, 8363520, 10454400, 150, 3000, 0, 2, 0, 8, 4)),
        4 => Some(LevelLimits::new(665856, 4352, 2448, 19975680, 24969600, 150, 6000, 0, 2, 0, 16, 6)),
        5 => Some(LevelLimits::new(1065024, 5504, 3096, 31950720, 39938400, 150, 10000, 0, 2, 0, 8, 4)),
        8 => Some(LevelLimits::new(2359296, 6144, 3456, 70778880, 77856768, 300, 12000, 30000, 4, 4, 32, 8)),
        9 => Some(LevelLimits::new(2359296, 6144, 3456, 141557760, 155713536, 300, 20000, 50000, 4, 4, 32, 8)),
        12 => Some(LevelLimits::new(8912896, 8192, 4352, 267386880, 273715200, 300, 30000, 100000, 6, 4, 64, 8)),
        13 => Some(LevelLimits::new(8912896, 8192, 4352, 534773760, 547430400, 300, 40000, 160000, 8, 4, 64, 8)),
        14 => Some(LevelLimits::new(8912896, 8192, 4352, 1069547520, 1094860800, 300, 60000, 240000, 8, 4, 64, 8)),
        15 => Some(LevelLimits::new(8912896, 8192, 4352, 1069547520, 1176502272, 300, 60000, 240000, 8, 4, 64, 8)),
        16 => Some(LevelLimits::new(35651584, 16384, 8704, 1069547520, 1176502272, 300, 60000, 240000, 8, 4, 128, 16)),
        17 => Some(LevelLimits::new(35651584, 16384, 8704, 2139095040, 2189721600, 300, 100000, 480000, 8, 4, 128, 16)),
        18 => Some(LevelLimits::new(35651584, 16384, 8704, 4278190080, 4379443200, 300, 160000, 800000, 8, 4, 128, 16)),
        19 => Some(LevelLimits::new(35651584, 16384, 8704, 4278190080, 4706009088, 300, 160000, 800000, 8, 4, 128, 16)),
        31 => Some(LevelLimits::new(u32::MAX, u16::MAX, u16::MAX, u64::MAX, u64::MAX, u16::MAX, u64::MAX, u64::MAX, u8::MAX, u8::MAX, u8::MAX, u8::MAX)),
        _ => None,
    }
}

} // verus!
