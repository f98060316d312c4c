use av1_level::{calculate_level, level_at, level_limits, SequenceContext, Tier};

fn small_context(tier: Tier) -> SequenceContext {
    SequenceContext {
        tier,
        pic_size: (0, 0),
        display_rate: 0,
        decode_rate: 0,
        header_rate: 0,
        mbps_milli: 0,
        cr: 0,
        tiles: (0, 0),
    }
}

fn full_hd_context() -> SequenceContext {
    SequenceContext {
        tier: Tier::Main,
        pic_size: (1920, 1080),
        display_rate: 4000000,
        decode_rate: 4500000,
        header_rate: 100,
        mbps_milli: 5000,
        cr: 2,
        tiles: (4, 2),
    }
}

fn label_of(index: u8) -> String {
    level_at(index).unwrap().label()
}

#[test]
fn full_hd_main_tier_is_level_four_zero() {
    let level = calculate_level(&full_hd_context());
    assert_eq!(level.0, 8);
    assert_eq!(level.label(), "4.0");
    assert!(level.is_valid());
}

#[test]
fn largest_values_fall_back_to_maximum_parameters() {
    let context = SequenceContext {
        tier: Tier::Main,
        pic_size: (65535, 65535),
        display_rate: u64::MAX,
        decode_rate: u64::MAX,
        header_rate: 65535,
        mbps_milli: u64::MAX,
        cr: 255,
        tiles: (255, 255),
    };
    let level = calculate_level(&context);
    assert_eq!(level.0, 31);
    assert_eq!(level.label(), "Maximum parameters");
    assert!(level.is_valid());
}

#[test]
fn largest_values_in_high_tier_fall_back_to_maximum_parameters() {
    let mut context = small_context(Tier::High);
    context.pic_size = (65535, 65535);
    context.mbps_milli = u64::MAX;
    let level = calculate_level(&context);
    assert_eq!(level.0, 31);
}

#[test]
fn zero_context_is_lowest_level() {
    let level = calculate_level(&small_context(Tier::Main));
    assert_eq!(level.0, 0);
    assert_eq!(level.label(), "2.0");
}

#[test]
fn zero_context_in_high_tier_is_lowest_level() {
    let level = calculate_level(&small_context(Tier::High));
    assert_eq!(level.0, 0);
}

#[test]
fn labels_follow_major_minor_grouping() {
    assert_eq!(label_of(0), "2.0");
    assert_eq!(label_of(1), "2.1");
    assert_eq!(label_of(5), "3.1");
    assert_eq!(label_of(8), "4.0");
    assert_eq!(label_of(19), "6.3");
    assert_eq!(label_of(23), "7.3");
}

#[test]
fn labels_of_upper_slots() {
    assert_eq!(label_of(24), "Reserved");
    assert_eq!(label_of(30), "Reserved");
    assert_eq!(label_of(31), "Maximum parameters");
}

#[test]
fn level_at_past_last_slot_is_none() {
    assert!(level_at(31).is_some());
    assert!(level_at(32).is_none());
    assert!(level_at(255).is_none());
    assert_eq!(level_at(17).unwrap().0, 17);
}

#[test]
fn reserved_slots_are_not_valid() {
    for index in [2u8, 3, 6, 7, 10, 11, 20, 23, 24, 30] {
        assert!(!level_at(index).unwrap().is_valid(), "slot {}", index);
        assert!(level_limits(index).is_none(), "slot {}", index);
    }
    for index in [0u8, 1, 4, 5, 8, 9, 12, 13, 14, 15, 16, 17, 18, 19, 31] {
        assert!(level_at(index).unwrap().is_valid(), "slot {}", index);
        assert!(level_limits(index).is_some(), "slot {}", index);
    }
}

#[test]
fn table_holds_published_values() {
    let first = level_limits(0).unwrap();
    assert_eq!(first.max_pic_size, 147456);
    assert_eq!(first.max_h_size, 2048);
    assert_eq!(first.max_v_size, 1152);
    assert_eq!(first.max_display_rate, 4423680);
    assert_eq!(first.max_decode_rate, 5529600);
    assert_eq!(first.max_header_rate, 150);
    assert_eq!(first.main_mbps_milli, 1500);
    assert_eq!(first.high_mbps_milli, 0);
    assert_eq!(first.main_cr, 2);
    assert_eq!(first.high_cr, 0);
    assert_eq!(first.max_tiles, 8);
    assert_eq!(first.max_tile_cols, 4);
    let top = level_limits(19).unwrap();
    assert_eq!(top.max_decode_rate, 4706009088);
    assert_eq!(top.high_mbps_milli, 800000);
    let sentinel = level_limits(31).unwrap();
    assert_eq!(sentinel.max_pic_size, u32::MAX);
    assert_eq!(sentinel.max_display_rate, u64::MAX);
    assert_eq!(sentinel.main_mbps_milli, u64::MAX);
    assert_eq!(sentinel.max_tile_cols, u8::MAX);
}

#[test]
fn values_exactly_at_ceilings_stay_at_that_level() {
    let context = SequenceContext {
        tier: Tier::Main,
        pic_size: (6144, 384),
        display_rate: 70778880,
        decode_rate: 77856768,
        header_rate: 300,
        mbps_milli: 12000,
        cr: 4,
        tiles: (8, 4),
    };
    assert_eq!(calculate_level(&context).0, 8);
}

#[test]
fn one_above_a_ceiling_moves_up() {
    let mut context = small_context(Tier::Main);
    context.pic_size = (2048, 72);
    assert_eq!(calculate_level(&context).0, 0);
    context.pic_size = (2049, 72);
    assert_eq!(calculate_level(&context).0, 1);
}

#[test]
fn lower_level_limits_of_every_kind() {
    let base = small_context(Tier::Main);
    let mut c = base;
    c.display_rate = 4423681;
    assert_eq!(calculate_level(&c).0, 1);
    let mut c = base;
    c.decode_rate = 10454401;
    assert_eq!(calculate_level(&c).0, 4);
    let mut c = base;
    c.header_rate = 151;
    assert_eq!(calculate_level(&c).0, 8);
    let mut c = base;
    c.mbps_milli = 1501;
    assert_eq!(calculate_level(&c).0, 1);
    let mut c = base;
    c.cr = 3;
    assert_eq!(calculate_level(&c).0, 8);
    let mut c = base;
    c.pic_size = (1, 1153);
    assert_eq!(calculate_level(&c).0, 1);
}

#[test]
fn tile_grid_limits() {
    let mut c = small_context(Tier::Main);
    c.tiles = (4, 2);
    assert_eq!(calculate_level(&c).0, 0);
    c.tiles = (5, 1);
    assert_eq!(calculate_level(&c).0, 4);
    c.tiles = (4, 3);
    assert_eq!(calculate_level(&c).0, 4);
    c.tiles = (4, 5);
    assert_eq!(calculate_level(&c).0, 8);
    c.tiles = (16, 8);
    assert_eq!(calculate_level(&c).0, 16);
    c.tiles = (17, 1);
    assert_eq!(calculate_level(&c).0, 31);
}

#[test]
fn reserved_slot_is_skipped() {
    let mut c = small_context(Tier::Main);
    c.pic_size = (640, 480);
    let level = calculate_level(&c);
    assert_eq!(level.0, 4);
    assert!(level.is_valid());
}

#[test]
fn high_tier_uses_its_own_ceilings() {
    let mut c = small_context(Tier::High);
    c.mbps_milli = 1;
    assert_eq!(calculate_level(&c).0, 8);
    c.mbps_milli = 30001;
    assert_eq!(calculate_level(&c).0, 9);
    c.mbps_milli = 0;
    c.cr = 5;
    assert_eq!(calculate_level(&c).0, 31);
    let mut m = small_context(Tier::Main);
    m.cr = 5;
    assert_eq!(calculate_level(&m).0, 12);
}

#[test]
fn larger_context_is_never_classified_lower() {
    let smaller = full_hd_context();
    let mut larger = full_hd_context();
    larger.pic_size = (3840, 2160);
    larger.display_rate = 250000000;
    let low = calculate_level(&smaller).0;
    let high = calculate_level(&larger).0;
    assert!(low <= high);
    assert_eq!(high, 12);
}

#[test]
fn tier_does_not_matter_within_both_ceilings() {
    let mut main = full_hd_context();
    main.mbps_milli = 10000;
    main.cr = 4;
    let mut high = main;
    high.tier = Tier::High;
    assert_eq!(calculate_level(&main).0, 8);
    assert_eq!(calculate_level(&high).0, 8);
}

#[test]
fn default_tier_is_main() {
    assert_eq!(Tier::default(), Tier::Main);
}
