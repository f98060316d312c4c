use vstd::prelude::*;

use crate::context::SequenceContext;
use crate::level::{admits, classify_index, lemma_classify_least};
use crate::limits::{is_reserved, level_table};

verus! {

proof fn lemma_dominated_products(c1: SequenceContext, c2: SequenceContext)
    requires
        c1.dominated_by(c2),
    ensures
        c1.pic_area() <= c2.pic_area(),
        c1.tile_count() <= c2.tile_count(),
{
    let (w1, h1, w2, h2) = (c1.pic_size.0 as int, c1.pic_size.1 as int, c2.pic_size.0 as int, c2.pic_size.1 as int);
    assert(w1 * h1 <= w2 * h2) by (nonlinear_arith)
        requires
            0 <= w1 <= w2,
            0 <= h1 <= h2,
    ;
    let (x1, y1, x2, y2) = (c1.tiles.0 as int, c1.tiles.1 as int, c2.tiles.0 as int, c2.tiles.1 as int);
    assert(x1 * y1 <= x2 * y2) by (nonlinear_arith)
        requires
            0 <= x1 <= x2,
            0 <= y1 <= y2,
    ;
}

/// A sequence whose every value is at most that of another, in the same
/// tier, is classified at a level no higher than the other's.
pub proof fn lemma_classify_monotonic(c1: SequenceContext, c2: SequenceContext)
    requires
        c1.dominated_by(c2),
    ensures
        classify_index(c1) <= classify_index(c2),
{
    lemma_classify_least(c1);
    lemma_classify_least(c2);
    lemma_dominated_products(c1, c2);
    let i2 = classify_index(c2);
    if i2 < 31 {
        assert(admits(i2, c1));
    }
}

/// A sequence within every ceiling of a level is classified at that level
/// or a lower one.
pub proof fn lemma_within_ceilings_classified_at_or_below(c: SequenceContext, index: int)
    requires
        admits(index, c),
    ensures
        classify_index(c) <= index,
{
    lemma_classify_least(c);
}

/// No sequence is classified at a reserved slot: the result always carries
/// a ceilings record.
pub proof fn lemma_reserved_never_selected(c: SequenceContext)
    ensures
        !is_reserved(classify_index(c)),
        level_table(classify_index(c)).is_some(),
{
    lemma_classify_least(c);
}

/// Two sequences that differ in tier alone are classified alike where, at
/// each defined level below slot 31, their bitrate metric and compression
/// bound are within the Main-tier ceilings exactly when within the High-tier
/// ones.
pub proof fn lemma_classify_tier_independent(c1: SequenceContext, c2: SequenceContext)
    requires
        c1.same_but_tier(c2),
        forall|i: int|
            0 <= i < 31 && #[trigger] level_table(i).is_some() ==> level_table(i).unwrap().tier_exceeded_by(c1)
                == level_table(i).unwrap().tier_exceeded_by(c2),
    ensures
        classify_index(c1) == classify_index(c2),
{
    lemma_classify_least(c1);
    lemma_classify_least(c2);
    assert forall|i: int| 0 <= i < 31 implies admits(i, c1) == admits(i, c2) by {
        if level_table(i).is_some() {
            let l = level_table(i).unwrap();
            assert(l.tier_exceeded_by(c1) == l.tier_exceeded_by(c2));
        }
    }
    let (i1, i2) = (classify_index(c1), classify_index(c2));
    if i1 < i2 {
        assert(admits(i1, c1));
    } else if i2 < i1 {
        assert(admits(i2, c2));
    }
}

} // verus!
