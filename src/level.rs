use vstd::prelude::*;

use crate::context::SequenceContext;
use crate::limits::{is_reserved, level_limits, level_table, LevelLimits};

verus! {

/// Slot `index` holds a defined level whose ceilings `c` stays within.
pub open spec fn admits(index: int, c: SequenceContext) -> bool {
    match level_table(index) {
        Some(limits) => !limits.exceeded_by(c),
        None => false,
    }
}

/// The least slot from `start` up to 30 that admits `c`, or 31 where none
/// does.
pub open spec fn classify_from(c: SequenceContext, start: int) -> int
    decreases 31 - start,
{
    if start >= 31 {
        31
    } else if admits(start, c) {
        start
    } else {
        classify_from(c, start + 1)
    }
}

/// The level a sequence conforms to: the least defined level that admits
/// it, with slot 31 as the fallback that takes every sequence.
pub open spec fn classify_index(c: SequenceContext) -> int {
    classify_from(c, 0)
}

/// The decimal digit for `d`, for `d` from 0 to 9.
pub open spec fn digit_char(d: int) -> char {
    if d == 0 {
        '0'
    } else if d == 1 {
        '1'
    } else if d == 2 {
        '2'
    } else if d == 3 {
        '3'
    } else if d == 4 {
        '4'
    } else if d == 5 {
        '5'
    } else if d == 6 {
        '6'
    } else if d == 7 {
        '7'
    } else if d == 8 {
        '8'
    } else {
        '9'
    }
}

/// How the slot at `index` is shown: "Maximum parameters" for slot 31,
/// "Reserved" for 24 through 30, and otherwise "major.minor", with the
/// slots grouped in fours from major 2 (`index >> 2` and `index & 3`).
pub open spec fn level_label(index: int) -> Seq<char> {
    if index == 31 {
        "Maximum parameters"@
    } else if index >= 24 {
        "Reserved"@
    } else {
        seq![digit_char(2 + index / 4), '.', digit_char(index % 4)]
    }
}

fn digit_text(d: u8) -> (r: &'static str)
    requires
        d < 10,
    ensures
        r@ == seq![digit_char(d as int)],
{
    match d {
        0 => {
            proof {
                reveal_strlit("0");
            }
            "0"
        },
        1 => {
            proof {
                reveal_strlit("1");
            }
            "1"
        },
        2 => {
            proof {
                reveal_strlit("2");
            }
            "2"
        },
        3 => {
            proof {
                reveal_strlit("3");
            }
            "3"
        },
        4 => {
            proof {
                reveal_strlit("4");
            }
            "4"
        },
        5 => {
            proof {
                reveal_strlit("5");
            }
            "5"
        },
        6 => {
            proof {
                reveal_strlit("6");
            }
            "6"
        },
        7 => {
            proof {
                reveal_strlit("7");
            }
            "7"
        },
        8 => {
            proof {
                reveal_strlit("8");
            }
            "8"
        },
        _ => {
            proof {
                reveal_strlit("9");
            }
            "9"
        },
    }
}

/// One of the thirty-two level slots, by index. The record it carries is the
/// table's entry for that index.
#[derive(Clone, Copy, Debug)]
pub struct Level(pub u8, Option<LevelLimits>);

impl Level {
    /// The slot's index, the public first field.
    pub closed spec fn index(self) -> int {
        self.0 as int
    }

    #[verifier::type_invariant]
    spec fn matches_table(self) -> bool {
        self.0 < 32 && self.1 == level_table(self.0 as int)
    }

    /// Tells whether the slot holds a defined level, not a reserved one.
    pub fn is_valid(&self) -> (r: bool)
        ensures
            r == level_table(self.index()).is_some(),
    {
        proof {
            use_type_invariant(self);
        }
        self.1.is_some()
    }

    /// The slot's name as shown to people.
    pub fn label(&self) -> (r: String)
        ensures
            r@ == level_label(self.index()),
    {
        proof {
            use_type_invariant(self);
        }
        let index = self.0;
        if index == 31 {
            String::from_str("Maximum parameters")
        } else if index >= 24 {
            String::from_str("Reserved")
        } else {
            assert(index >> 2 == index / 4 && index & 3 == index % 4) by (bit_vector);
            let major: u8 = 2 + (index >> 2);
            let minor: u8 = index & 3;
            let mut text = String::from_str(digit_text(major));
            proof {
                reveal_strlit(".");
            }
            text.append(".");
            text.append(digit_text(minor));
            assert(text@ =~= level_label(self.index()));
            text
        }
    }
}

/// The slot at `index`, or `None` past the last slot.
pub fn level_at(index: u8) -> (r: Option<Level>)
    ensures
        r.is_some() <==> index < 32,
        r matches Some(level) ==> level.index() == index,
{
    if index < 32 {
        Some(Level(index, level_limits(index)))
    } else {
        None
    }
}

proof fn lemma_classify_from_bounds(c: SequenceContext, start: int)
    requires
        0 <= start <= 31,
    ensures
        start <= classify_from(c, start) <= 31,
        classify_from(c, start) < 31 ==> admits(classify_from(c, start), c),
        forall|j: int| start <= j < classify_from(c, start) ==> !#[trigger] admits(j, c),
    decreases 31 - start,
{
    if start < 31 && !admits(start, c) {
        lemma_classify_from_bounds(c, start + 1);
    }
}

/// The classification is the least slot below 31 that admits the sequence,
/// or 31 where none does.
pub proof fn lemma_classify_least(c: SequenceContext)
    ensures
        0 <= classify_index(c) <= 31,
        classify_index(c) < 31 ==> admits(classify_index(c), c),
        forall|j: int| 0 <= j < classify_index(c) ==> !#[trigger] admits(j, c),
{
    lemma_classify_from_bounds(c, 0);
}

/// Finds the least demanding level whose ceilings `context` stays within;
/// slot 31 where no lower level does.
pub fn calculate_level(context: &SequenceContext) -> (r: Level)
    ensures
        r.index() == classify_index(*context),
        0 <= r.index() <= 31,
        r.index() < 31 ==> admits(r.index(), *context),
        forall|j: int| 0 <= j < r.index() ==> !admits(j, *context),
        level_table(r.index()).is_some(),
        !is_reserved(r.index()),
{
    proof {
        lemma_classify_least(*context);
    }
    let mut index: u8 = 0;
    while index < 31
        invariant
            index <= 31,
            classify_from(*context, index as int) == classify_index(*context),
        decreases 31 - index,
    {
        if let Some(limits) = level_limits(index) {
            if !limits.is_exceeded_by(context) {
                proof {
                    lemma_classify_least(*context);
                }
                return Level(index, Some(limits));
            }
        }
        index += 1;
    }
    Level(31, level_limits(31))
}

} // verus!
