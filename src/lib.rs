//! Conformance levels of video sequences: a fixed table of the thirty-two
//! level slots with their resource ceilings, and a classifier that picks the
//! least demanding level whose ceilings a sequence stays within.

pub mod context;
pub mod laws;
pub mod level;
pub mod limits;

pub use context::{SequenceContext, Tier};
pub use level::{calculate_level, level_at, Level};
pub use limits::{level_limits, LevelLimits};
