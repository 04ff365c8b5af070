//! Habit streaks: how many consecutive qualifying days a habit has been
//! completed, computed from its log of completion instants.

pub mod moment;
pub mod frequency;
pub mod streak;
pub mod habit;
