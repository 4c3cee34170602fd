//! Core of a desktop productivity companion: a session timing state machine,
//! an activity/idle tracking engine, and the thin record managers around them
//! (distraction blocking, health reminders, journaling, gamification, stats).
//!
//! All state lives in memory, owned by explicit manager values; callers
//! receive copies (snapshots), never references.

mod clock;
pub mod database;
pub mod distraction_blocker;
pub mod errors;
pub mod focus_manager;
pub mod gamification;
pub mod health_reminders;
mod ids;
pub mod journal_manager;
pub mod stats_tracker;
pub mod idle_detector;
pub mod text;

use vstd::prelude::*;

verus! {

} // verus!
