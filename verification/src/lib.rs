//! Player-state core of a narrative time-loop game: choice scoring with a
//! bounded nihilism score, loop-reset semantics with cross-loop memory
//! retention, a rule-based ending evaluator, and a deterministic renderer of
//! the narrative context handed to an external story generator.

pub mod classify;
pub mod config;
pub mod endings;
pub mod game;
pub mod persistence;
pub mod text;
