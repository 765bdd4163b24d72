//! A two-player dice scoring game: the per-roll scoring engine, the roll
//! classifier, the bank/continue policy and the per-turn state machine,
//! with their contracts.

pub mod faces;
pub mod scoring;
pub mod classify;
pub mod probability;
pub mod policy;
pub mod turn;
