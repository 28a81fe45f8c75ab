//! Per-turn decision policy for an autonomous drone in a turn-based,
//! partially observable exploration game.
//!
//! The drone moves through a bounded 2D arena, scans mobile creatures,
//! avoids monsters, and periodically surfaces to bank accumulated scans.
//! This crate holds the decision engine: given one turn's world snapshot it
//! selects which creature types to prioritize, detects nearby threats and
//! computes an evasive trajectory, decides when to return cargo to the
//! surface, and synthesizes all of that into a single movement command plus
//! a sensor-boost ("light") toggle.
//!
//! The turn-by-turn protocol decoder/encoder and the outer game loop are
//! external collaborators; they hand this crate plain values and take plain
//! values back.

pub mod catalog;
pub mod snapshot;
pub mod ledger;
pub mod selector;
pub mod planner;
pub mod laws;
