//! Live head-to-head match scoring under configurable win rules, with a full
//! point-by-point event history enabling exact undo, win/loss bookkeeping on
//! finalize, and per-player statistics derived from finished-match history.
//!
//! The crate is storage-engine-agnostic: callers fetch and persist records
//! through whatever store they use, and hand plain values to the functions
//! here, which do all score-keeping, state transitions and aggregation.

pub mod engine;
pub mod laws;
pub mod models;
pub mod stats;
pub mod time;
pub mod win;
