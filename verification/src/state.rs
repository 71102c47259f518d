//! Persistent escrow state.

pub mod escrow;
