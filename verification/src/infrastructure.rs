//! What stands around the workflow: a store that lives in memory, and the
//! plain values the web boundary needs.

pub mod memory;
pub mod web;
