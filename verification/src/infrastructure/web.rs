//! The web boundary in plain values: status codes and message texts.

pub mod error;
pub mod lead_handler;
