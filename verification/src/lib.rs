//! Lead intake: a multi-entity upsert-and-link workflow with two triage scores,
//! written as a state machine that a storage driver runs step by step.

pub mod application;
pub mod domain;
pub mod infrastructure;
pub mod text;
