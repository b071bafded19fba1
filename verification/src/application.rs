//! The intake workflow: its errors, the protocol it speaks with a store, its
//! triage rules, the state machine, and the service that runs it.

pub mod error;
pub mod intake;
pub mod lead_service;
pub mod protocol;
pub mod run;
pub mod transaction;
pub mod triage;
