//! The entities of the lead store and the shapes of requests and responses.

pub mod company;
pub mod concern;
pub mod contact;
pub mod fingerprint;
pub mod lead;
pub mod note;
pub mod position;
pub mod report;
pub mod sector;
pub mod timestamp;
