//! Page reports tied to a visitor.

use crate::domain::timestamp::Timestamp;
use vstd::prelude::*;

verus! {

/// A report row.
#[derive(Debug)]
pub struct Report {
    pub id: i32,
    pub visitor_id: String,
    pub page: String,
    pub created_at: Timestamp,
}

impl Clone for Report {
    fn clone(&self) -> (r: Self)
        ensures
            r == *self,
    {
        Report {
            id: self.id,
            visitor_id: self.visitor_id.clone(),
            page: self.page.clone(),
            created_at: self.created_at,
        }
    }
}

/// A request to record a report.
#[derive(Debug)]
pub struct ReportRequest {
    pub altcha: String,
    pub visitor_id: String,
    pub page: String,
}

} // verus!
