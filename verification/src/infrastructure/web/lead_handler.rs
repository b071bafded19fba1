//! The handler of a lead submission, without its transport.

use crate::application::error::ApplicationErrorView;
use crate::application::lead_service::LeadService;
use crate::application::protocol::OutcomeView;
use crate::application::transaction::intake;
use crate::domain::lead::{LeadRequest, LeadResponse, LeadResponseView};
use crate::domain::timestamp::Timestamp;
use crate::infrastructure::web::error::AppError;
use vstd::prelude::*;

verus! {

/// The status code of a submission that was taken in.
pub const CREATED: u16 = 201;

/// What the handler answers.
pub type Answer = Result<(u16, LeadResponse), AppError>;

/// What an answer holds.
pub open spec fn answer_view(answer: Answer) -> Result<(u16, LeadResponseView), ApplicationErrorView> {
    match answer {
        Ok((code, response)) => Ok((code, response@)),
        Err(error) => Err(error@),
    }
}

/// The answer to an outcome: 201 with the response, or the failure.
pub open spec fn answer_to(outcome: OutcomeView) -> Result<(u16, LeadResponseView), ApplicationErrorView> {
    match outcome {
        Ok(response) => Ok((CREATED, response)),
        Err(error) => Err(error),
    }
}

/// Takes a submission in and answers it: 201 and the response, or the failure.
pub fn create_lead(service: &mut LeadService, payload: LeadRequest, now: Timestamp) -> (answer: Answer)
    requires
        old(service)@.wf(),
    ensures
        final(service)@.wf(),
        final(service)@ == intake(old(service)@, payload@, now).0,
        answer_view(answer) == answer_to(intake(old(service)@, payload@, now).1),
{
    match service.create_lead(payload.lead, payload.altcha, payload.visitor_id, now) {
        Ok(response) => Ok((CREATED, response)),
        Err(error) => Err(AppError::from(error)),
    }
}

} // verus!
