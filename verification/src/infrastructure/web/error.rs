//! How a failure is shown to a client: a status code and a message.

use crate::application::error::{ApplicationError, ApplicationErrorView};
use vstd::prelude::*;
use vstd::std_specs::convert::FromSpecImpl;

verus! {

/// The status code for a failure: 400 for a payload that did not pass a check,
/// 404 for missing reference data, 500 for everything else.
pub open spec fn status_of(error: ApplicationErrorView) -> u16 {
    match error {
        ApplicationErrorView::DatabaseError(_) => 500,
        ApplicationErrorView::ValidationError(_) => 400,
        ApplicationErrorView::NotFound(_) => 404,
        ApplicationErrorView::UnexpectedError => 500,
    }
}

/// The message for a failure: the store's own words, the text of the check or
/// of the missing reference, or a fixed sentence.
pub open spec fn message_of(error: ApplicationErrorView) -> Seq<char> {
    match error {
        ApplicationErrorView::DatabaseError(e) => e.detail,
        ApplicationErrorView::ValidationError(text) => text,
        ApplicationErrorView::NotFound(text) => text,
        ApplicationErrorView::UnexpectedError => "An unexpected error occurred"@,
    }
}

/// A failure on its way to a client.
#[derive(Debug)]
pub struct AppError(ApplicationError);

impl View for AppError {
    type V = ApplicationErrorView;

    closed spec fn view(&self) -> ApplicationErrorView {
        self.0@
    }
}

impl From<ApplicationError> for AppError {
    fn from(error: ApplicationError) -> (r: Self)
        ensures
            r@ == error@,
    {
        AppError(error)
    }
}

impl FromSpecImpl<ApplicationError> for AppError {
    closed spec fn obeys_from_spec() -> bool {
        true
    }

    closed spec fn from_spec(error: ApplicationError) -> AppError {
        AppError(error)
    }
}

impl AppError {
    /// The failure itself.
    pub fn error(&self) -> (error: &ApplicationError)
        ensures
            error@ == self@,
    {
        &self.0
    }

    /// The status code of the response.
    pub fn status_code(&self) -> (code: u16)
        ensures
            code == status_of(self@),
    {
        match &self.0 {
            ApplicationError::DatabaseError(_) => 500,
            ApplicationError::ValidationError(_) => 400,
            ApplicationError::NotFound(_) => 404,
            ApplicationError::UnexpectedError => 500,
        }
    }

    /// The message in the body of the response.
    pub fn error_message(&self) -> (text: String)
        ensures
            text@ == message_of(self@),
    {
        match &self.0 {
            ApplicationError::DatabaseError(e) => e.detail.clone(),
            ApplicationError::ValidationError(text) => text.clone(),
            ApplicationError::NotFound(text) => text.clone(),
            ApplicationError::UnexpectedError => "An unexpected error occurred".to_owned(),
        }
    }
}

} // verus!
