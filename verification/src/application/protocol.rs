//! The protocol between the intake workflow and a store: the workflow issues
//! one command at a time, the store answers each with one reply.

use crate::application::error::{
    ApplicationError,
    ApplicationErrorView,
    StorageError,
    StorageErrorView,
};
use crate::domain::company::{Company, CompanyView};
use crate::domain::concern::{Concern, ConcernView};
use crate::domain::contact::{Contact, ContactView};
use crate::domain::lead::{
    Lead,
    LeadResponse,
    LeadResponseView,
    LeadStatus,
    LeadUrgency,
    LeadView,
    RecommendedPack,
    ReferenceView,
};
use crate::domain::position::{Position, PositionView};
use vstd::prelude::*;

verus! {

/// One operation on the store.
#[derive(Debug)]
pub enum Command {
    /// Open a transaction.
    Begin,
    /// Read the contact with this email.
    FindContact { email: String },
    /// Add a contact and return its row.
    InsertContact { name: String, email: String, phone: Option<String>, job_title: Option<String> },
    /// Overwrite a contact's name, phone and job title, refresh its update
    /// time, and return its row.
    UpdateContact { id: i32, name: String, phone: Option<String>, job_title: Option<String> },
    /// Read the company with this name.
    FindCompany { name: String },
    /// Add a company and return its row.
    InsertCompany { name: String, size: Option<i32> },
    /// Overwrite a company's size and return its row.
    UpdateCompany { id: i32, size: Option<i32> },
    /// Read the recommended pack with this name.
    FindPack { name: String },
    /// Read the urgency with this name.
    FindUrgency { name: String },
    /// Read the status with this name.
    FindStatus { name: String },
    /// Add a lead and return its row.
    InsertLead {
        contact_id: i32,
        company_id: i32,
        problem_summary: Option<String>,
        estimated_users: Option<i32>,
        urgency_id: i32,
        status_id: i32,
        maturity_score: i32,
        recommended_pack_id: i32,
        altcha: String,
        visitor_id: Option<String>,
    },
    /// Read the position with this title.
    FindPosition { title: String },
    /// Add a position and return its row.
    InsertPosition { title: String },
    /// Tie a position to a lead.
    LinkPosition { lead_id: i32, position_id: i32 },
    /// Read the concern with this label.
    FindConcern { label: String },
    /// Add a concern and return its row.
    InsertConcern { label: String },
    /// Tie a concern to a lead.
    LinkConcern { lead_id: i32, concern_id: i32 },
    /// Make the transaction's writes final.
    Commit,
    /// Undo the transaction's writes.
    Rollback,
}

/// What a command holds.
pub enum CommandView {
    Begin,
    FindContact { email: Seq<char> },
    InsertContact {
        name: Seq<char>,
        email: Seq<char>,
        phone: Option<Seq<char>>,
        job_title: Option<Seq<char>>,
    },
    UpdateContact {
        id: i32,
        name: Seq<char>,
        phone: Option<Seq<char>>,
        job_title: Option<Seq<char>>,
    },
    FindCompany { name: Seq<char> },
    InsertCompany { name: Seq<char>, size: Option<i32> },
    UpdateCompany { id: i32, size: Option<i32> },
    FindPack { name: Seq<char> },
    FindUrgency { name: Seq<char> },
    FindStatus { name: Seq<char> },
    InsertLead {
        contact_id: i32,
        company_id: i32,
        problem_summary: Option<Seq<char>>,
        estimated_users: Option<i32>,
        urgency_id: i32,
        status_id: i32,
        maturity_score: i32,
        recommended_pack_id: i32,
        altcha: Seq<char>,
        visitor_id: Option<Seq<char>>,
    },
    FindPosition { title: Seq<char> },
    InsertPosition { title: Seq<char> },
    LinkPosition { lead_id: i32, position_id: i32 },
    FindConcern { label: Seq<char> },
    InsertConcern { label: Seq<char> },
    LinkConcern { lead_id: i32, concern_id: i32 },
    Commit,
    Rollback,
}

impl View for Command {
    type V = CommandView;

    open spec fn view(&self) -> CommandView {
        match self {
            Command::Begin => CommandView::Begin,
            Command::FindContact { email } => CommandView::FindContact { email: email@ },
            Command::InsertContact { name, email, phone, job_title } => CommandView::InsertContact {
                name: name@,
                email: email@,
                phone: phone.deep_view(),
                job_title: job_title.deep_view(),
            },
            Command::UpdateContact { id, name, phone, job_title } => CommandView::UpdateContact {
                id: *id,
                name: name@,
                phone: phone.deep_view(),
                job_title: job_title.deep_view(),
            },
            Command::FindCompany { name } => CommandView::FindCompany { name: name@ },
            Command::InsertCompany { name, size } => CommandView::InsertCompany {
                name: name@,
                size: *size,
            },
            Command::UpdateCompany { id, size } => CommandView::UpdateCompany { id: *id, size: *size },
            Command::FindPack { name } => CommandView::FindPack { name: name@ },
            Command::FindUrgency { name } => CommandView::FindUrgency { name: name@ },
            Command::FindStatus { name } => CommandView::FindStatus { name: name@ },
            Command::InsertLead {
                contact_id,
                company_id,
                problem_summary,
                estimated_users,
                urgency_id,
                status_id,
                maturity_score,
                recommended_pack_id,
                altcha,
                visitor_id,
            } => CommandView::InsertLead {
                contact_id: *contact_id,
                company_id: *company_id,
                problem_summary: problem_summary.deep_view(),
                estimated_users: *estimated_users,
                urgency_id: *urgency_id,
                status_id: *status_id,
                maturity_score: *maturity_score,
                recommended_pack_id: *recommended_pack_id,
                altcha: altcha@,
                visitor_id: visitor_id.deep_view(),
            },
            Command::FindPosition { title } => CommandView::FindPosition { title: title@ },
            Command::InsertPosition { title } => CommandView::InsertPosition { title: title@ },
            Command::LinkPosition { lead_id, position_id } => CommandView::LinkPosition {
                lead_id: *lead_id,
                position_id: *position_id,
            },
            Command::FindConcern { label } => CommandView::FindConcern { label: label@ },
            Command::InsertConcern { label } => CommandView::InsertConcern { label: label@ },
            Command::LinkConcern { lead_id, concern_id } => CommandView::LinkConcern {
                lead_id: *lead_id,
                concern_id: *concern_id,
            },
            Command::Commit => CommandView::Commit,
            Command::Rollback => CommandView::Rollback,
        }
    }
}

/// The store's answer to one command.
#[derive(Debug)]
pub enum Reply {
    /// The command was carried out and has nothing to return.
    Done,
    /// A contact row, or none.
    Contact(Option<Contact>),
    /// A company row, or none.
    Company(Option<Company>),
    /// A recommended pack row, or none.
    Pack(Option<RecommendedPack>),
    /// An urgency row, or none.
    Urgency(Option<LeadUrgency>),
    /// A status row, or none.
    Status(Option<LeadStatus>),
    /// The lead row that was added.
    Lead(Lead),
    /// A position row, or none.
    Position(Option<Position>),
    /// A concern row, or none.
    Concern(Option<Concern>),
    /// The command failed.
    Failed(StorageError),
}

/// What a reply holds.
pub enum ReplyView {
    Done,
    Contact(Option<ContactView>),
    Company(Option<CompanyView>),
    Pack(Option<ReferenceView>),
    Urgency(Option<ReferenceView>),
    Status(Option<ReferenceView>),
    Lead(LeadView),
    Position(Option<PositionView>),
    Concern(Option<ConcernView>),
    Failed(StorageErrorView),
}

impl View for Reply {
    type V = ReplyView;

    open spec fn view(&self) -> ReplyView {
        match self {
            Reply::Done => ReplyView::Done,
            Reply::Contact(row) => ReplyView::Contact(row.deep_view()),
            Reply::Company(row) => ReplyView::Company(row.deep_view()),
            Reply::Pack(row) => ReplyView::Pack(row.deep_view()),
            Reply::Urgency(row) => ReplyView::Urgency(row.deep_view()),
            Reply::Status(row) => ReplyView::Status(row.deep_view()),
            Reply::Lead(row) => ReplyView::Lead(row@),
            Reply::Position(row) => ReplyView::Position(row.deep_view()),
            Reply::Concern(row) => ReplyView::Concern(row.deep_view()),
            Reply::Failed(error) => ReplyView::Failed(error@),
        }
    }
}

/// How an intake ends: with a response, or with the failure that stopped it.
pub type Outcome = Result<LeadResponse, ApplicationError>;

/// What an outcome holds.
pub type OutcomeView = Result<LeadResponseView, ApplicationErrorView>;

/// What an outcome holds.
pub open spec fn outcome_view(outcome: Outcome) -> OutcomeView {
    match outcome {
        Ok(response) => Ok(response@),
        Err(error) => Err(error@),
    }
}

/// What the workflow asks of its driver next.
#[derive(Debug)]
pub enum Action {
    /// Run this command on the store and hand back the reply.
    Run(Command),
    /// The intake is over; this is its outcome.
    Finish(Outcome),
}

/// What an action holds.
pub enum ActionView {
    Run(CommandView),
    Finish(OutcomeView),
}

impl View for Action {
    type V = ActionView;

    open spec fn view(&self) -> ActionView {
        match self {
            Action::Run(command) => ActionView::Run(command@),
            Action::Finish(outcome) => ActionView::Finish(outcome_view(*outcome)),
        }
    }
}

} // verus!
