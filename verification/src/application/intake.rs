//! The intake workflow as a state machine. A driver starts it, runs each
//! command it issues on a store, and hands back the store's reply, until the
//! machine finishes with an outcome. The machine decides; the driver only
//! carries commands and replies.

use crate::application::error::{ApplicationError, ApplicationErrorView, StorageErrorView};
use crate::application::protocol::{
    Action,
    ActionView,
    Command,
    CommandView,
    outcome_view,
    Outcome,
    OutcomeView,
    Reply,
    ReplyView,
};
use crate::application::triage::{
    calculate_maturity_score,
    maturity_score,
    recommended_pack_name,
    select_pack_name,
};
use crate::domain::company::{Company, CompanyResponse, CompanyView};
use crate::domain::concern::{Concern, ConcernResponse, ConcernView};
use crate::domain::contact::{Contact, ContactResponse, ContactView};
use crate::domain::lead::{
    calculate_potential_score,
    potential_score,
    Lead,
    LeadRequest,
    LeadRequestView,
    LeadResponse,
    LeadResponseView,
    LeadStatus,
    LeadStatusResponse,
    LeadUrgency,
    LeadUrgencyResponse,
    LeadView,
    RecommendedPack,
    RecommendedPackResponse,
    ReferenceView,
};
use crate::domain::position::{Position, PositionResponse, PositionView};
use vstd::prelude::*;
use vstd::string::StringExecFns;

verus! {

/// The name of the status every new lead gets.
pub open spec fn initial_status_name() -> Seq<char> {
    "nouveau"@
}

/// The failure for a reference row that the seed data lacks.
pub open spec fn missing_reference(table: Seq<char>, name: Seq<char>) -> ApplicationErrorView {
    ApplicationErrorView::NotFound(table + ": "@ + name)
}

/// The titles of some position rows, in order.
pub open spec fn titles_of(positions: Seq<PositionView>) -> Seq<Seq<char>> {
    Seq::new(positions.len(), |i: int| positions[i].title)
}

/// The labels of some concern rows, in order.
pub open spec fn labels_of(concerns: Seq<ConcernView>) -> Seq<Option<Seq<char>>> {
    Seq::new(concerns.len(), |i: int| concerns[i].label)
}

/// The rows an intake has resolved once its lead exists.
#[derive(Debug)]
pub struct Resolved {
    pub contact: Contact,
    pub company: Company,
    pub pack: RecommendedPack,
    pub urgency: LeadUrgency,
    pub status: LeadStatus,
    pub lead: Lead,
}

/// What the resolved rows hold.
pub struct ResolvedView {
    pub contact: ContactView,
    pub company: CompanyView,
    pub pack: ReferenceView,
    pub urgency: ReferenceView,
    pub status: ReferenceView,
    pub lead: LeadView,
}

impl View for Resolved {
    type V = ResolvedView;

    open spec fn view(&self) -> ResolvedView {
        ResolvedView {
            contact: self.contact@,
            company: self.company@,
            pack: self.pack@,
            urgency: self.urgency@,
            status: self.status@,
            lead: self.lead@,
        }
    }
}

impl ResolvedView {
    /// The response for these rows and the positions and concerns tied to the
    /// lead. The maturity score is the lead row's, 0 where the row has none;
    /// the potential score is computed from the resolved rows.
    pub open spec fn response(
        self,
        positions: Seq<PositionView>,
        concerns: Seq<ConcernView>,
    ) -> LeadResponseView {
        LeadResponseView {
            id: self.lead.id,
            submission_date: self.lead.submission_date,
            status: self.status.name,
            urgency: self.urgency.name,
            recommended_pack: Some(self.pack.name),
            maturity_score: Some(
                match self.lead.maturity_score {
                    Some(score) => score,
                    None => 0i32,
                },
            ),
            potential_score: Some(potential_score(self.company, self.urgency, self.contact) as i32),
            estimated_users: self.lead.estimated_users,
            problem_summary: self.lead.problem_summary,
            contact: self.contact,
            company: self.company.shown(),
            positions: titles_of(positions),
            concerns: labels_of(concerns),
        }
    }
}

/// Where an intake stands: which reply it waits for, and what it has gathered.
#[derive(Debug)]
pub enum Stage {
    /// Waiting for the transaction to open.
    Opening,
    /// Waiting for the contact with the payload's email.
    ContactLookup,
    /// Waiting for the contact row that was added or updated.
    ContactSave,
    /// Waiting for the company with the payload's name.
    CompanyLookup { contact: Contact },
    /// Waiting for the company row that was added or updated.
    CompanySave { contact: Contact },
    /// Waiting for the recommended pack.
    PackLookup { contact: Contact, company: Company },
    /// Waiting for the urgency.
    UrgencyLookup { contact: Contact, company: Company, pack: RecommendedPack },
    /// Waiting for the initial status.
    StatusLookup { contact: Contact, company: Company, pack: RecommendedPack, urgency: LeadUrgency },
    /// Waiting for the lead row that was added.
    LeadInsert {
        contact: Contact,
        company: Company,
        pack: RecommendedPack,
        urgency: LeadUrgency,
        status: LeadStatus,
    },
    /// Waiting for the position with the next title.
    PositionLookup { rows: Resolved, positions: Vec<Position>, title: String },
    /// Waiting for the position row that was added.
    PositionInsert { rows: Resolved, positions: Vec<Position> },
    /// Waiting for the position to be tied to the lead.
    PositionLink { rows: Resolved, positions: Vec<Position>, position: Position },
    /// Waiting for the concern with the next label.
    ConcernLookup { rows: Resolved, positions: Vec<Position>, concerns: Vec<Concern>, label: String },
    /// Waiting for the concern row that was added.
    ConcernInsert { rows: Resolved, positions: Vec<Position>, concerns: Vec<Concern> },
    /// Waiting for the concern to be tied to the lead.
    ConcernLink {
        rows: Resolved,
        positions: Vec<Position>,
        concerns: Vec<Concern>,
        concern: Concern,
    },
    /// Waiting for the commit.
    Committing { response: LeadResponse },
    /// Waiting for the rollback after a failure.
    Aborting { error: ApplicationError },
    /// The outcome was handed out.
    Finished,
}

/// What a stage holds.
pub enum StageView {
    Opening,
    ContactLookup,
    ContactSave,
    CompanyLookup { contact: ContactView },
    CompanySave { contact: ContactView },
    PackLookup { contact: ContactView, company: CompanyView },
    UrgencyLookup { contact: ContactView, company: CompanyView, pack: ReferenceView },
    StatusLookup {
        contact: ContactView,
        company: CompanyView,
        pack: ReferenceView,
        urgency: ReferenceView,
    },
    LeadInsert {
        contact: ContactView,
        company: CompanyView,
        pack: ReferenceView,
        urgency: ReferenceView,
        status: ReferenceView,
    },
    PositionLookup { rows: ResolvedView, positions: Seq<PositionView>, title: Seq<char> },
    PositionInsert { rows: ResolvedView, positions: Seq<PositionView> },
    PositionLink { rows: ResolvedView, positions: Seq<PositionView>, position: PositionView },
    ConcernLookup {
        rows: ResolvedView,
        positions: Seq<PositionView>,
        concerns: Seq<ConcernView>,
        label: Seq<char>,
    },
    ConcernInsert { rows: ResolvedView, positions: Seq<PositionView>, concerns: Seq<ConcernView> },
    ConcernLink {
        rows: ResolvedView,
        positions: Seq<PositionView>,
        concerns: Seq<ConcernView>,
        concern: ConcernView,
    },
    Committing { response: LeadResponseView },
    Aborting { error: ApplicationErrorView },
    Finished,
}

impl View for Stage {
    type V = StageView;

    open spec fn view(&self) -> StageView {
        match self {
            Stage::Opening => StageView::Opening,
            Stage::ContactLookup => StageView::ContactLookup,
            Stage::ContactSave => StageView::ContactSave,
            Stage::CompanyLookup { contact } => StageView::CompanyLookup { contact: contact@ },
            Stage::CompanySave { contact } => StageView::CompanySave { contact: contact@ },
            Stage::PackLookup { contact, company } => StageView::PackLookup {
                contact: contact@,
                company: company@,
            },
            Stage::UrgencyLookup { contact, company, pack } => StageView::UrgencyLookup {
                contact: contact@,
                company: company@,
                pack: pack@,
            },
            Stage::StatusLookup { contact, company, pack, urgency } => StageView::StatusLookup {
                contact: contact@,
                company: company@,
                pack: pack@,
                urgency: urgency@,
            },
            Stage::LeadInsert { contact, company, pack, urgency, status } => StageView::LeadInsert {
                contact: contact@,
                company: company@,
                pack: pack@,
                urgency: urgency@,
                status: status@,
            },
            Stage::PositionLookup { rows, positions, title } => StageView::PositionLookup {
                rows: rows@,
                positions: positions.deep_view(),
                title: title@,
            },
            Stage::PositionInsert { rows, positions } => StageView::PositionInsert {
                rows: rows@,
                positions: positions.deep_view(),
            },
            Stage::PositionLink { rows, positions, position } => StageView::PositionLink {
                rows: rows@,
                positions: positions.deep_view(),
                position: position@,
            },
            Stage::ConcernLookup { rows, positions, concerns, label } => StageView::ConcernLookup {
                rows: rows@,
                positions: positions.deep_view(),
                concerns: concerns.deep_view(),
                label: label@,
            },
            Stage::ConcernInsert { rows, positions, concerns } => StageView::ConcernInsert {
                rows: rows@,
                positions: positions.deep_view(),
                concerns: concerns.deep_view(),
            },
            Stage::ConcernLink { rows, positions, concerns, concern } => StageView::ConcernLink {
                rows: rows@,
                positions: positions.deep_view(),
                concerns: concerns.deep_view(),
                concern: concern@,
            },
            Stage::Committing { response } => StageView::Committing { response: response@ },
            Stage::Aborting { error } => StageView::Aborting { error: error@ },
            Stage::Finished => StageView::Finished,
        }
    }
}

/// An intake in progress: the submission and the stage it has reached.
#[derive(Debug)]
pub struct Intake {
    request: LeadRequest,
    stage: Stage,
}

/// What an intake in progress holds.
pub struct IntakeView {
    pub request: LeadRequestView,
    pub stage: StageView,
}

impl View for Intake {
    type V = IntakeView;

    closed spec fn view(&self) -> IntakeView {
        IntakeView { request: self.request@, stage: self.stage@ }
    }
}

impl LeadRequestView {
    /// Moves to a stage and issues a command.
    pub open spec fn goes(self, stage: StageView, command: CommandView) -> (IntakeView, ActionView) {
        (IntakeView { request: self, stage }, ActionView::Run(command))
    }

    /// Gives up: asks for a rollback and keeps the error for the outcome.
    pub open spec fn abort(self, error: ApplicationErrorView) -> (IntakeView, ActionView) {
        self.goes(StageView::Aborting { error }, CommandView::Rollback)
    }

    /// Gives up on a reply that is not the awaited one: a storage failure is
    /// passed on as it is, anything else is an unexpected error.
    pub open spec fn fail(self, reply: ReplyView) -> (IntakeView, ActionView) {
        match reply {
            ReplyView::Failed(error) => self.abort(ApplicationErrorView::DatabaseError(error)),
            _ => self.abort(ApplicationErrorView::UnexpectedError),
        }
    }

    /// Ends the intake with an outcome.
    pub open spec fn finish(self, outcome: OutcomeView) -> (IntakeView, ActionView) {
        (IntakeView { request: self, stage: StageView::Finished }, ActionView::Finish(outcome))
    }

    /// What comes once `positions` are linked: the lookup of the next title of
    /// the payload, or the concerns where every title has its position.
    pub open spec fn next_position(self, rows: ResolvedView, positions: Seq<PositionView>) -> (
        IntakeView,
        ActionView,
    ) {
        if positions.len() < self.lead.positions.len() {
            let title = self.lead.positions[positions.len() as int];
            self.goes(
                StageView::PositionLookup { rows, positions, title },
                CommandView::FindPosition { title },
            )
        } else {
            self.next_concern(rows, positions, Seq::empty())
        }
    }

    /// What comes once `concerns` are linked: the lookup of the next label of
    /// the payload, or the commit where every label has its concern.
    pub open spec fn next_concern(
        self,
        rows: ResolvedView,
        positions: Seq<PositionView>,
        concerns: Seq<ConcernView>,
    ) -> (IntakeView, ActionView) {
        if concerns.len() < self.lead.concerns.len() {
            let label = self.lead.concerns[concerns.len() as int];
            self.goes(
                StageView::ConcernLookup { rows, positions, concerns, label },
                CommandView::FindConcern { label },
            )
        } else {
            self.goes(
                StageView::Committing { response: rows.response(positions, concerns) },
                CommandView::Commit,
            )
        }
    }

    /// After the transaction was asked for: look the contact up. A failure to
    /// open leaves nothing to roll back.
    pub open spec fn after_opening(self, reply: ReplyView) -> (IntakeView, ActionView) {
        match reply {
            ReplyView::Done => self.goes(
                StageView::ContactLookup,
                CommandView::FindContact { email: self.lead.email },
            ),
            ReplyView::Failed(error) => self.finish(Err(ApplicationErrorView::DatabaseError(error))),
            _ => self.abort(ApplicationErrorView::UnexpectedError),
        }
    }

    /// After the contact lookup: update the row that was found, or add one.
    pub open spec fn after_contact_lookup(self, reply: ReplyView) -> (IntakeView, ActionView) {
        match reply {
            ReplyView::Contact(Some(found)) => self.goes(
                StageView::ContactSave,
                CommandView::UpdateContact {
                    id: found.id,
                    name: self.lead.name,
                    phone: self.lead.phone,
                    job_title: self.lead.job_title,
                },
            ),
            ReplyView::Contact(None) => self.goes(
                StageView::ContactSave,
                CommandView::InsertContact {
                    name: self.lead.name,
                    email: self.lead.email,
                    phone: self.lead.phone,
                    job_title: self.lead.job_title,
                },
            ),
            _ => self.fail(reply),
        }
    }

    /// After the contact was saved: look the company up.
    pub open spec fn after_contact_save(self, reply: ReplyView) -> (IntakeView, ActionView) {
        match reply {
            ReplyView::Contact(Some(contact)) => self.goes(
                StageView::CompanyLookup { contact },
                CommandView::FindCompany { name: self.lead.company_name },
            ),
            _ => self.fail(reply),
        }
    }

    /// After the company lookup: update the row that was found, or add one.
    pub open spec fn after_company_lookup(self, contact: ContactView, reply: ReplyView) -> (
        IntakeView,
        ActionView,
    ) {
        match reply {
            ReplyView::Company(Some(found)) => self.goes(
                StageView::CompanySave { contact },
                CommandView::UpdateCompany { id: found.id, size: self.lead.company_size },
            ),
            ReplyView::Company(None) => self.goes(
                StageView::CompanySave { contact },
                CommandView::InsertCompany {
                    name: self.lead.company_name,
                    size: self.lead.company_size,
                },
            ),
            _ => self.fail(reply),
        }
    }

    /// After the company was saved: look up the pack that the concerns call for.
    pub open spec fn after_company_save(self, contact: ContactView, reply: ReplyView) -> (
        IntakeView,
        ActionView,
    ) {
        match reply {
            ReplyView::Company(Some(company)) => self.goes(
                StageView::PackLookup { contact, company },
                CommandView::FindPack { name: recommended_pack_name(self.lead.concerns) },
            ),
            _ => self.fail(reply),
        }
    }

    /// After the pack lookup: look the urgency up; a missing pack ends the intake.
    pub open spec fn after_pack_lookup(
        self,
        contact: ContactView,
        company: CompanyView,
        reply: ReplyView,
    ) -> (IntakeView, ActionView) {
        match reply {
            ReplyView::Pack(Some(pack)) => self.goes(
                StageView::UrgencyLookup { contact, company, pack },
                CommandView::FindUrgency { name: self.lead.urgency },
            ),
            ReplyView::Pack(None) => self.abort(
                missing_reference("recommended pack"@, recommended_pack_name(self.lead.concerns)),
            ),
            _ => self.fail(reply),
        }
    }

    /// After the urgency lookup: look the initial status up; a missing urgency
    /// ends the intake.
    pub open spec fn after_urgency_lookup(
        self,
        contact: ContactView,
        company: CompanyView,
        pack: ReferenceView,
        reply: ReplyView,
    ) -> (IntakeView, ActionView) {
        match reply {
            ReplyView::Urgency(Some(urgency)) => self.goes(
                StageView::StatusLookup { contact, company, pack, urgency },
                CommandView::FindStatus { name: initial_status_name() },
            ),
            ReplyView::Urgency(None) => self.abort(missing_reference("urgency"@, self.lead.urgency)),
            _ => self.fail(reply),
        }
    }

    /// After the status lookup: add the lead, with the maturity score of the
    /// payload; a missing status ends the intake.
    pub open spec fn after_status_lookup(
        self,
        contact: ContactView,
        company: CompanyView,
        pack: ReferenceView,
        urgency: ReferenceView,
        reply: ReplyView,
    ) -> (IntakeView, ActionView) {
        match reply {
            ReplyView::Status(Some(status)) => self.goes(
                StageView::LeadInsert { contact, company, pack, urgency, status },
                CommandView::InsertLead {
                    contact_id: contact.id,
                    company_id: company.id,
                    problem_summary: self.lead.problem_summary,
                    estimated_users: self.lead.estimated_users,
                    urgency_id: urgency.id,
                    status_id: status.id,
                    maturity_score: maturity_score(self.lead) as i32,
                    recommended_pack_id: pack.id,
                    altcha: self.altcha,
                    visitor_id: self.visitor_id,
                },
            ),
            ReplyView::Status(None) => self.abort(
                missing_reference("status"@, initial_status_name()),
            ),
            _ => self.fail(reply),
        }
    }

    /// After the lead was added: start linking.
    pub open spec fn after_lead_insert(
        self,
        contact: ContactView,
        company: CompanyView,
        pack: ReferenceView,
        urgency: ReferenceView,
        status: ReferenceView,
        reply: ReplyView,
    ) -> (IntakeView, ActionView) {
        match reply {
            ReplyView::Lead(row) => self.next_position(
                ResolvedView { contact, company, pack, urgency, status, lead: row },
                Seq::empty(),
            ),
            _ => self.fail(reply),
        }
    }

    /// After a position lookup: link the row that was found, or add one.
    pub open spec fn after_position_lookup(
        self,
        rows: ResolvedView,
        positions: Seq<PositionView>,
        title: Seq<char>,
        reply: ReplyView,
    ) -> (IntakeView, ActionView) {
        match reply {
            ReplyView::Position(Some(position)) => self.goes(
                StageView::PositionLink { rows, positions, position },
                CommandView::LinkPosition { lead_id: rows.lead.id, position_id: position.id },
            ),
            ReplyView::Position(None) => self.goes(
                StageView::PositionInsert { rows, positions },
                CommandView::InsertPosition { title },
            ),
            _ => self.fail(reply),
        }
    }

    /// After a position was added: link it.
    pub open spec fn after_position_insert(
        self,
        rows: ResolvedView,
        positions: Seq<PositionView>,
        reply: ReplyView,
    ) -> (IntakeView, ActionView) {
        match reply {
            ReplyView::Position(Some(position)) => self.goes(
                StageView::PositionLink { rows, positions, position },
                CommandView::LinkPosition { lead_id: rows.lead.id, position_id: position.id },
            ),
            _ => self.fail(reply),
        }
    }

    /// After a position was linked: it joins the resolved positions.
    pub open spec fn after_position_link(
        self,
        rows: ResolvedView,
        positions: Seq<PositionView>,
        position: PositionView,
        reply: ReplyView,
    ) -> (IntakeView, ActionView) {
        match reply {
            ReplyView::Done => self.next_position(rows, positions.push(position)),
            _ => self.fail(reply),
        }
    }

    /// After a concern lookup: link the row that was found, or add one.
    pub open spec fn after_concern_lookup(
        self,
        rows: ResolvedView,
        positions: Seq<PositionView>,
        concerns: Seq<ConcernView>,
        label: Seq<char>,
        reply: ReplyView,
    ) -> (IntakeView, ActionView) {
        match reply {
            ReplyView::Concern(Some(concern)) => self.goes(
                StageView::ConcernLink { rows, positions, concerns, concern },
                CommandView::LinkConcern { lead_id: rows.lead.id, concern_id: concern.id },
            ),
            ReplyView::Concern(None) => self.goes(
                StageView::ConcernInsert { rows, positions, concerns },
                CommandView::InsertConcern { label },
            ),
            _ => self.fail(reply),
        }
    }

    /// After a concern was added: link it.
    pub open spec fn after_concern_insert(
        self,
        rows: ResolvedView,
        positions: Seq<PositionView>,
        concerns: Seq<ConcernView>,
        reply: ReplyView,
    ) -> (IntakeView, ActionView) {
        match reply {
            ReplyView::Concern(Some(concern)) => self.goes(
                StageView::ConcernLink { rows, positions, concerns, concern },
                CommandView::LinkConcern { lead_id: rows.lead.id, concern_id: concern.id },
            ),
            _ => self.fail(reply),
        }
    }

    /// After a concern was linked: it joins the resolved concerns.
    pub open spec fn after_concern_link(
        self,
        rows: ResolvedView,
        positions: Seq<PositionView>,
        concerns: Seq<ConcernView>,
        concern: ConcernView,
        reply: ReplyView,
    ) -> (IntakeView, ActionView) {
        match reply {
            ReplyView::Done => self.next_concern(rows, positions, concerns.push(concern)),
            _ => self.fail(reply),
        }
    }

    /// After the commit: the response is the outcome.
    pub open spec fn after_commit(self, response: LeadResponseView, reply: ReplyView) -> (
        IntakeView,
        ActionView,
    ) {
        match reply {
            ReplyView::Done => self.finish(Ok(response)),
            _ => self.fail(reply),
        }
    }
}

/// How many of `wanted` items are still to come once `done` of them are dealt with.
pub open spec fn still(wanted: nat, done: nat) -> nat {
    if done < wanted {
        (wanted - done) as nat
    } else {
        0
    }
}

impl IntakeView {
    /// A bound on the commands that the intake will still issue after the one
    /// it waits for: each position and each concern takes at most three, the
    /// stages before them one each.
    pub open spec fn steps_left(self) -> nat {
        let p = self.request.lead.positions.len();
        let c = self.request.lead.concerns.len();
        match self.stage {
            StageView::Opening => 3 * p + 3 * c + 16,
            StageView::ContactLookup => 3 * p + 3 * c + 15,
            StageView::ContactSave => 3 * p + 3 * c + 14,
            StageView::CompanyLookup { .. } => 3 * p + 3 * c + 13,
            StageView::CompanySave { .. } => 3 * p + 3 * c + 12,
            StageView::PackLookup { .. } => 3 * p + 3 * c + 11,
            StageView::UrgencyLookup { .. } => 3 * p + 3 * c + 10,
            StageView::StatusLookup { .. } => 3 * p + 3 * c + 9,
            StageView::LeadInsert { .. } => 3 * p + 3 * c + 8,
            StageView::PositionLookup { positions, .. } => 3 * still(p, positions.len()) + 3 * c + 7,
            StageView::PositionInsert { positions, .. } => 3 * still(p, positions.len()) + 3 * c + 6,
            StageView::PositionLink { positions, .. } => 3 * still(p, positions.len()) + 3 * c + 5,
            StageView::ConcernLookup { concerns, .. } => 3 * still(c, concerns.len()) + 4,
            StageView::ConcernInsert { concerns, .. } => 3 * still(c, concerns.len()) + 3,
            StageView::ConcernLink { concerns, .. } => 3 * still(c, concerns.len()) + 2,
            StageView::Committing { .. } => 1,
            StageView::Aborting { .. } => 0,
            StageView::Finished => 0,
        }
    }

    /// The intake of a submission before anything was done, and its first
    /// action: to open a transaction.
    pub open spec fn start(request: LeadRequestView) -> (IntakeView, ActionView) {
        request.goes(StageView::Opening, CommandView::Begin)
    }

    /// The transition: from a stage and the reply to the command issued last,
    /// to the next stage and the next action. After a rollback the kept error
    /// is the outcome, whatever the reply; a finished intake stays finished.
    pub open spec fn step(self, reply: ReplyView) -> (IntakeView, ActionView) {
        let request = self.request;
        match self.stage {
            StageView::Opening => request.after_opening(reply),
            StageView::ContactLookup => request.after_contact_lookup(reply),
            StageView::ContactSave => request.after_contact_save(reply),
            StageView::CompanyLookup { contact } => request.after_company_lookup(contact, reply),
            StageView::CompanySave { contact } => request.after_company_save(contact, reply),
            StageView::PackLookup { contact, company } => request.after_pack_lookup(
                contact,
                company,
                reply,
            ),
            StageView::UrgencyLookup { contact, company, pack } => request.after_urgency_lookup(
                contact,
                company,
                pack,
                reply,
            ),
            StageView::StatusLookup { contact, company, pack, urgency } => request.after_status_lookup(
                contact,
                company,
                pack,
                urgency,
                reply,
            ),
            StageView::LeadInsert { contact, company, pack, urgency, status } => request.after_lead_insert(
                contact,
                company,
                pack,
                urgency,
                status,
                reply,
            ),
            StageView::PositionLookup { rows, positions, title } => request.after_position_lookup(
                rows,
                positions,
                title,
                reply,
            ),
            StageView::PositionInsert { rows, positions } => request.after_position_insert(
                rows,
                positions,
                reply,
            ),
            StageView::PositionLink { rows, positions, position } => request.after_position_link(
                rows,
                positions,
                position,
                reply,
            ),
            StageView::ConcernLookup { rows, positions, concerns, label } => request.after_concern_lookup(
                rows,
                positions,
                concerns,
                label,
                reply,
            ),
            StageView::ConcernInsert { rows, positions, concerns } => request.after_concern_insert(
                rows,
                positions,
                concerns,
                reply,
            ),
            StageView::ConcernLink { rows, positions, concerns, concern } => request.after_concern_link(
                rows,
                positions,
                concerns,
                concern,
                reply,
            ),
            StageView::Committing { response } => request.after_commit(response, reply),
            StageView::Aborting { error } => request.finish(Err(error)),
            StageView::Finished => request.finish(Err(ApplicationErrorView::UnexpectedError)),
        }
    }
}

/// The failure for a reference row that the seed data lacks.
fn missing(table: &str, name: &str) -> (error: ApplicationError)
    ensures
        error@ == missing_reference(table@, name@),
{
    ApplicationError::NotFound(table.to_owned().concat(": ").concat(name))
}

/// The positions as a response lists them.
fn position_responses(positions: &Vec<Position>) -> (shown: Vec<PositionResponse>)
    ensures
        shown.deep_view() == titles_of(positions.deep_view()),
{
    let mut shown: Vec<PositionResponse> = Vec::new();
    let mut i: usize = 0;
    while i < positions.len()
        invariant
            i <= positions.len(),
            shown.len() == i,
            forall|k: int| 0 <= k < i ==> shown[k]@ == positions[k]@.title,
        decreases positions.len() - i,
    {
        shown.push(PositionResponse { title: positions[i].title.clone() });
        i = i + 1;
    }
    assert(shown.deep_view() =~= titles_of(positions.deep_view()));
    shown
}

/// The concerns as a response lists them.
fn concern_responses(concerns: &Vec<Concern>) -> (shown: Vec<ConcernResponse>)
    ensures
        shown.deep_view() == labels_of(concerns.deep_view()),
{
    let mut shown: Vec<ConcernResponse> = Vec::new();
    let mut i: usize = 0;
    while i < concerns.len()
        invariant
            i <= concerns.len(),
            shown.len() == i,
            forall|k: int| 0 <= k < i ==> shown[k]@ == concerns[k]@.label,
        decreases concerns.len() - i,
    {
        shown.push(ConcernResponse { label: concerns[i].label.clone() });
        i = i + 1;
    }
    assert(shown.deep_view() =~= labels_of(concerns.deep_view()));
    shown
}

impl Resolved {
    /// Assembles the response for these rows and the positions and concerns
    /// tied to the lead.
    pub fn into_response(self, positions: &Vec<Position>, concerns: &Vec<Concern>) -> (response:
        LeadResponse)
        ensures
            response@ == self@.response(positions.deep_view(), concerns.deep_view()),
    {
        let potential = calculate_potential_score(&self.company, &self.urgency, &self.contact);
        let maturity = match self.lead.maturity_score {
            Some(score) => score,
            None => 0,
        };
        LeadResponse {
            id: self.lead.id,
            submission_date: self.lead.submission_date,
            status: LeadStatusResponse::from(self.status),
            urgency: LeadUrgencyResponse::from(self.urgency),
            recommended_pack: Some(RecommendedPackResponse::from(self.pack)),
            maturity_score: Some(maturity),
            potential_score: Some(potential),
            estimated_users: self.lead.estimated_users,
            problem_summary: self.lead.problem_summary,
            contact: ContactResponse::from(self.contact),
            company: CompanyResponse::from(self.company),
            positions: position_responses(positions),
            concerns: concern_responses(concerns),
        }
    }
}

/// Moves to a stage and issues a command.
fn goes(request: LeadRequest, stage: Stage, command: Command) -> (r: (Intake, Action))
    ensures
        (r.0@, r.1@) == request@.goes(stage@, command@),
{
    (Intake { request, stage }, Action::Run(command))
}

/// Gives up: asks for a rollback and keeps the error for the outcome.
fn abort(request: LeadRequest, error: ApplicationError) -> (r: (Intake, Action))
    ensures
        (r.0@, r.1@) == request@.abort(error@),
{
    goes(request, Stage::Aborting { error }, Command::Rollback)
}

/// Gives up on a reply that is not the awaited one.
fn fail(request: LeadRequest, reply: Reply) -> (r: (Intake, Action))
    ensures
        (r.0@, r.1@) == request@.fail(reply@),
{
    match reply {
        Reply::Failed(error) => abort(request, ApplicationError::DatabaseError(error)),
        _ => abort(request, ApplicationError::UnexpectedError),
    }
}

/// Ends the intake with an outcome.
fn finish(request: LeadRequest, outcome: Outcome) -> (r: (Intake, Action))
    ensures
        (r.0@, r.1@) == request@.finish(outcome_view(outcome)),
{
    (Intake { request, stage: Stage::Finished }, Action::Finish(outcome))
}

/// What comes once `concerns` are linked.
fn next_concern(
    request: LeadRequest,
    rows: Resolved,
    positions: Vec<Position>,
    concerns: Vec<Concern>,
) -> (r: (Intake, Action))
    ensures
        (r.0@, r.1@) == request@.next_concern(rows@, positions.deep_view(), concerns.deep_view()),
{
    if concerns.len() < request.lead.concerns.len() {
        let label = request.lead.concerns[concerns.len()].clone();
        let command = Command::FindConcern { label: label.clone() };
        goes(request, Stage::ConcernLookup { rows, positions, concerns, label }, command)
    } else {
        let response = rows.into_response(&positions, &concerns);
        goes(request, Stage::Committing { response }, Command::Commit)
    }
}

/// What comes once `positions` are linked.
fn next_position(request: LeadRequest, rows: Resolved, positions: Vec<Position>) -> (r: (
    Intake,
    Action,
))
    ensures
        (r.0@, r.1@) == request@.next_position(rows@, positions.deep_view()),
{
    if positions.len() < request.lead.positions.len() {
        let title = request.lead.positions[positions.len()].clone();
        let command = Command::FindPosition { title: title.clone() };
        goes(request, Stage::PositionLookup { rows, positions, title }, command)
    } else {
        let concerns: Vec<Concern> = Vec::new();
        assert(concerns.deep_view() =~= Seq::<ConcernView>::empty());
        next_concern(request, rows, positions, concerns)
    }
}

/// The step after the transaction was asked for.
fn after_opening(request: LeadRequest, reply: Reply) -> (r: (Intake, Action))
    ensures
        (r.0@, r.1@) == request@.after_opening(reply@),
{
    match reply {
        Reply::Done => {
            let command = Command::FindContact { email: request.lead.email.clone() };
            goes(request, Stage::ContactLookup, command)
        },
        Reply::Failed(error) => finish(request, Err(ApplicationError::DatabaseError(error))),
        _ => abort(request, ApplicationError::UnexpectedError),
    }
}

/// The step after the contact lookup.
fn after_contact_lookup(request: LeadRequest, reply: Reply) -> (r: (Intake, Action))
    ensures
        (r.0@, r.1@) == request@.after_contact_lookup(reply@),
{
    match reply {
        Reply::Contact(Some(found)) => {
            let command = Command::UpdateContact {
                id: found.id,
                name: request.lead.name.clone(),
                phone: request.lead.phone.clone(),
                job_title: request.lead.job_title.clone(),
            };
            goes(request, Stage::ContactSave, command)
        },
        Reply::Contact(None) => {
            let command = Command::InsertContact {
                name: request.lead.name.clone(),
                email: request.lead.email.clone(),
                phone: request.lead.phone.clone(),
                job_title: request.lead.job_title.clone(),
            };
            goes(request, Stage::ContactSave, command)
        },
        other => fail(request, other),
    }
}

/// The step after the contact was saved.
fn after_contact_save(request: LeadRequest, reply: Reply) -> (r: (Intake, Action))
    ensures
        (r.0@, r.1@) == request@.after_contact_save(reply@),
{
    match reply {
        Reply::Contact(Some(contact)) => {
            let command = Command::FindCompany { name: request.lead.company_name.clone() };
            goes(request, Stage::CompanyLookup { contact }, command)
        },
        other => fail(request, other),
    }
}

/// The step after the company lookup.
fn after_company_lookup(request: LeadRequest, contact: Contact, reply: Reply) -> (r: (Intake, Action))
    ensures
        (r.0@, r.1@) == request@.after_company_lookup(contact@, reply@),
{
    match reply {
        Reply::Company(Some(found)) => {
            let command = Command::UpdateCompany { id: found.id, size: request.lead.company_size };
            goes(request, Stage::CompanySave { contact }, command)
        },
        Reply::Company(None) => {
            let command = Command::InsertCompany {
                name: request.lead.company_name.clone(),
                size: request.lead.company_size,
            };
            goes(request, Stage::CompanySave { contact }, command)
        },
        other => fail(request, other),
    }
}

/// The step after the company was saved.
fn after_company_save(request: LeadRequest, contact: Contact, reply: Reply) -> (r: (Intake, Action))
    ensures
        (r.0@, r.1@) == request@.after_company_save(contact@, reply@),
{
    match reply {
        Reply::Company(Some(company)) => {
            let command = Command::FindPack { name: select_pack_name(&request.lead.concerns) };
            goes(request, Stage::PackLookup { contact, company }, command)
        },
        other => fail(request, other),
    }
}

/// The step after the pack lookup.
fn after_pack_lookup(request: LeadRequest, contact: Contact, company: Company, reply: Reply) -> (r: (
    Intake,
    Action,
))
    ensures
        (r.0@, r.1@) == request@.after_pack_lookup(contact@, company@, reply@),
{
    match reply {
        Reply::Pack(Some(pack)) => {
            let command = Command::FindUrgency { name: request.lead.urgency.clone() };
            goes(request, Stage::UrgencyLookup { contact, company, pack }, command)
        },
        Reply::Pack(None) => {
            let name = select_pack_name(&request.lead.concerns);
            let error = missing("recommended pack", name.as_str());
            abort(request, error)
        },
        other => fail(request, other),
    }
}

/// The step after the urgency lookup.
fn after_urgency_lookup(
    request: LeadRequest,
    contact: Contact,
    company: Company,
    pack: RecommendedPack,
    reply: Reply,
) -> (r: (Intake, Action))
    ensures
        (r.0@, r.1@) == request@.after_urgency_lookup(contact@, company@, pack@, reply@),
{
    match reply {
        Reply::Urgency(Some(urgency)) => {
            let command = Command::FindStatus { name: "nouveau".to_owned() };
            goes(request, Stage::StatusLookup { contact, company, pack, urgency }, command)
        },
        Reply::Urgency(None) => {
            let error = missing("urgency", request.lead.urgency.as_str());
            abort(request, error)
        },
        other => fail(request, other),
    }
}

/// The step after the status lookup.
fn after_status_lookup(
    request: LeadRequest,
    contact: Contact,
    company: Company,
    pack: RecommendedPack,
    urgency: LeadUrgency,
    reply: Reply,
) -> (r: (Intake, Action))
    ensures
        (r.0@, r.1@) == request@.after_status_lookup(contact@, company@, pack@, urgency@, reply@),
{
    match reply {
        Reply::Status(Some(status)) => {
            let command = Command::InsertLead {
                contact_id: contact.id,
                company_id: company.id,
                problem_summary: request.lead.problem_summary.clone(),
                estimated_users: request.lead.estimated_users,
                urgency_id: urgency.id,
                status_id: status.id,
                maturity_score: calculate_maturity_score(&request.lead),
                recommended_pack_id: pack.id,
                altcha: request.altcha.clone(),
                visitor_id: request.visitor_id.clone(),
            };
            goes(request, Stage::LeadInsert { contact, company, pack, urgency, status }, command)
        },
        Reply::Status(None) => {
            let error = missing("status", "nouveau");
            abort(request, error)
        },
        other => fail(request, other),
    }
}

/// The step after the lead was added.
fn after_lead_insert(
    request: LeadRequest,
    contact: Contact,
    company: Company,
    pack: RecommendedPack,
    urgency: LeadUrgency,
    status: LeadStatus,
    reply: Reply,
) -> (r: (Intake, Action))
    ensures
        (r.0@, r.1@) == request@.after_lead_insert(
            contact@,
            company@,
            pack@,
            urgency@,
            status@,
            reply@,
        ),
{
    match reply {
        Reply::Lead(row) => {
            let rows = Resolved { contact, company, pack, urgency, status, lead: row };
            let positions: Vec<Position> = Vec::new();
            assert(positions.deep_view() =~= Seq::<PositionView>::empty());
            next_position(request, rows, positions)
        },
        other => fail(request, other),
    }
}

/// The step after a position lookup.
fn after_position_lookup(
    request: LeadRequest,
    rows: Resolved,
    positions: Vec<Position>,
    title: String,
    reply: Reply,
) -> (r: (Intake, Action))
    ensures
        (r.0@, r.1@) == request@.after_position_lookup(rows@, positions.deep_view(), title@, reply@),
{
    match reply {
        Reply::Position(Some(position)) => {
            let command = Command::LinkPosition { lead_id: rows.lead.id, position_id: position.id };
            goes(request, Stage::PositionLink { rows, positions, position }, command)
        },
        Reply::Position(None) => {
            let command = Command::InsertPosition { title };
            goes(request, Stage::PositionInsert { rows, positions }, command)
        },
        other => fail(request, other),
    }
}

/// The step after a position was added.
fn after_position_insert(
    request: LeadRequest,
    rows: Resolved,
    positions: Vec<Position>,
    reply: Reply,
) -> (r: (Intake, Action))
    ensures
        (r.0@, r.1@) == request@.after_position_insert(rows@, positions.deep_view(), reply@),
{
    match reply {
        Reply::Position(Some(position)) => {
            let command = Command::LinkPosition { lead_id: rows.lead.id, position_id: position.id };
            goes(request, Stage::PositionLink { rows, positions, position }, command)
        },
        other => fail(request, other),
    }
}

/// The step after a position was linked.
fn after_position_link(
    request: LeadRequest,
    rows: Resolved,
    positions: Vec<Position>,
    position: Position,
    reply: Reply,
) -> (r: (Intake, Action))
    ensures
        (r.0@, r.1@) == request@.after_position_link(
            rows@,
            positions.deep_view(),
            position@,
            reply@,
        ),
{
    match reply {
        Reply::Done => {
            let mut linked = positions;
            linked.push(position);
            assert(linked.deep_view() =~= positions.deep_view().push(position@));
            next_position(request, rows, linked)
        },
        other => fail(request, other),
    }
}

/// The step after a concern lookup.
fn after_concern_lookup(
    request: LeadRequest,
    rows: Resolved,
    positions: Vec<Position>,
    concerns: Vec<Concern>,
    label: String,
    reply: Reply,
) -> (r: (Intake, Action))
    ensures
        (r.0@, r.1@) == request@.after_concern_lookup(
            rows@,
            positions.deep_view(),
            concerns.deep_view(),
            label@,
            reply@,
        ),
{
    match reply {
        Reply::Concern(Some(concern)) => {
            let command = Command::LinkConcern { lead_id: rows.lead.id, concern_id: concern.id };
            goes(request, Stage::ConcernLink { rows, positions, concerns, concern }, command)
        },
        Reply::Concern(None) => {
            let command = Command::InsertConcern { label };
            goes(request, Stage::ConcernInsert { rows, positions, concerns }, command)
        },
        other => fail(request, other),
    }
}

/// The step after a concern was added.
fn after_concern_insert(
    request: LeadRequest,
    rows: Resolved,
    positions: Vec<Position>,
    concerns: Vec<Concern>,
    reply: Reply,
) -> (r: (Intake, Action))
    ensures
        (r.0@, r.1@) == request@.after_concern_insert(
            rows@,
            positions.deep_view(),
            concerns.deep_view(),
            reply@,
        ),
{
    match reply {
        Reply::Concern(Some(concern)) => {
            let command = Command::LinkConcern { lead_id: rows.lead.id, concern_id: concern.id };
            goes(request, Stage::ConcernLink { rows, positions, concerns, concern }, command)
        },
        other => fail(request, other),
    }
}

/// The step after a concern was linked.
fn after_concern_link(
    request: LeadRequest,
    rows: Resolved,
    positions: Vec<Position>,
    concerns: Vec<Concern>,
    concern: Concern,
    reply: Reply,
) -> (r: (Intake, Action))
    ensures
        (r.0@, r.1@) == request@.after_concern_link(
            rows@,
            positions.deep_view(),
            concerns.deep_view(),
            concern@,
            reply@,
        ),
{
    match reply {
        Reply::Done => {
            let mut linked = concerns;
            linked.push(concern);
            assert(linked.deep_view() =~= concerns.deep_view().push(concern@));
            next_concern(request, rows, positions, linked)
        },
        other => fail(request, other),
    }
}

/// The step after the commit.
fn after_commit(request: LeadRequest, response: LeadResponse, reply: Reply) -> (r: (Intake, Action))
    ensures
        (r.0@, r.1@) == request@.after_commit(response@, reply@),
{
    match reply {
        Reply::Done => finish(request, Ok(response)),
        other => fail(request, other),
    }
}

impl Intake {
    /// Starts the intake of a submission. The first action is to open a
    /// transaction.
    pub fn start(request: LeadRequest) -> (r: (Intake, Action))
        ensures
            (r.0@, r.1@) == IntakeView::start(request@),
    {
        goes(request, Stage::Opening, Command::Begin)
    }

    /// The submission this intake works on.
    pub fn request(&self) -> (request: &LeadRequest)
        ensures
            request@ == self@.request,
    {
        &self.request
    }

    /// The stage this intake has reached.
    pub fn stage(&self) -> (stage: &Stage)
        ensures
            stage@ == self@.stage,
    {
        &self.stage
    }

    /// Whether the outcome was handed out.
    pub fn is_finished(&self) -> (done: bool)
        ensures
            done == (self@.stage is Finished),
    {
        match self.stage {
            Stage::Finished => true,
            _ => false,
        }
    }

    /// Takes the reply to the command issued last and decides what comes next.
    ///
    /// Any storage failure, and any reply that is not the awaited one, leads to
    /// a rollback and then to an error outcome; the commit is issued only when
    /// every step before it succeeded.
    pub fn step(self, reply: Reply) -> (r: (Intake, Action))
        ensures
            (r.0@, r.1@) == self@.step(reply@),
    {
        let Intake { request, stage } = self;
        match stage {
            Stage::Opening => after_opening(request, reply),
            Stage::ContactLookup => after_contact_lookup(request, reply),
            Stage::ContactSave => after_contact_save(request, reply),
            Stage::CompanyLookup { contact } => after_company_lookup(request, contact, reply),
            Stage::CompanySave { contact } => after_company_save(request, contact, reply),
            Stage::PackLookup { contact, company } => after_pack_lookup(
                request,
                contact,
                company,
                reply,
            ),
            Stage::UrgencyLookup { contact, company, pack } => after_urgency_lookup(
                request,
                contact,
                company,
                pack,
                reply,
            ),
            Stage::StatusLookup { contact, company, pack, urgency } => after_status_lookup(
                request,
                contact,
                company,
                pack,
                urgency,
                reply,
            ),
            Stage::LeadInsert { contact, company, pack, urgency, status } => after_lead_insert(
                request,
                contact,
                company,
                pack,
                urgency,
                status,
                reply,
            ),
            Stage::PositionLookup { rows, positions, title } => after_position_lookup(
                request,
                rows,
                positions,
                title,
                reply,
            ),
            Stage::PositionInsert { rows, positions } => after_position_insert(
                request,
                rows,
                positions,
                reply,
            ),
            Stage::PositionLink { rows, positions, position } => after_position_link(
                request,
                rows,
                positions,
                position,
                reply,
            ),
            Stage::ConcernLookup { rows, positions, concerns, label } => after_concern_lookup(
                request,
                rows,
                positions,
                concerns,
                label,
                reply,
            ),
            Stage::ConcernInsert { rows, positions, concerns } => after_concern_insert(
                request,
                rows,
                positions,
                concerns,
                reply,
            ),
            Stage::ConcernLink { rows, positions, concerns, concern } => after_concern_link(
                request,
                rows,
                positions,
                concerns,
                concern,
                reply,
            ),
            Stage::Committing { response } => after_commit(request, response, reply),
            Stage::Aborting { error } => finish(request, Err(error)),
            Stage::Finished => finish(request, Err(ApplicationError::UnexpectedError)),
        }
    }
}

/// Every step brings the intake nearer to its end: a step that issues a
/// command lowers the bound on the commands still to come, and a step that
/// finishes leaves the intake finished. No step changes the submission.
pub proof fn lemma_step_progress(machine: IntakeView, reply: ReplyView)
    ensures
        machine.step(reply).1 is Run ==> machine.step(reply).0.steps_left() < machine.steps_left(),
        machine.step(reply).1 is Finish ==> machine.step(reply).0.stage is Finished,
        machine.step(reply).0.request == machine.request,
{
}

/// A storage failure during any stage between the opening of the transaction
/// and its end is answered with a rollback, and the reply to the rollback,
/// whatever it is, with that failure as the outcome.
pub proof fn lemma_failure_rolls_back(machine: IntakeView, error: StorageErrorView, reply: ReplyView)
    requires
        !(machine.stage is Opening),
        !(machine.stage is Aborting),
        !(machine.stage is Finished),
    ensures
        machine.step(ReplyView::Failed(error)) == machine.request.abort(
            ApplicationErrorView::DatabaseError(error),
        ),
        machine.step(ReplyView::Failed(error)).0.step(reply) == machine.request.finish(
            Err(ApplicationErrorView::DatabaseError(error)),
        ),
{
}

} // verus!
