//! The lead aggregate, its reference tables, its request and response shapes,
//! and the potential score.

use crate::domain::company::{Company, CompanyResponse, CompanyResponseView, CompanyView};
use crate::domain::concern::ConcernResponse;
use crate::domain::contact::{Contact, ContactResponse, ContactView};
use crate::domain::position::PositionResponse;
use crate::domain::timestamp::Timestamp;
use crate::text::{contains, contains_text, lowercase_of, same_text, to_lowercase};
use vstd::prelude::*;
use vstd::std_specs::convert::FromSpecImpl;

verus! {

/// What a row of a reference table holds: an id and a unique name.
pub struct ReferenceView {
    pub id: i32,
    pub name: Seq<char>,
}

/// A row of the lead statuses.
#[derive(Debug)]
pub struct LeadStatus {
    pub id: i32,
    pub name: String,
}

impl View for LeadStatus {
    type V = ReferenceView;

    open spec fn view(&self) -> ReferenceView {
        ReferenceView { id: self.id, name: self.name@ }
    }
}

impl DeepView for LeadStatus {
    type V = ReferenceView;

    open spec fn deep_view(&self) -> ReferenceView {
        self@
    }
}

impl Clone for LeadStatus {
    fn clone(&self) -> (r: Self)
        ensures
            r == *self,
    {
        LeadStatus { id: self.id, name: self.name.clone() }
    }
}

/// A row of the lead urgencies.
#[derive(Debug)]
pub struct LeadUrgency {
    pub id: i32,
    pub name: String,
}

impl View for LeadUrgency {
    type V = ReferenceView;

    open spec fn view(&self) -> ReferenceView {
        ReferenceView { id: self.id, name: self.name@ }
    }
}

impl DeepView for LeadUrgency {
    type V = ReferenceView;

    open spec fn deep_view(&self) -> ReferenceView {
        self@
    }
}

impl Clone for LeadUrgency {
    fn clone(&self) -> (r: Self)
        ensures
            r == *self,
    {
        LeadUrgency { id: self.id, name: self.name.clone() }
    }
}

/// A row of the recommended packs.
#[derive(Debug)]
pub struct RecommendedPack {
    pub id: i32,
    pub name: String,
}

impl View for RecommendedPack {
    type V = ReferenceView;

    open spec fn view(&self) -> ReferenceView {
        ReferenceView { id: self.id, name: self.name@ }
    }
}

impl DeepView for RecommendedPack {
    type V = ReferenceView;

    open spec fn deep_view(&self) -> ReferenceView {
        self@
    }
}

impl Clone for RecommendedPack {
    fn clone(&self) -> (r: Self)
        ensures
            r == *self,
    {
        RecommendedPack { id: self.id, name: self.name.clone() }
    }
}

/// A lead row: one submission, tied to a contact, a company and a status.
#[derive(Debug)]
pub struct Lead {
    pub id: i32,
    pub submission_date: Timestamp,
    pub estimated_users: Option<i32>,
    pub problem_summary: Option<String>,
    pub contact_id: i32,
    pub company_id: i32,
    pub recommended_pack_id: Option<i32>,
    pub maturity_score: Option<i32>,
    pub urgency_id: Option<i32>,
    pub status_id: i32,
    pub fingerprint_visitor_id: Option<String>,
    pub altcha_solution: Option<String>,
    pub created_at: Timestamp,
    pub updated_at: Timestamp,
}

/// What a lead row holds.
pub struct LeadView {
    pub id: i32,
    pub submission_date: Timestamp,
    pub estimated_users: Option<i32>,
    pub problem_summary: Option<Seq<char>>,
    pub contact_id: i32,
    pub company_id: i32,
    pub recommended_pack_id: Option<i32>,
    pub maturity_score: Option<i32>,
    pub urgency_id: Option<i32>,
    pub status_id: i32,
    pub fingerprint_visitor_id: Option<Seq<char>>,
    pub altcha_solution: Option<Seq<char>>,
    pub created_at: Timestamp,
    pub updated_at: Timestamp,
}

impl View for Lead {
    type V = LeadView;

    open spec fn view(&self) -> LeadView {
        LeadView {
            id: self.id,
            submission_date: self.submission_date,
            estimated_users: self.estimated_users,
            problem_summary: self.problem_summary.deep_view(),
            contact_id: self.contact_id,
            company_id: self.company_id,
            recommended_pack_id: self.recommended_pack_id,
            maturity_score: self.maturity_score,
            urgency_id: self.urgency_id,
            status_id: self.status_id,
            fingerprint_visitor_id: self.fingerprint_visitor_id.deep_view(),
            altcha_solution: self.altcha_solution.deep_view(),
            created_at: self.created_at,
            updated_at: self.updated_at,
        }
    }
}

impl DeepView for Lead {
    type V = LeadView;

    open spec fn deep_view(&self) -> LeadView {
        self@
    }
}

impl Clone for Lead {
    fn clone(&self) -> (r: Self)
        ensures
            r == *self,
    {
        Lead {
            id: self.id,
            submission_date: self.submission_date,
            estimated_users: self.estimated_users,
            problem_summary: self.problem_summary.clone(),
            contact_id: self.contact_id,
            company_id: self.company_id,
            recommended_pack_id: self.recommended_pack_id,
            maturity_score: self.maturity_score,
            urgency_id: self.urgency_id,
            status_id: self.status_id,
            fingerprint_visitor_id: self.fingerprint_visitor_id.clone(),
            altcha_solution: self.altcha_solution.clone(),
            created_at: self.created_at,
            updated_at: self.updated_at,
        }
    }
}

/// A link row: the lead wants this position filled.
#[derive(Debug, Clone, Copy)]
pub struct LeadPosition {
    pub lead_id: i32,
    pub position_id: i32,
}

/// A link row: the lead states this concern.
#[derive(Debug, Clone, Copy)]
pub struct LeadConcern {
    pub lead_id: i32,
    pub concern_id: i32,
}

/// What a submitter fills in.
#[derive(Debug)]
pub struct LeadPayload {
    pub name: String,
    pub email: String,
    pub phone: Option<String>,
    pub job_title: Option<String>,
    pub company_name: String,
    pub company_size: Option<i32>,
    pub positions: Vec<String>,
    pub concerns: Vec<String>,
    pub problem_summary: Option<String>,
    pub estimated_users: Option<i32>,
    pub urgency: String,
    pub conscent: bool,
}

/// What a payload holds.
pub struct LeadPayloadView {
    pub name: Seq<char>,
    pub email: Seq<char>,
    pub phone: Option<Seq<char>>,
    pub job_title: Option<Seq<char>>,
    pub company_name: Seq<char>,
    pub company_size: Option<i32>,
    pub positions: Seq<Seq<char>>,
    pub concerns: Seq<Seq<char>>,
    pub problem_summary: Option<Seq<char>>,
    pub estimated_users: Option<i32>,
    pub urgency: Seq<char>,
    pub conscent: bool,
}

impl View for LeadPayload {
    type V = LeadPayloadView;

    open spec fn view(&self) -> LeadPayloadView {
        LeadPayloadView {
            name: self.name@,
            email: self.email@,
            phone: self.phone.deep_view(),
            job_title: self.job_title.deep_view(),
            company_name: self.company_name@,
            company_size: self.company_size,
            positions: self.positions.deep_view(),
            concerns: self.concerns.deep_view(),
            problem_summary: self.problem_summary.deep_view(),
            estimated_users: self.estimated_users,
            urgency: self.urgency@,
            conscent: self.conscent,
        }
    }
}

/// A submission: the payload, the answer to the anti-automation challenge, and
/// the visitor's fingerprint id where there is one.
#[derive(Debug)]
pub struct LeadRequest {
    pub lead: LeadPayload,
    pub altcha: String,
    pub visitor_id: Option<String>,
}

/// What a submission holds.
pub struct LeadRequestView {
    pub lead: LeadPayloadView,
    pub altcha: Seq<char>,
    pub visitor_id: Option<Seq<char>>,
}

impl View for LeadRequest {
    type V = LeadRequestView;

    open spec fn view(&self) -> LeadRequestView {
        LeadRequestView {
            lead: self.lead@,
            altcha: self.altcha@,
            visitor_id: self.visitor_id.deep_view(),
        }
    }
}

/// A request to change a lead: every field of the payload is optional.
#[derive(Debug)]
pub struct LeadUpdateRequest {
    pub name: Option<String>,
    pub email: Option<String>,
    pub phone: Option<String>,
    pub job_title: Option<String>,
    pub company_name: Option<String>,
    pub company_size: Option<i32>,
    pub positions: Option<Vec<String>>,
    pub concerns: Option<Vec<String>>,
    pub problem_summary: Option<String>,
    pub estimated_users: Option<i32>,
    pub urgency: Option<String>,
    pub conscent: Option<bool>,
    pub altcha: String,
    pub visitor_id: String,
}

/// A status as a response shows it: its name.
#[derive(Debug)]
pub struct LeadStatusResponse {
    pub name: String,
}

impl View for LeadStatusResponse {
    type V = Seq<char>;

    open spec fn view(&self) -> Seq<char> {
        self.name@
    }
}

impl From<LeadStatus> for LeadStatusResponse {
    fn from(status: LeadStatus) -> (r: Self)
        ensures
            r@ == status@.name,
    {
        LeadStatusResponse { name: status.name }
    }
}

impl FromSpecImpl<LeadStatus> for LeadStatusResponse {
    open spec fn obeys_from_spec() -> bool {
        true
    }

    open spec fn from_spec(status: LeadStatus) -> LeadStatusResponse {
        LeadStatusResponse { name: status.name }
    }
}

/// An urgency as a response shows it: its name.
#[derive(Debug)]
pub struct LeadUrgencyResponse {
    pub name: String,
}

impl View for LeadUrgencyResponse {
    type V = Seq<char>;

    open spec fn view(&self) -> Seq<char> {
        self.name@
    }
}

impl From<LeadUrgency> for LeadUrgencyResponse {
    fn from(urgency: LeadUrgency) -> (r: Self)
        ensures
            r@ == urgency@.name,
    {
        LeadUrgencyResponse { name: urgency.name }
    }
}

impl FromSpecImpl<LeadUrgency> for LeadUrgencyResponse {
    open spec fn obeys_from_spec() -> bool {
        true
    }

    open spec fn from_spec(urgency: LeadUrgency) -> LeadUrgencyResponse {
        LeadUrgencyResponse { name: urgency.name }
    }
}

/// A recommended pack as a response shows it: its name.
#[derive(Debug)]
pub struct RecommendedPackResponse {
    pub name: String,
}

impl View for RecommendedPackResponse {
    type V = Seq<char>;

    open spec fn view(&self) -> Seq<char> {
        self.name@
    }
}

impl DeepView for RecommendedPackResponse {
    type V = Seq<char>;

    open spec fn deep_view(&self) -> Seq<char> {
        self@
    }
}

impl From<RecommendedPack> for RecommendedPackResponse {
    fn from(pack: RecommendedPack) -> (r: Self)
        ensures
            r@ == pack@.name,
    {
        RecommendedPackResponse { name: pack.name }
    }
}

impl FromSpecImpl<RecommendedPack> for RecommendedPackResponse {
    open spec fn obeys_from_spec() -> bool {
        true
    }

    open spec fn from_spec(pack: RecommendedPack) -> RecommendedPackResponse {
        RecommendedPackResponse { name: pack.name }
    }
}

/// What a successful intake returns.
#[derive(Debug)]
pub struct LeadResponse {
    pub id: i32,
    pub submission_date: Timestamp,
    pub status: LeadStatusResponse,
    pub urgency: LeadUrgencyResponse,
    pub recommended_pack: Option<RecommendedPackResponse>,
    pub maturity_score: Option<i32>,
    pub potential_score: Option<i32>,
    pub estimated_users: Option<i32>,
    pub problem_summary: Option<String>,
    pub contact: ContactResponse,
    pub company: CompanyResponse,
    pub positions: Vec<PositionResponse>,
    pub concerns: Vec<ConcernResponse>,
}

/// What a lead response holds. Positions are titles and concerns are labels, in
/// the order of the submission.
pub struct LeadResponseView {
    pub id: i32,
    pub submission_date: Timestamp,
    pub status: Seq<char>,
    pub urgency: Seq<char>,
    pub recommended_pack: Option<Seq<char>>,
    pub maturity_score: Option<i32>,
    pub potential_score: Option<i32>,
    pub estimated_users: Option<i32>,
    pub problem_summary: Option<Seq<char>>,
    pub contact: ContactView,
    pub company: CompanyResponseView,
    pub positions: Seq<Seq<char>>,
    pub concerns: Seq<Option<Seq<char>>>,
}

impl View for LeadResponse {
    type V = LeadResponseView;

    open spec fn view(&self) -> LeadResponseView {
        LeadResponseView {
            id: self.id,
            submission_date: self.submission_date,
            status: self.status@,
            urgency: self.urgency@,
            recommended_pack: self.recommended_pack.deep_view(),
            maturity_score: self.maturity_score,
            potential_score: self.potential_score,
            estimated_users: self.estimated_users,
            problem_summary: self.problem_summary.deep_view(),
            contact: self.contact@,
            company: self.company@,
            positions: self.positions.deep_view(),
            concerns: self.concerns.deep_view(),
        }
    }
}

/// A lowercased job title names a decision maker: it contains "ceo", "cto",
/// "manager" or "director".
pub open spec fn names_decision_maker(lowered: Seq<char>) -> bool {
    ||| contains_text(lowered, "ceo"@)
    ||| contains_text(lowered, "cto"@)
    ||| contains_text(lowered, "manager"@)
    ||| contains_text(lowered, "director"@)
}

/// A job title is that of a decision maker, whatever its case.
pub open spec fn decision_maker_title(job_title: Option<Seq<char>>) -> bool {
    match job_title {
        Some(title) => names_decision_maker(lowercase_of(title)),
        None => false,
    }
}

/// Points for the company's headcount: 3 above 1000, 2 above 250, 1 for any
/// other known size, 0 where the size is unknown.
pub open spec fn size_points(size: Option<i32>) -> int {
    match size {
        Some(n) => if n > 1000 {
            3
        } else if n > 250 {
            2
        } else {
            1
        },
        None => 0,
    }
}

/// Points for the urgency: 3 for "immédiat", 2 for "ce mois", 0 otherwise.
pub open spec fn urgency_points(name: Seq<char>) -> int {
    if name == "immédiat"@ {
        3
    } else if name == "ce mois"@ {
        2
    } else {
        0
    }
}

/// The potential score from its three inputs: the sum of the size points, the
/// urgency points, and 2 where the contact is a decision maker.
pub open spec fn potential_points(size: Option<i32>, urgency: Seq<char>, decision_maker: bool) -> int {
    size_points(size) + urgency_points(urgency) + if decision_maker {
        2int
    } else {
        0int
    }
}

/// The potential score of a lead, from the resolved company, urgency and contact.
pub open spec fn potential_score(
    company: CompanyView,
    urgency: ReferenceView,
    contact: ContactView,
) -> int {
    potential_points(company.size, urgency.name, decision_maker_title(contact.job_title))
}

/// Whether a lowercased job title names a decision maker.
pub fn is_decision_maker(lowered: &str) -> (r: bool)
    ensures
        r == names_decision_maker(lowered@),
{
    contains(lowered, "ceo") || contains(lowered, "cto") || contains(lowered, "manager")
        || contains(lowered, "director")
}

/// Whether a job title is that of a decision maker, whatever its case.
pub fn has_decision_maker_title(job_title: &Option<String>) -> (r: bool)
    ensures
        r == decision_maker_title(job_title.deep_view()),
{
    match job_title {
        Some(title) => {
            let lowered = to_lowercase(title.as_str());
            is_decision_maker(lowered.as_str())
        },
        None => false,
    }
}

/// The potential score from a headcount, an urgency name, and whether the
/// contact is a decision maker.
pub fn potential_score_of(size: Option<i32>, urgency: &str, decision_maker: bool) -> (score: i32)
    ensures
        score == potential_points(size, urgency@, decision_maker),
{
    let mut score: i32 = 0;
    if let Some(n) = size {
        if n > 1000 {
            score = score + 3;
        } else if n > 250 {
            score = score + 2;
        } else {
            score = score + 1;
        }
    }
    if same_text(urgency, "immédiat") {
        score = score + 3;
    } else if same_text(urgency, "ce mois") {
        score = score + 2;
    }
    if decision_maker {
        score = score + 2;
    }
    score
}

/// The potential score of a lead: how valuable it is, from 0 to 8.
pub fn calculate_potential_score(company: &Company, urgency: &LeadUrgency, contact: &Contact) -> (score:
    i32)
    ensures
        score == potential_score(company@, urgency@, contact@),
        0 <= score <= 8,
{
    let decision_maker = has_decision_maker_title(&contact.job_title);
    potential_score_of(company.size, urgency.name.as_str(), decision_maker)
}

} // verus!
