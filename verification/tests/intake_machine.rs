use headless_api::application::error::{ApplicationError, StorageError, StorageErrorKind};
use headless_api::application::intake::{Intake, Stage};
use headless_api::application::protocol::{Action, Command, Reply};
use headless_api::domain::company::Company;
use headless_api::domain::concern::Concern;
use headless_api::domain::contact::Contact;
use headless_api::domain::lead::{
    Lead, LeadPayload, LeadRequest, LeadStatus, LeadUrgency, RecommendedPack,
};
use headless_api::domain::position::Position;

fn at(seconds: i64) -> chrono::NaiveDateTime {
    chrono::DateTime::from_timestamp(seconds, 0).unwrap().naive_utc()
}

fn request(positions: Vec<&str>, concerns: Vec<&str>) -> LeadRequest {
    LeadRequest {
        lead: LeadPayload {
            name: "Ada".to_string(),
            email: "ada@example.com".to_string(),
            phone: Some("555".to_string()),
            job_title: Some("Director".to_string()),
            company_name: "Engines".to_string(),
            company_size: Some(1500),
            positions: positions.into_iter().map(|p| p.to_string()).collect(),
            concerns: concerns.into_iter().map(|c| c.to_string()).collect(),
            problem_summary: Some("slow".to_string()),
            estimated_users: Some(60),
            urgency: "immédiat".to_string(),
            conscent: true,
        },
        altcha: "solution".to_string(),
        visitor_id: Some("visitor".to_string()),
    }
}

fn contact() -> Contact {
    Contact {
        id: 7,
        name: "Ada".to_string(),
        email: "ada@example.com".to_string(),
        phone: Some("555".to_string()),
        job_title: Some("Director".to_string()),
        created_at: at(1),
        updated_at: at(2),
    }
}

fn company() -> Company {
    Company { id: 3, name: "Engines".to_string(), size: Some(1500) }
}

fn lead() -> Lead {
    Lead {
        id: 11,
        submission_date: at(3),
        estimated_users: Some(60),
        problem_summary: Some("slow".to_string()),
        contact_id: 7,
        company_id: 3,
        recommended_pack_id: Some(2),
        maturity_score: Some(3),
        urgency_id: Some(4),
        status_id: 1,
        fingerprint_visitor_id: Some("visitor".to_string()),
        altcha_solution: Some("solution".to_string()),
        created_at: at(3),
        updated_at: at(3),
    }
}

fn failure() -> StorageError {
    StorageError::new(StorageErrorKind::Constraint, "duplicate key")
}

fn command(action: Action) -> Command {
    match action {
        Action::Run(command) => command,
        Action::Finish(outcome) => panic!("finished early: {:?}", outcome),
    }
}

/// Steps the machine through every stage up to the reply to the lead insert.
fn up_to_lead(positions: Vec<&str>, concerns: Vec<&str>) -> (Intake, Action) {
    let (machine, action) = Intake::start(request(positions, concerns));
    assert!(matches!(command(action), Command::Begin));
    let (machine, action) = machine.step(Reply::Done);
    assert!(matches!(command(action), Command::FindContact { .. }));
    let (machine, action) = machine.step(Reply::Contact(None));
    assert!(matches!(command(action), Command::InsertContact { .. }));
    let (machine, action) = machine.step(Reply::Contact(Some(contact())));
    assert!(matches!(command(action), Command::FindCompany { .. }));
    let (machine, action) = machine.step(Reply::Company(None));
    assert!(matches!(command(action), Command::InsertCompany { .. }));
    let (machine, action) = machine.step(Reply::Company(Some(company())));
    assert!(matches!(command(action), Command::FindPack { .. }));
    let (machine, action) =
        machine.step(Reply::Pack(Some(RecommendedPack { id: 2, name: "conformité".to_string() })));
    assert!(matches!(command(action), Command::FindUrgency { .. }));
    let (machine, action) =
        machine.step(Reply::Urgency(Some(LeadUrgency { id: 4, name: "immédiat".to_string() })));
    assert!(matches!(command(action), Command::FindStatus { .. }));
    let (machine, action) =
        machine.step(Reply::Status(Some(LeadStatus { id: 1, name: "nouveau".to_string() })));
    assert!(matches!(command(action), Command::InsertLead { .. }));
    machine.step(Reply::Lead(lead()))
}

#[test]
fn start_opens_a_transaction() {
    let (machine, action) = Intake::start(request(vec![], vec![]));
    assert!(matches!(action, Action::Run(Command::Begin)));
    assert!(matches!(machine.stage(), Stage::Opening));
    assert!(!machine.is_finished());
    assert_eq!(machine.request().lead.email, "ada@example.com");
}

#[test]
fn a_failed_opening_ends_without_rollback() {
    let (machine, _) = Intake::start(request(vec![], vec![]));
    let (machine, action) = machine.step(Reply::Failed(failure()));
    match action {
        Action::Finish(Err(ApplicationError::DatabaseError(e))) => {
            assert_eq!(e.kind, StorageErrorKind::Constraint);
            assert_eq!(e.detail, "duplicate key");
        }
        other => panic!("unexpected action: {:?}", other),
    }
    assert!(machine.is_finished());
}

#[test]
fn commands_carry_the_payload() {
    let (machine, _) = Intake::start(request(vec![], vec![]));
    let (machine, action) = machine.step(Reply::Done);
    match command(action) {
        Command::FindContact { email } => assert_eq!(email, "ada@example.com"),
        other => panic!("unexpected command: {:?}", other),
    }
    let (machine, action) = machine.step(Reply::Contact(None));
    match command(action) {
        Command::InsertContact { name, email, phone, job_title } => {
            assert_eq!(name, "Ada");
            assert_eq!(email, "ada@example.com");
            assert_eq!(phone, Some("555".to_string()));
            assert_eq!(job_title, Some("Director".to_string()));
        }
        other => panic!("unexpected command: {:?}", other),
    }
    let (machine, action) = machine.step(Reply::Contact(Some(contact())));
    match command(action) {
        Command::FindCompany { name } => assert_eq!(name, "Engines"),
        other => panic!("unexpected command: {:?}", other),
    }
    let (machine, action) = machine.step(Reply::Company(Some(company())));
    match command(action) {
        Command::UpdateCompany { id, size } => {
            assert_eq!(id, 3);
            assert_eq!(size, Some(1500));
        }
        other => panic!("unexpected command: {:?}", other),
    }
    let (machine, action) = machine.step(Reply::Company(Some(company())));
    match command(action) {
        Command::FindPack { name } => assert_eq!(name, "conformité"),
        other => panic!("unexpected command: {:?}", other),
    }
    let (machine, action) =
        machine.step(Reply::Pack(Some(RecommendedPack { id: 2, name: "conformité".to_string() })));
    match command(action) {
        Command::FindUrgency { name } => assert_eq!(name, "immédiat"),
        other => panic!("unexpected command: {:?}", other),
    }
    let (machine, action) =
        machine.step(Reply::Urgency(Some(LeadUrgency { id: 4, name: "immédiat".to_string() })));
    match command(action) {
        Command::FindStatus { name } => assert_eq!(name, "nouveau"),
        other => panic!("unexpected command: {:?}", other),
    }
    let (_, action) =
        machine.step(Reply::Status(Some(LeadStatus { id: 1, name: "nouveau".to_string() })));
    match command(action) {
        Command::InsertLead {
            contact_id,
            company_id,
            problem_summary,
            estimated_users,
            urgency_id,
            status_id,
            maturity_score,
            recommended_pack_id,
            altcha,
            visitor_id,
        } => {
            assert_eq!(contact_id, 7);
            assert_eq!(company_id, 3);
            assert_eq!(problem_summary, Some("slow".to_string()));
            assert_eq!(estimated_users, Some(60));
            assert_eq!(urgency_id, 4);
            assert_eq!(status_id, 1);
            assert_eq!(maturity_score, 3);
            assert_eq!(recommended_pack_id, 2);
            assert_eq!(altcha, "solution");
            assert_eq!(visitor_id, Some("visitor".to_string()));
        }
        other => panic!("unexpected command: {:?}", other),
    }
}

#[test]
fn a_found_contact_is_updated() {
    let (machine, _) = Intake::start(request(vec![], vec![]));
    let (machine, _) = machine.step(Reply::Done);
    let (_, action) = machine.step(Reply::Contact(Some(contact())));
    match command(action) {
        Command::UpdateContact { id, name, phone, job_title } => {
            assert_eq!(id, 7);
            assert_eq!(name, "Ada");
            assert_eq!(phone, Some("555".to_string()));
            assert_eq!(job_title, Some("Director".to_string()));
        }
        other => panic!("unexpected command: {:?}", other),
    }
}

#[test]
fn without_positions_and_concerns_the_lead_is_committed() {
    let (machine, action) = up_to_lead(vec![], vec![]);
    assert!(matches!(command(action), Command::Commit));
    let (machine, action) = machine.step(Reply::Done);
    match action {
        Action::Finish(Ok(response)) => {
            assert_eq!(response.id, 11);
            assert_eq!(response.submission_date, at(3));
            assert_eq!(response.status.name, "nouveau");
            assert_eq!(response.urgency.name, "immédiat");
            assert_eq!(response.recommended_pack.unwrap().name, "conformité");
            assert_eq!(response.maturity_score, Some(3));
            assert_eq!(response.potential_score, Some(8));
            assert_eq!(response.contact.id, 7);
            assert_eq!(response.contact.updated_at, at(2));
            assert_eq!(response.company.name, "Engines");
            assert!(response.positions.is_empty());
            assert!(response.concerns.is_empty());
        }
        other => panic!("unexpected action: {:?}", other),
    }
    assert!(machine.is_finished());
}

#[test]
fn positions_then_concerns_in_payload_order() {
    let (machine, action) = up_to_lead(vec!["Developer", "Manager"], vec!["confiance"]);
    match command(action) {
        Command::FindPosition { title } => assert_eq!(title, "Developer"),
        other => panic!("unexpected command: {:?}", other),
    }
    let (machine, action) = machine.step(Reply::Position(None));
    match command(action) {
        Command::InsertPosition { title } => assert_eq!(title, "Developer"),
        other => panic!("unexpected command: {:?}", other),
    }
    let (machine, action) =
        machine.step(Reply::Position(Some(Position { id: 21, title: "Developer".to_string() })));
    match command(action) {
        Command::LinkPosition { lead_id, position_id } => {
            assert_eq!(lead_id, 11);
            assert_eq!(position_id, 21);
        }
        other => panic!("unexpected command: {:?}", other),
    }
    let (machine, action) = machine.step(Reply::Done);
    match command(action) {
        Command::FindPosition { title } => assert_eq!(title, "Manager"),
        other => panic!("unexpected command: {:?}", other),
    }
    let (machine, action) =
        machine.step(Reply::Position(Some(Position { id: 5, title: "Manager".to_string() })));
    match command(action) {
        Command::LinkPosition { lead_id, position_id } => {
            assert_eq!(lead_id, 11);
            assert_eq!(position_id, 5);
        }
        other => panic!("unexpected command: {:?}", other),
    }
    let (machine, action) = machine.step(Reply::Done);
    match command(action) {
        Command::FindConcern { label } => assert_eq!(label, "confiance"),
        other => panic!("unexpected command: {:?}", other),
    }
    let (machine, action) = machine.step(Reply::Concern(None));
    match command(action) {
        Command::InsertConcern { label } => assert_eq!(label, "confiance"),
        other => panic!("unexpected command: {:?}", other),
    }
    let (machine, action) =
        machine.step(Reply::Concern(Some(Concern { id: 9, label: Some("confiance".to_string()) })));
    match command(action) {
        Command::LinkConcern { lead_id, concern_id } => {
            assert_eq!(lead_id, 11);
            assert_eq!(concern_id, 9);
        }
        other => panic!("unexpected command: {:?}", other),
    }
    let (machine, action) = machine.step(Reply::Done);
    assert!(matches!(command(action), Command::Commit));
    let (_, action) = machine.step(Reply::Done);
    match action {
        Action::Finish(Ok(response)) => {
            let titles: Vec<String> = response.positions.into_iter().map(|p| p.title).collect();
            assert_eq!(titles, vec!["Developer".to_string(), "Manager".to_string()]);
            let labels: Vec<Option<String>> =
                response.concerns.into_iter().map(|c| c.label).collect();
            assert_eq!(labels, vec![Some("confiance".to_string())]);
        }
        other => panic!("unexpected action: {:?}", other),
    }
}

#[test]
fn a_failed_position_insert_is_rolled_back() {
    let (machine, _) = up_to_lead(vec!["Developer"], vec![]);
    let (machine, action) = machine.step(Reply::Position(None));
    assert!(matches!(command(action), Command::InsertPosition { .. }));
    let (machine, action) = machine.step(Reply::Failed(failure()));
    assert!(matches!(command(action), Command::Rollback));
    assert!(matches!(machine.stage(), Stage::Aborting { .. }));
    let (machine, action) = machine.step(Reply::Done);
    match action {
        Action::Finish(Err(ApplicationError::DatabaseError(e))) => {
            assert_eq!(e.kind, StorageErrorKind::Constraint);
            assert_eq!(e.detail, "duplicate key");
        }
        other => panic!("unexpected action: {:?}", other),
    }
    assert!(machine.is_finished());
}

#[test]
fn a_failed_rollback_still_reports_the_first_failure() {
    let (machine, _) = Intake::start(request(vec![], vec![]));
    let (machine, _) = machine.step(Reply::Done);
    let (machine, action) = machine.step(Reply::Failed(failure()));
    assert!(matches!(command(action), Command::Rollback));
    let second = StorageError::new(StorageErrorKind::Connectivity, "gone");
    let (_, action) = machine.step(Reply::Failed(second));
    match action {
        Action::Finish(Err(ApplicationError::DatabaseError(e))) => {
            assert_eq!(e.kind, StorageErrorKind::Constraint)
        }
        other => panic!("unexpected action: {:?}", other),
    }
}

#[test]
fn a_failed_commit_is_rolled_back() {
    let (machine, action) = up_to_lead(vec![], vec![]);
    assert!(matches!(command(action), Command::Commit));
    let (machine, action) = machine.step(Reply::Failed(failure()));
    assert!(matches!(command(action), Command::Rollback));
    let (_, action) = machine.step(Reply::Done);
    assert!(matches!(action, Action::Finish(Err(ApplicationError::DatabaseError(_)))));
}

#[test]
fn a_missing_pack_is_not_found_after_rollback() {
    let (machine, _) = Intake::start(request(vec![], vec!["la croissance"]));
    let (machine, _) = machine.step(Reply::Done);
    let (machine, _) = machine.step(Reply::Contact(None));
    let (machine, _) = machine.step(Reply::Contact(Some(contact())));
    let (machine, _) = machine.step(Reply::Company(None));
    let (machine, action) = machine.step(Reply::Company(Some(company())));
    match command(action) {
        Command::FindPack { name } => assert_eq!(name, "croissance"),
        other => panic!("unexpected command: {:?}", other),
    }
    let (machine, action) = machine.step(Reply::Pack(None));
    assert!(matches!(command(action), Command::Rollback));
    let (_, action) = machine.step(Reply::Done);
    match action {
        Action::Finish(Err(ApplicationError::NotFound(text))) => {
            assert_eq!(text, "recommended pack: croissance")
        }
        other => panic!("unexpected action: {:?}", other),
    }
}

#[test]
fn a_reply_of_the_wrong_kind_is_unexpected() {
    let (machine, _) = Intake::start(request(vec![], vec![]));
    let (machine, _) = machine.step(Reply::Done);
    let (machine, action) = machine.step(Reply::Company(None));
    assert!(matches!(command(action), Command::Rollback));
    let (_, action) = machine.step(Reply::Done);
    assert!(matches!(action, Action::Finish(Err(ApplicationError::UnexpectedError))));
}

#[test]
fn a_save_that_returns_no_row_is_unexpected() {
    let (machine, _) = Intake::start(request(vec![], vec![]));
    let (machine, _) = machine.step(Reply::Done);
    let (machine, _) = machine.step(Reply::Contact(Some(contact())));
    let (machine, action) = machine.step(Reply::Contact(None));
    assert!(matches!(command(action), Command::Rollback));
    let (_, action) = machine.step(Reply::Done);
    assert!(matches!(action, Action::Finish(Err(ApplicationError::UnexpectedError))));
}

#[test]
fn a_finished_intake_stays_finished() {
    let (machine, _) = Intake::start(request(vec![], vec![]));
    let (machine, _) = machine.step(Reply::Failed(failure()));
    let (machine, action) = machine.step(Reply::Done);
    assert!(matches!(action, Action::Finish(Err(ApplicationError::UnexpectedError))));
    assert!(machine.is_finished());
}

#[test]
fn a_lead_row_without_score_shows_zero() {
    let (machine, _) = Intake::start(request(vec![], vec![]));
    let (machine, _) = machine.step(Reply::Done);
    let (machine, _) = machine.step(Reply::Contact(None));
    let (machine, _) = machine.step(Reply::Contact(Some(contact())));
    let (machine, _) = machine.step(Reply::Company(None));
    let (machine, _) = machine.step(Reply::Company(Some(company())));
    let (machine, _) =
        machine.step(Reply::Pack(Some(RecommendedPack { id: 2, name: "conformité".to_string() })));
    let (machine, _) =
        machine.step(Reply::Urgency(Some(LeadUrgency { id: 4, name: "immédiat".to_string() })));
    let (machine, _) =
        machine.step(Reply::Status(Some(LeadStatus { id: 1, name: "nouveau".to_string() })));
    let mut row = lead();
    row.maturity_score = None;
    let (machine, _) = machine.step(Reply::Lead(row));
    let (_, action) = machine.step(Reply::Done);
    match action {
        Action::Finish(Ok(response)) => assert_eq!(response.maturity_score, Some(0)),
        other => panic!("unexpected action: {:?}", other),
    }
}
