use headless_api::application::error::{ApplicationError, StorageErrorKind};
use headless_api::application::lead_service::LeadService;
use headless_api::application::protocol::Command;
use headless_api::domain::lead::LeadPayload;
use headless_api::infrastructure::memory::MemoryStore;

fn at(seconds: i64) -> chrono::NaiveDateTime {
    chrono::DateTime::from_timestamp(seconds, 0).unwrap().naive_utc()
}

fn seeded(limit: usize) -> MemoryStore {
    let mut store = MemoryStore::with_row_limit(limit);
    store.seed_status("nouveau").unwrap();
    store.seed_urgency("ce mois").unwrap();
    store.seed_urgency("immédiat").unwrap();
    store.seed_pack("conformité").unwrap();
    store.seed_pack("confiance").unwrap();
    store.seed_pack("croissance").unwrap();
    store
}

fn payload(email: &str, company: &str, positions: Vec<&str>, concerns: Vec<&str>) -> LeadPayload {
    LeadPayload {
        name: "Test User".to_string(),
        email: email.to_string(),
        phone: None,
        job_title: None,
        company_name: company.to_string(),
        company_size: Some(50),
        positions: positions.into_iter().map(|p| p.to_string()).collect(),
        concerns: concerns.into_iter().map(|c| c.to_string()).collect(),
        problem_summary: None,
        estimated_users: Some(100),
        urgency: "ce mois".to_string(),
        conscent: true,
    }
}

#[test]
fn end_to_end_intake() {
    let mut service = LeadService::new(seeded(1000));
    let p = payload(
        "test.user@example.com",
        "Test Inc.",
        vec!["Developer", "Manager"],
        vec!["confiance", "sécurité"],
    );
    let response = service.create_lead(p, "token".to_string(), None, at(1_700_000_000)).unwrap();
    assert_eq!(response.contact.name, "Test User");
    assert_eq!(response.contact.email, "test.user@example.com");
    assert_eq!(response.company.name, "Test Inc.");
    assert_eq!(response.company.size, Some(50));
    assert_eq!(response.urgency.name, "ce mois");
    assert_eq!(response.status.name, "nouveau");
    assert_eq!(response.recommended_pack.unwrap().name, "confiance");
    assert_eq!(response.maturity_score, Some(1));
    assert_eq!(response.potential_score, Some(3));
    assert_eq!(response.estimated_users, Some(100));
    assert_eq!(response.problem_summary, None);
    assert_eq!(response.id, 1);
    assert_eq!(response.submission_date, at(1_700_000_000));
    assert_eq!(response.contact.created_at, at(1_700_000_000));
    let titles: Vec<String> = response.positions.into_iter().map(|p| p.title).collect();
    assert_eq!(titles, vec!["Developer".to_string(), "Manager".to_string()]);
    let labels: Vec<Option<String>> = response.concerns.into_iter().map(|c| c.label).collect();
    assert_eq!(labels, vec![Some("confiance".to_string()), Some("sécurité".to_string())]);
    assert!(!service.store().in_transaction());
}

#[test]
fn fresh_submission_adds_one_contact_one_company_one_lead() {
    let mut service = LeadService::new(seeded(1000));
    let p = payload("a@example.com", "A", vec![], vec![]);
    service.create_lead(p, "t".to_string(), None, at(1)).unwrap();
    assert_eq!(service.store().contacts().len(), 1);
    assert_eq!(service.store().companies().len(), 1);
    assert_eq!(service.store().leads().len(), 1);
}

#[test]
fn resubmission_adds_only_a_second_lead() {
    let mut service = LeadService::new(seeded(1000));
    let first = service
        .create_lead(payload("a@example.com", "A", vec!["Dev"], vec!["x"]), "t".to_string(), None, at(1))
        .unwrap();
    let second = service
        .create_lead(payload("a@example.com", "A", vec!["Dev"], vec!["x"]), "t".to_string(), None, at(2))
        .unwrap();
    let store = service.store();
    assert_eq!(store.contacts().len(), 1);
    assert_eq!(store.companies().len(), 1);
    assert_eq!(store.positions().len(), 1);
    assert_eq!(store.concerns().len(), 1);
    assert_eq!(store.leads().len(), 2);
    assert_ne!(first.id, second.id);
    assert_eq!(first.contact.id, second.contact.id);
    assert_eq!(store.leads()[0].contact_id, store.leads()[1].contact_id);
    assert_eq!(store.leads()[0].company_id, store.leads()[1].company_id);
    assert_eq!(store.lead_positions().len(), 2);
    assert_eq!(store.lead_concerns().len(), 2);
}

#[test]
fn resighting_updates_contact_and_company_in_place() {
    let mut service = LeadService::new(seeded(1000));
    service
        .create_lead(payload("a@example.com", "A", vec![], vec![]), "t".to_string(), None, at(10))
        .unwrap();
    let mut again = payload("a@example.com", "A", vec![], vec![]);
    again.name = "Renamed".to_string();
    again.phone = Some("123".to_string());
    again.job_title = Some("CTO".to_string());
    again.company_size = Some(2000);
    let response = service.create_lead(again, "t".to_string(), None, at(20)).unwrap();
    assert_eq!(response.contact.name, "Renamed");
    assert_eq!(response.contact.phone, Some("123".to_string()));
    assert_eq!(response.contact.created_at, at(10));
    assert_eq!(response.contact.updated_at, at(20));
    assert_eq!(response.company.size, Some(2000));
    assert_eq!(response.maturity_score, Some(3));
    assert_eq!(response.potential_score, Some(3 + 2 + 2));
    let store = service.store();
    assert_eq!(store.contacts().len(), 1);
    assert_eq!(store.contacts()[0].name, "Renamed");
    assert_eq!(store.contacts()[0].email, "a@example.com");
    assert_eq!(store.contacts()[0].updated_at, at(20));
    assert_eq!(store.companies()[0].size, Some(2000));
}

#[test]
fn known_position_is_linked_again_not_duplicated() {
    let mut service = LeadService::new(seeded(1000));
    service
        .create_lead(payload("a@example.com", "A", vec!["Developer"], vec![]), "t".to_string(), None, at(1))
        .unwrap();
    let known = service.store().positions()[0].id;
    let response = service
        .create_lead(
            payload("b@example.com", "B", vec!["Manager", "Developer"], vec![]),
            "t".to_string(),
            None,
            at(2),
        )
        .unwrap();
    let store = service.store();
    assert_eq!(store.positions().len(), 2);
    assert_eq!(store.positions().iter().filter(|p| p.title == "Developer").count(), 1);
    assert_eq!(store.lead_positions().len(), 3);
    let last = store.lead_positions()[2];
    assert_eq!(last.lead_id, response.id);
    assert_eq!(last.position_id, known);
    assert_eq!(response.positions[1].title, "Developer");
}

#[test]
fn position_titles_are_case_exact() {
    let mut service = LeadService::new(seeded(1000));
    service
        .create_lead(
            payload("a@example.com", "A", vec!["Developer", "developer"], vec![]),
            "t".to_string(),
            None,
            at(1),
        )
        .unwrap();
    assert_eq!(service.store().positions().len(), 2);
}

#[test]
fn a_title_given_twice_is_linked_twice() {
    let mut service = LeadService::new(seeded(1000));
    let response = service
        .create_lead(
            payload("a@example.com", "A", vec!["Developer", "Developer"], vec!["x", "x"]),
            "t".to_string(),
            None,
            at(1),
        )
        .unwrap();
    let store = service.store();
    assert_eq!(store.positions().len(), 1);
    assert_eq!(store.lead_positions().len(), 2);
    assert_eq!(store.lead_positions()[0].position_id, store.lead_positions()[1].position_id);
    assert_eq!(store.concerns().len(), 1);
    assert_eq!(store.lead_concerns().len(), 2);
    assert_eq!(response.positions.len(), 2);
    assert_eq!(response.concerns.len(), 2);
}

#[test]
fn failure_during_linkage_rolls_everything_back() {
    let mut store = MemoryStore::with_row_limit(1);
    store.seed_status("nouveau").unwrap();
    store.seed_urgency("ce mois").unwrap();
    store.seed_pack("conformité").unwrap();
    let mut service = LeadService::new(store);
    let result = service.create_lead(
        payload("a@example.com", "A", vec!["Developer", "Manager"], vec![]),
        "t".to_string(),
        None,
        at(1),
    );
    match result {
        Err(ApplicationError::DatabaseError(e)) => {
            assert_eq!(e.kind, StorageErrorKind::Capacity);
            assert_eq!(e.detail, "positions");
        }
        other => panic!("unexpected outcome: {:?}", other),
    }
    let store = service.store();
    assert_eq!(store.contacts().len(), 0);
    assert_eq!(store.companies().len(), 0);
    assert_eq!(store.leads().len(), 0);
    assert_eq!(store.positions().len(), 0);
    assert_eq!(store.lead_positions().len(), 0);
    assert!(!store.in_transaction());
}

#[test]
fn failure_keeps_rows_that_were_there_before() {
    let mut store = MemoryStore::with_row_limit(2);
    store.seed_status("nouveau").unwrap();
    store.seed_urgency("ce mois").unwrap();
    store.seed_pack("conformité").unwrap();
    let mut service = LeadService::new(store);
    service
        .create_lead(payload("a@example.com", "A", vec!["Developer"], vec![]), "t".to_string(), None, at(1))
        .unwrap();
    let mut again = payload("a@example.com", "A", vec!["Manager", "Director"], vec![]);
    again.name = "Renamed".to_string();
    let result = service.create_lead(again, "t".to_string(), None, at(2));
    assert!(matches!(result, Err(ApplicationError::DatabaseError(_))));
    let store = service.store();
    assert_eq!(store.contacts().len(), 1);
    assert_eq!(store.contacts()[0].name, "Test User");
    assert_eq!(store.contacts()[0].updated_at, at(1));
    assert_eq!(store.leads().len(), 1);
    assert_eq!(store.positions().len(), 1);
    assert_eq!(store.lead_positions().len(), 1);
}

#[test]
fn missing_pack_is_not_found() {
    let mut store = MemoryStore::new();
    store.seed_status("nouveau").unwrap();
    store.seed_urgency("ce mois").unwrap();
    store.seed_pack("conformité").unwrap();
    let mut service = LeadService::new(store);
    let result = service.create_lead(
        payload("a@example.com", "A", vec![], vec!["croissance"]),
        "t".to_string(),
        None,
        at(1),
    );
    match result {
        Err(ApplicationError::NotFound(text)) => assert_eq!(text, "recommended pack: croissance"),
        other => panic!("unexpected outcome: {:?}", other),
    }
    assert_eq!(service.store().contacts().len(), 0);
    assert_eq!(service.store().companies().len(), 0);
}

#[test]
fn missing_urgency_is_not_found() {
    let mut store = MemoryStore::new();
    store.seed_status("nouveau").unwrap();
    store.seed_pack("conformité").unwrap();
    let mut service = LeadService::new(store);
    let result =
        service.create_lead(payload("a@example.com", "A", vec![], vec![]), "t".to_string(), None, at(1));
    match result {
        Err(ApplicationError::NotFound(text)) => assert_eq!(text, "urgency: ce mois"),
        other => panic!("unexpected outcome: {:?}", other),
    }
    assert_eq!(service.store().contacts().len(), 0);
}

#[test]
fn missing_status_is_not_found() {
    let mut store = MemoryStore::new();
    store.seed_urgency("ce mois").unwrap();
    store.seed_pack("conformité").unwrap();
    let mut service = LeadService::new(store);
    let result =
        service.create_lead(payload("a@example.com", "A", vec![], vec![]), "t".to_string(), None, at(1));
    match result {
        Err(ApplicationError::NotFound(text)) => assert_eq!(text, "status: nouveau"),
        other => panic!("unexpected outcome: {:?}", other),
    }
}

#[test]
fn a_store_with_an_open_transaction_takes_no_intake() {
    let mut store = seeded(1000);
    assert!(matches!(
        store.execute(Command::Begin, at(0)),
        headless_api::application::protocol::Reply::Done
    ));
    let mut service = LeadService::new(store);
    let result =
        service.create_lead(payload("a@example.com", "A", vec![], vec![]), "t".to_string(), None, at(1));
    match result {
        Err(ApplicationError::DatabaseError(e)) => {
            assert_eq!(e.kind, StorageErrorKind::Transaction);
            assert_eq!(e.detail, "begin");
        }
        other => panic!("unexpected outcome: {:?}", other),
    }
    assert!(service.store().in_transaction());
    assert_eq!(service.store().contacts().len(), 0);
}

#[test]
fn lead_row_keeps_tokens_and_scores() {
    let mut service = LeadService::new(seeded(1000));
    let mut p = payload("a@example.com", "A", vec![], vec!["a", "b", "c"]);
    p.problem_summary = Some("slow".to_string());
    p.company_size = Some(500);
    p.job_title = Some("Manager".to_string());
    let response =
        service.create_lead(p, "solution".to_string(), Some("visitor".to_string()), at(5)).unwrap();
    assert_eq!(response.maturity_score, Some(4));
    assert_eq!(response.potential_score, Some(2 + 2 + 2));
    assert_eq!(response.problem_summary, Some("slow".to_string()));
    let store = service.into_store();
    let lead = &store.leads()[0];
    assert_eq!(lead.altcha_solution, Some("solution".to_string()));
    assert_eq!(lead.fingerprint_visitor_id, Some("visitor".to_string()));
    assert_eq!(lead.maturity_score, Some(4));
    assert_eq!(lead.contact_id, 1);
    assert_eq!(lead.company_id, 1);
    assert_eq!(lead.status_id, 1);
    assert_eq!(lead.urgency_id, Some(1));
    assert_eq!(lead.recommended_pack_id, Some(1));
    assert_eq!(lead.submission_date, at(5));
}
