use headless_api::application::lead_service::LeadService;
use headless_api::domain::lead::{LeadPayload, LeadRequest};
use headless_api::infrastructure::memory::MemoryStore;
use headless_api::infrastructure::web::lead_handler::create_lead;

fn spawn_app() -> LeadService {
    let mut store = MemoryStore::new();
    store.seed_status("nouveau").unwrap();
    store.seed_urgency("ce mois").unwrap();
    store.seed_pack("conformité").unwrap();
    store.seed_pack("confiance").unwrap();
    store.seed_pack("croissance").unwrap();
    LeadService::new(store)
}

#[test]
fn test_create_lead_success() {
    let mut service = spawn_app();

    let payload = LeadPayload {
        name: "Test User".to_string(),
        email: "test.user@example.com".to_string(),
        phone: Some("1234567890".to_string()),
        job_title: Some("Developer".to_string()),
        company_name: "Test Inc.".to_string(),
        company_size: Some(50),
        positions: vec!["Developer".to_string(), "Manager".to_string()],
        concerns: vec!["confiance".to_string(), "sécurité".to_string()],
        problem_summary: Some("This is a test problem".to_string()),
        estimated_users: Some(100),
        urgency: "ce mois".to_string(),
        conscent: true,
    };

    let request = LeadRequest {
        lead: payload,
        altcha: "dummy_altcha_solution".to_string(),
        visitor_id: Some("dummy_visitor_id".to_string()),
    };

    let now = chrono::DateTime::from_timestamp(1_700_000_000, 0).unwrap().naive_utc();
    let (status, lead_response) = match create_lead(&mut service, request, now) {
        Ok(answer) => answer,
        Err(error) => panic!(
            "Request failed with status code {}: {}",
            error.status_code(),
            error.error_message()
        ),
    };
    assert_eq!(status, 201);
    assert_eq!(lead_response.contact.name, "Test User");
    assert_eq!(lead_response.company.name, "Test Inc.");
    assert_eq!(lead_response.urgency.name, "ce mois");
}
