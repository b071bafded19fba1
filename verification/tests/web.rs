use headless_api::application::error::{ApplicationError, StorageError, StorageErrorKind};
use headless_api::application::lead_service::LeadService;
use headless_api::domain::company::{Company, CompanyResponse};
use headless_api::domain::concern::{Concern, ConcernResponse};
use headless_api::domain::contact::{Contact, ContactResponse};
use headless_api::domain::fingerprint::Fingerprint;
use headless_api::domain::lead::{
    LeadPayload, LeadRequest, LeadStatus, LeadStatusResponse, LeadUrgency, LeadUrgencyResponse,
    RecommendedPack, RecommendedPackResponse,
};
use headless_api::domain::note::{Note, NoteReason, NoteReasonResponse};
use headless_api::domain::position::{Position, PositionResponse};
use headless_api::domain::report::Report;
use headless_api::domain::sector::Sector;
use headless_api::infrastructure::memory::MemoryStore;
use headless_api::infrastructure::web::error::AppError;
use headless_api::infrastructure::web::lead_handler::{create_lead, CREATED};

fn at(seconds: i64) -> chrono::NaiveDateTime {
    chrono::DateTime::from_timestamp(seconds, 0).unwrap().naive_utc()
}

fn request() -> LeadRequest {
    LeadRequest {
        lead: LeadPayload {
            name: "Ada".to_string(),
            email: "ada@example.com".to_string(),
            phone: None,
            job_title: None,
            company_name: "Engines".to_string(),
            company_size: None,
            positions: vec![],
            concerns: vec![],
            problem_summary: None,
            estimated_users: None,
            urgency: "ce mois".to_string(),
            conscent: true,
        },
        altcha: "t".to_string(),
        visitor_id: None,
    }
}

#[test]
fn handler_answers_created() {
    let mut store = MemoryStore::new();
    store.seed_status("nouveau").unwrap();
    store.seed_urgency("ce mois").unwrap();
    store.seed_pack("conformité").unwrap();
    let mut service = LeadService::new(store);
    let (code, response) = create_lead(&mut service, request(), at(1)).unwrap();
    assert_eq!(code, 201);
    assert_eq!(code, CREATED);
    assert_eq!(response.contact.name, "Ada");
    assert_eq!(response.maturity_score, Some(0));
    assert_eq!(response.potential_score, Some(2));
}

#[test]
fn handler_passes_the_failure_on() {
    let mut service = LeadService::new(MemoryStore::new());
    let error = create_lead(&mut service, request(), at(1)).unwrap_err();
    assert_eq!(error.status_code(), 404);
    assert_eq!(error.error_message(), "recommended pack: conformité");
    assert!(matches!(error.error(), ApplicationError::NotFound(_)));
}

#[test]
fn status_codes_by_kind() {
    let database = ApplicationError::DatabaseError(StorageError::new(
        StorageErrorKind::Connectivity,
        "connection refused",
    ));
    assert_eq!(AppError::from(database).status_code(), 500);
    assert_eq!(AppError::from(ApplicationError::ValidationError("bad".to_string())).status_code(), 400);
    assert_eq!(AppError::from(ApplicationError::NotFound("gone".to_string())).status_code(), 404);
    assert_eq!(AppError::from(ApplicationError::UnexpectedError).status_code(), 500);
}

#[test]
fn body_messages_by_kind() {
    let database = ApplicationError::DatabaseError(StorageError::new(
        StorageErrorKind::Connectivity,
        "connection refused",
    ));
    assert_eq!(AppError::from(database).error_message(), "connection refused");
    assert_eq!(
        AppError::from(ApplicationError::ValidationError("bad".to_string())).error_message(),
        "bad"
    );
    assert_eq!(AppError::from(ApplicationError::NotFound("gone".to_string())).error_message(), "gone");
    assert_eq!(
        AppError::from(ApplicationError::UnexpectedError).error_message(),
        "An unexpected error occurred"
    );
}

#[test]
fn error_texts() {
    let database = ApplicationError::DatabaseError(StorageError::new(
        StorageErrorKind::Conflict,
        "could not serialize",
    ));
    assert_eq!(database.message(), "Database error: could not serialize");
    assert_eq!(ApplicationError::ValidationError("bad email".to_string()).message(), "Validation error: bad email");
    assert_eq!(ApplicationError::NotFound("status: nouveau".to_string()).message(), "Not found: status: nouveau");
    assert_eq!(ApplicationError::UnexpectedError.message(), "An unexpected error occurred");
}

#[test]
fn storage_error_converts_to_database_error() {
    let error = ApplicationError::from(StorageError::new(StorageErrorKind::Other, "x"));
    match error.clone() {
        ApplicationError::DatabaseError(e) => {
            assert_eq!(e.kind, StorageErrorKind::Other);
            assert_eq!(e.detail, "x");
        }
        other => panic!("unexpected error: {:?}", other),
    }
}

#[test]
fn rows_convert_to_responses() {
    let contact = Contact {
        id: 4,
        name: "Ada".to_string(),
        email: "ada@example.com".to_string(),
        phone: Some("1".to_string()),
        job_title: None,
        created_at: at(1),
        updated_at: at(2),
    };
    let shown = ContactResponse::from(contact.clone());
    assert_eq!(shown.id, 4);
    assert_eq!(shown.name, "Ada");
    assert_eq!(shown.email, "ada@example.com");
    assert_eq!(shown.phone, Some("1".to_string()));
    assert_eq!(shown.job_title, None);
    assert_eq!(shown.created_at, at(1));
    assert_eq!(shown.updated_at, at(2));

    let company = CompanyResponse::from(Company { id: 1, name: "A".to_string(), size: Some(3) });
    assert_eq!(company.name, "A");
    assert_eq!(company.size, Some(3));

    assert_eq!(PositionResponse::from(Position { id: 1, title: "Dev".to_string() }).title, "Dev");
    assert_eq!(
        ConcernResponse::from(Concern { id: 1, label: Some("x".to_string()) }).label,
        Some("x".to_string())
    );
    assert_eq!(ConcernResponse::from(Concern { id: 1, label: None }).label, None);
    assert_eq!(LeadStatusResponse::from(LeadStatus { id: 1, name: "nouveau".to_string() }).name, "nouveau");
    assert_eq!(
        LeadUrgencyResponse::from(LeadUrgency { id: 1, name: "ce mois".to_string() }).name,
        "ce mois"
    );
    assert_eq!(
        RecommendedPackResponse::from(RecommendedPack { id: 1, name: "confiance".to_string() }).name,
        "confiance"
    );
    assert_eq!(NoteReasonResponse::from(NoteReason { id: 1, name: "appel".to_string() }).name, "appel");
}

#[test]
fn rows_clone_to_equal_rows() {
    let mut components = serde_json::Map::new();
    components.insert("screen".to_string(), serde_json::Value::from(1080));
    let fingerprint = Fingerprint {
        visitor_id: "v".to_string(),
        components: serde_json::Value::Object(components),
        created_at: at(1),
    };
    let copy = fingerprint.clone();
    assert_eq!(copy.visitor_id, "v");
    assert_eq!(copy.components, fingerprint.components);
    assert_eq!(copy.created_at, at(1));

    let note = Note {
        id: 1,
        note: "called".to_string(),
        created_at: at(2),
        author_name: "Ada".to_string(),
        lead_id: 3,
        reason_id: 4,
    };
    let copy = note.clone();
    assert_eq!((copy.id, copy.lead_id, copy.reason_id), (1, 3, 4));
    assert_eq!(copy.note, "called");
    assert_eq!(copy.author_name, "Ada");
    assert_eq!(copy.created_at, at(2));

    let report =
        Report { id: 1, visitor_id: "v".to_string(), page: "/".to_string(), created_at: at(3) };
    let copy = report.clone();
    assert_eq!((copy.id, copy.visitor_id.as_str(), copy.page.as_str()), (1, "v", "/"));
    assert_eq!(copy.created_at, at(3));

    let sector = Sector { id: 2, name: Some("santé".to_string()) };
    let copy = sector.clone();
    assert_eq!(copy.id, 2);
    assert_eq!(copy.name, Some("santé".to_string()));
}

#[test]
fn reported_failures_are_sorted_by_constraint_and_code() {
    assert_eq!(StorageErrorKind::of_report(true, None), StorageErrorKind::Constraint);
    assert_eq!(StorageErrorKind::of_report(true, Some("40001")), StorageErrorKind::Constraint);
    assert_eq!(StorageErrorKind::of_report(false, Some("40001")), StorageErrorKind::Conflict);
    assert_eq!(StorageErrorKind::of_report(false, Some("40P01")), StorageErrorKind::Conflict);
    assert_eq!(StorageErrorKind::of_report(false, Some("23505")), StorageErrorKind::Other);
    assert_eq!(StorageErrorKind::of_report(false, None), StorageErrorKind::Other);
}
