use headless_api::application::error::StorageErrorKind;
use headless_api::application::protocol::{Command, Reply};
use headless_api::infrastructure::memory::MemoryStore;

fn at(seconds: i64) -> chrono::NaiveDateTime {
    chrono::DateTime::from_timestamp(seconds, 0).unwrap().naive_utc()
}

fn insert_contact(email: &str) -> Command {
    Command::InsertContact {
        name: "Ada".to_string(),
        email: email.to_string(),
        phone: None,
        job_title: None,
    }
}

fn refused(reply: Reply) -> (StorageErrorKind, String) {
    match reply {
        Reply::Failed(e) => (e.kind, e.detail),
        other => panic!("not refused: {:?}", other),
    }
}

#[test]
fn new_store_is_empty() {
    let store = MemoryStore::new();
    assert_eq!(store.row_limit(), i32::MAX as usize);
    assert!(!store.in_transaction());
    assert!(store.contacts().is_empty());
    assert!(store.companies().is_empty());
    assert!(store.positions().is_empty());
    assert!(store.concerns().is_empty());
    assert!(store.leads().is_empty());
    assert!(store.lead_positions().is_empty());
    assert!(store.lead_concerns().is_empty());
}

#[test]
fn row_limit_is_capped_by_the_id_range() {
    assert_eq!(MemoryStore::with_row_limit(5).row_limit(), 5);
    assert_eq!(MemoryStore::with_row_limit(usize::MAX).row_limit(), i32::MAX as usize);
}

#[test]
fn seeding_twice_gives_the_same_row() {
    let mut store = MemoryStore::new();
    let first = store.seed_status("nouveau").unwrap();
    let other = store.seed_status("gagné").unwrap();
    let again = store.seed_status("nouveau").unwrap();
    assert_eq!(first.id, 1);
    assert_eq!(other.id, 2);
    assert_eq!(again.id, 1);
    assert_eq!(again.name, "nouveau");
    assert_eq!(store.seed_urgency("ce mois").unwrap().id, 1);
    assert_eq!(store.seed_pack("confiance").unwrap().id, 1);
    assert_eq!(store.seed_pack("croissance").unwrap().id, 2);
}

#[test]
fn seeding_a_full_table_is_refused() {
    let mut store = MemoryStore::with_row_limit(1);
    store.seed_pack("confiance").unwrap();
    let error = store.seed_pack("croissance").unwrap_err();
    assert_eq!(error.kind, StorageErrorKind::Capacity);
    assert_eq!(store.seed_pack("confiance").unwrap().id, 1);
}

#[test]
fn contacts_get_ids_in_order_and_are_found_by_email() {
    let mut store = MemoryStore::new();
    match store.execute(insert_contact("a@example.com"), at(1)) {
        Reply::Contact(Some(row)) => {
            assert_eq!(row.id, 1);
            assert_eq!(row.created_at, at(1));
            assert_eq!(row.updated_at, at(1));
        }
        other => panic!("unexpected reply: {:?}", other),
    }
    match store.execute(insert_contact("b@example.com"), at(2)) {
        Reply::Contact(Some(row)) => assert_eq!(row.id, 2),
        other => panic!("unexpected reply: {:?}", other),
    }
    match store.execute(Command::FindContact { email: "b@example.com".to_string() }, at(3)) {
        Reply::Contact(Some(row)) => assert_eq!(row.id, 2),
        other => panic!("unexpected reply: {:?}", other),
    }
    assert!(matches!(
        store.execute(Command::FindContact { email: "B@example.com".to_string() }, at(3)),
        Reply::Contact(None)
    ));
}

#[test]
fn a_second_contact_with_the_same_email_is_refused() {
    let mut store = MemoryStore::new();
    store.execute(insert_contact("a@example.com"), at(1));
    let (kind, detail) = refused(store.execute(insert_contact("a@example.com"), at(2)));
    assert_eq!(kind, StorageErrorKind::Constraint);
    assert_eq!(detail, "contacts");
    assert_eq!(store.contacts().len(), 1);
}

#[test]
fn a_full_table_refuses_a_row() {
    let mut store = MemoryStore::with_row_limit(1);
    store.execute(insert_contact("a@example.com"), at(1));
    let (kind, detail) = refused(store.execute(insert_contact("b@example.com"), at(2)));
    assert_eq!(kind, StorageErrorKind::Capacity);
    assert_eq!(detail, "contacts");
}

#[test]
fn updating_a_contact_keeps_id_email_and_creation_time() {
    let mut store = MemoryStore::new();
    store.execute(insert_contact("a@example.com"), at(1));
    let update = Command::UpdateContact {
        id: 1,
        name: "Grace".to_string(),
        phone: Some("42".to_string()),
        job_title: Some("CTO".to_string()),
    };
    match store.execute(update, at(9)) {
        Reply::Contact(Some(row)) => {
            assert_eq!(row.id, 1);
            assert_eq!(row.email, "a@example.com");
            assert_eq!(row.name, "Grace");
            assert_eq!(row.phone, Some("42".to_string()));
            assert_eq!(row.job_title, Some("CTO".to_string()));
            assert_eq!(row.created_at, at(1));
            assert_eq!(row.updated_at, at(9));
        }
        other => panic!("unexpected reply: {:?}", other),
    }
    assert_eq!(store.contacts()[0].name, "Grace");
}

#[test]
fn updating_a_row_that_is_not_there_returns_none() {
    let mut store = MemoryStore::new();
    let update =
        Command::UpdateContact { id: 1, name: "Grace".to_string(), phone: None, job_title: None };
    assert!(matches!(store.execute(update, at(1)), Reply::Contact(None)));
    assert!(matches!(
        store.execute(Command::UpdateCompany { id: 0, size: None }, at(1)),
        Reply::Company(None)
    ));
    assert!(matches!(
        store.execute(Command::UpdateCompany { id: -3, size: None }, at(1)),
        Reply::Company(None)
    ));
}

#[test]
fn companies_are_keyed_by_name() {
    let mut store = MemoryStore::new();
    let insert = Command::InsertCompany { name: "A".to_string(), size: Some(10) };
    assert!(matches!(store.execute(insert, at(1)), Reply::Company(Some(_))));
    let again = Command::InsertCompany { name: "A".to_string(), size: None };
    assert_eq!(refused(store.execute(again, at(1))).0, StorageErrorKind::Constraint);
    match store.execute(Command::UpdateCompany { id: 1, size: Some(20) }, at(2)) {
        Reply::Company(Some(row)) => {
            assert_eq!(row.name, "A");
            assert_eq!(row.size, Some(20));
        }
        other => panic!("unexpected reply: {:?}", other),
    }
    match store.execute(Command::FindCompany { name: "A".to_string() }, at(3)) {
        Reply::Company(Some(row)) => assert_eq!(row.size, Some(20)),
        other => panic!("unexpected reply: {:?}", other),
    }
}

#[test]
fn reference_rows_are_read_by_name() {
    let mut store = MemoryStore::new();
    store.seed_pack("confiance").unwrap();
    store.seed_urgency("ce mois").unwrap();
    store.seed_status("nouveau").unwrap();
    match store.execute(Command::FindPack { name: "confiance".to_string() }, at(1)) {
        Reply::Pack(Some(row)) => assert_eq!((row.id, row.name.as_str()), (1, "confiance")),
        other => panic!("unexpected reply: {:?}", other),
    }
    match store.execute(Command::FindUrgency { name: "ce mois".to_string() }, at(1)) {
        Reply::Urgency(Some(row)) => assert_eq!((row.id, row.name.as_str()), (1, "ce mois")),
        other => panic!("unexpected reply: {:?}", other),
    }
    match store.execute(Command::FindStatus { name: "nouveau".to_string() }, at(1)) {
        Reply::Status(Some(row)) => assert_eq!((row.id, row.name.as_str()), (1, "nouveau")),
        other => panic!("unexpected reply: {:?}", other),
    }
    assert!(matches!(
        store.execute(Command::FindPack { name: "croissance".to_string() }, at(1)),
        Reply::Pack(None)
    ));
    assert!(matches!(
        store.execute(Command::FindUrgency { name: "immédiat".to_string() }, at(1)),
        Reply::Urgency(None)
    ));
    assert!(matches!(
        store.execute(Command::FindStatus { name: "gagné".to_string() }, at(1)),
        Reply::Status(None)
    ));
}

#[test]
fn a_lead_must_refer_to_rows_that_exist() {
    let mut store = MemoryStore::new();
    let insert = Command::InsertLead {
        contact_id: 1,
        company_id: 1,
        problem_summary: None,
        estimated_users: None,
        urgency_id: 1,
        status_id: 1,
        maturity_score: 0,
        recommended_pack_id: 1,
        altcha: "t".to_string(),
        visitor_id: None,
    };
    let (kind, detail) = refused(store.execute(insert, at(1)));
    assert_eq!(kind, StorageErrorKind::Constraint);
    assert_eq!(detail, "leads");
    assert!(store.leads().is_empty());
}

#[test]
fn links_must_refer_to_rows_that_exist() {
    let mut store = MemoryStore::new();
    let (kind, detail) =
        refused(store.execute(Command::LinkPosition { lead_id: 1, position_id: 1 }, at(1)));
    assert_eq!((kind, detail.as_str()), (StorageErrorKind::Constraint, "lead_positions"));
    let (kind, detail) =
        refused(store.execute(Command::LinkConcern { lead_id: 1, concern_id: 1 }, at(1)));
    assert_eq!((kind, detail.as_str()), (StorageErrorKind::Constraint, "lead_concerns"));
}

#[test]
fn positions_and_concerns_are_keyed_by_text() {
    let mut store = MemoryStore::new();
    match store.execute(Command::InsertPosition { title: "Developer".to_string() }, at(1)) {
        Reply::Position(Some(row)) => assert_eq!((row.id, row.title.as_str()), (1, "Developer")),
        other => panic!("unexpected reply: {:?}", other),
    }
    assert_eq!(
        refused(store.execute(Command::InsertPosition { title: "Developer".to_string() }, at(1))).1,
        "positions"
    );
    assert!(matches!(
        store.execute(Command::FindPosition { title: "developer".to_string() }, at(1)),
        Reply::Position(None)
    ));
    match store.execute(Command::InsertConcern { label: "confiance".to_string() }, at(1)) {
        Reply::Concern(Some(row)) => {
            assert_eq!(row.id, 1);
            assert_eq!(row.label, Some("confiance".to_string()));
        }
        other => panic!("unexpected reply: {:?}", other),
    }
    assert_eq!(
        refused(store.execute(Command::InsertConcern { label: "confiance".to_string() }, at(1))).1,
        "concerns"
    );
    match store.execute(Command::FindConcern { label: "confiance".to_string() }, at(1)) {
        Reply::Concern(Some(row)) => assert_eq!(row.id, 1),
        other => panic!("unexpected reply: {:?}", other),
    }
    assert!(matches!(
        store.execute(Command::FindConcern { label: "autre".to_string() }, at(1)),
        Reply::Concern(None)
    ));
}

#[test]
fn rollback_restores_the_tables() {
    let mut store = MemoryStore::new();
    store.execute(insert_contact("a@example.com"), at(1));
    assert!(matches!(store.execute(Command::Begin, at(2)), Reply::Done));
    assert!(store.in_transaction());
    store.execute(insert_contact("b@example.com"), at(2));
    let update =
        Command::UpdateContact { id: 1, name: "Grace".to_string(), phone: None, job_title: None };
    store.execute(update, at(2));
    assert_eq!(store.contacts().len(), 2);
    assert!(matches!(store.execute(Command::Rollback, at(3)), Reply::Done));
    assert!(!store.in_transaction());
    assert_eq!(store.contacts().len(), 1);
    assert_eq!(store.contacts()[0].name, "Ada");
    assert_eq!(store.contacts()[0].updated_at, at(1));
}

#[test]
fn commit_keeps_the_writes() {
    let mut store = MemoryStore::new();
    store.execute(Command::Begin, at(1));
    store.execute(insert_contact("a@example.com"), at(1));
    assert!(matches!(store.execute(Command::Commit, at(2)), Reply::Done));
    assert!(!store.in_transaction());
    assert_eq!(store.contacts().len(), 1);
    assert_eq!(refused(store.execute(Command::Rollback, at(3))).0, StorageErrorKind::Transaction);
    assert_eq!(store.contacts().len(), 1);
}

#[test]
fn transactions_do_not_nest() {
    let mut store = MemoryStore::new();
    assert_eq!(
        refused(store.execute(Command::Commit, at(1))),
        (StorageErrorKind::Transaction, "commit".to_string())
    );
    store.execute(Command::Begin, at(1));
    assert_eq!(
        refused(store.execute(Command::Begin, at(1))),
        (StorageErrorKind::Transaction, "begin".to_string())
    );
    assert!(store.in_transaction());
}
