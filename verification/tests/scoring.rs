use headless_api::application::lead_service::LeadService;
use headless_api::application::triage::{
    calculate_maturity_score, maturity_score_of, mentions, select_pack_name,
};
use headless_api::domain::company::Company;
use headless_api::domain::contact::Contact;
use headless_api::domain::lead::{
    calculate_potential_score, has_decision_maker_title, is_decision_maker, potential_score_of,
    LeadPayload, LeadUrgency,
};
use headless_api::infrastructure::memory::MemoryStore;
use headless_api::text::{chars_of, contains, same_text};

fn at(seconds: i64) -> chrono::NaiveDateTime {
    chrono::DateTime::from_timestamp(seconds, 0).unwrap().naive_utc()
}

fn payload(
    company_size: Option<i32>,
    estimated_users: Option<i32>,
    concerns: Vec<&str>,
    job_title: Option<&str>,
) -> LeadPayload {
    LeadPayload {
        name: "Ada".to_string(),
        email: "ada@example.com".to_string(),
        phone: None,
        job_title: job_title.map(|t| t.to_string()),
        company_name: "Engines".to_string(),
        company_size,
        positions: vec![],
        concerns: concerns.into_iter().map(|c| c.to_string()).collect(),
        problem_summary: None,
        estimated_users,
        urgency: "ce mois".to_string(),
        conscent: true,
    }
}

fn company(size: Option<i32>) -> Company {
    Company { id: 1, name: "Engines".to_string(), size }
}

fn urgency(name: &str) -> LeadUrgency {
    LeadUrgency { id: 1, name: name.to_string() }
}

fn contact(job_title: Option<&str>) -> Contact {
    Contact {
        id: 1,
        name: "Ada".to_string(),
        email: "ada@example.com".to_string(),
        phone: None,
        job_title: job_title.map(|t| t.to_string()),
        created_at: at(0),
        updated_at: at(0),
    }
}

#[test]
fn maturity_is_zero_when_nothing_counts() {
    assert_eq!(calculate_maturity_score(&payload(None, None, vec![], None)), 0);
}

#[test]
fn maturity_counts_each_rule_once() {
    let p = payload(Some(150), Some(60), vec!["a", "b", "c"], Some("CTO"));
    assert_eq!(calculate_maturity_score(&p), 4);
}

#[test]
fn maturity_through_the_service_is_the_same() {
    let service = LeadService::new(MemoryStore::new());
    let p = payload(Some(150), Some(60), vec!["a", "b", "c"], Some("CTO"));
    assert_eq!(service.calculate_maturity_score(&p), 4);
    assert_eq!(service.calculate_maturity_score(&payload(None, None, vec![], None)), 0);
}

#[test]
fn maturity_thresholds_are_strict() {
    assert_eq!(calculate_maturity_score(&payload(Some(100), None, vec![], None)), 0);
    assert_eq!(calculate_maturity_score(&payload(Some(101), None, vec![], None)), 1);
    assert_eq!(calculate_maturity_score(&payload(None, Some(50), vec![], None)), 0);
    assert_eq!(calculate_maturity_score(&payload(None, Some(51), vec![], None)), 1);
    assert_eq!(calculate_maturity_score(&payload(None, None, vec!["a", "b"], None)), 0);
    assert_eq!(calculate_maturity_score(&payload(None, None, vec!["a", "b", "c"], None)), 1);
}

#[test]
fn maturity_reads_the_job_title_without_case() {
    assert_eq!(calculate_maturity_score(&payload(None, None, vec![], Some("Sales MANAGER"))), 1);
    assert_eq!(calculate_maturity_score(&payload(None, None, vec![], Some("Developer"))), 0);
}

#[test]
fn maturity_stays_within_bounds() {
    for size in [None, Some(0), Some(100), Some(101), Some(i32::MAX)] {
        for users in [None, Some(-1), Some(50), Some(51)] {
            for title in [None, Some("ceo"), Some("intern")] {
                let score = calculate_maturity_score(&payload(size, users, vec!["a", "b", "c"], title));
                assert!((0..=5).contains(&score));
            }
        }
    }
}

#[test]
fn maturity_from_parts() {
    assert_eq!(maturity_score_of(Some(150), Some(60), 3, true), 4);
    assert_eq!(maturity_score_of(None, None, 0, false), 0);
    assert_eq!(maturity_score_of(Some(150), None, 3, false), 2);
}

#[test]
fn pack_is_confiance_when_a_concern_mentions_it() {
    let labels = vec!["croissance".to_string(), "manque de confiance".to_string()];
    assert_eq!(select_pack_name(&labels), "confiance");
}

#[test]
fn pack_is_croissance_without_confiance() {
    assert_eq!(select_pack_name(&vec!["croissance".to_string()]), "croissance");
}

#[test]
fn pack_defaults_to_conformite() {
    assert_eq!(select_pack_name(&vec![]), "conformité");
    assert_eq!(select_pack_name(&vec!["sécurité".to_string()]), "conformité");
}

#[test]
fn pack_selection_is_case_sensitive() {
    assert_eq!(select_pack_name(&vec!["Confiance".to_string()]), "conformité");
    assert_eq!(select_pack_name(&vec!["CROISSANCE".to_string(), "croissance".to_string()]), "croissance");
}

#[test]
fn mentions_looks_at_every_label() {
    let labels = vec!["a".to_string(), "b".to_string(), "xconfiancey".to_string()];
    assert!(mentions(&labels, "confiance"));
    assert!(!mentions(&labels, "croissance"));
    assert!(!mentions(&vec![], "confiance"));
}

#[test]
fn potential_of_a_large_urgent_lead_with_a_director() {
    let score = calculate_potential_score(&company(Some(1500)), &urgency("immédiat"), &contact(Some("Director")));
    assert_eq!(score, 8);
}

#[test]
fn potential_size_tiers() {
    let none = contact(None);
    assert_eq!(calculate_potential_score(&company(None), &urgency("plus tard"), &none), 0);
    assert_eq!(calculate_potential_score(&company(Some(0)), &urgency("plus tard"), &none), 1);
    assert_eq!(calculate_potential_score(&company(Some(250)), &urgency("plus tard"), &none), 1);
    assert_eq!(calculate_potential_score(&company(Some(251)), &urgency("plus tard"), &none), 2);
    assert_eq!(calculate_potential_score(&company(Some(1000)), &urgency("plus tard"), &none), 2);
    assert_eq!(calculate_potential_score(&company(Some(1001)), &urgency("plus tard"), &none), 3);
}

#[test]
fn potential_urgency_is_matched_exactly() {
    let none = contact(None);
    assert_eq!(calculate_potential_score(&company(None), &urgency("immédiat"), &none), 3);
    assert_eq!(calculate_potential_score(&company(None), &urgency("ce mois"), &none), 2);
    assert_eq!(calculate_potential_score(&company(None), &urgency("Immédiat"), &none), 0);
    assert_eq!(calculate_potential_score(&company(None), &urgency("ce mois "), &none), 0);
}

#[test]
fn potential_from_parts() {
    assert_eq!(potential_score_of(Some(1500), "immédiat", true), 8);
    assert_eq!(potential_score_of(Some(50), "ce mois", false), 3);
    assert_eq!(potential_score_of(None, "", false), 0);
}

#[test]
fn decision_maker_words() {
    assert!(is_decision_maker("ceo"));
    assert!(is_decision_maker("deputy cto"));
    assert!(is_decision_maker("office manager"));
    assert!(is_decision_maker("director of sales"));
    assert!(!is_decision_maker("developer"));
    assert!(!is_decision_maker("CEO"));
    assert!(!is_decision_maker(""));
}

#[test]
fn job_title_is_lowercased_before_it_is_read() {
    assert!(has_decision_maker_title(&Some("Director".to_string())));
    assert!(has_decision_maker_title(&Some("CEO".to_string())));
    assert!(!has_decision_maker_title(&Some("Developer".to_string())));
    assert!(!has_decision_maker_title(&None));
}

#[test]
fn contains_finds_a_part_anywhere() {
    assert!(contains("confiance", "confiance"));
    assert!(contains("la confiance", "confiance"));
    assert!(contains("confiance!", "confiance"));
    assert!(contains("anything", ""));
    assert!(contains("", ""));
    assert!(!contains("", "a"));
    assert!(!contains("confianc", "confiance"));
    assert!(!contains("Confiance", "confiance"));
    assert!(contains("sécurité", "rité"));
    assert!(!contains("securite", "é"));
}

#[test]
fn same_text_compares_characters() {
    assert!(same_text("immédiat", "immédiat"));
    assert!(!same_text("immédiat", "immediat"));
    assert!(same_text("", ""));
    assert!(!same_text("a", ""));
}

#[test]
fn chars_of_keeps_order() {
    assert_eq!(chars_of("é!a"), vec!['é', '!', 'a']);
    assert_eq!(chars_of(""), Vec::<char>::new());
}
