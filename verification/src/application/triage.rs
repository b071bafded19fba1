//! The triage rules that read a payload: the maturity score and the choice of
//! the recommended pack.

use crate::domain::lead::{decision_maker_title, has_decision_maker_title, LeadPayload, LeadPayloadView};
use crate::text::{contains, contains_text};
use vstd::prelude::*;

verus! {

/// One point where the value is known and above the threshold.
pub open spec fn above(value: Option<i32>, threshold: int) -> int {
    match value {
        Some(n) => if n > threshold {
            1
        } else {
            0
        },
        None => 0,
    }
}

/// The maturity score from its four inputs: one point each for a company of
/// more than 100, for more than 50 estimated users, for more than 2 concerns,
/// and for a decision maker; never more than 5.
pub open spec fn maturity_points(
    company_size: Option<i32>,
    estimated_users: Option<i32>,
    concern_count: nat,
    decision_maker: bool,
) -> int {
    let sum = above(company_size, 100) + above(estimated_users, 50) + if concern_count > 2 {
        1int
    } else {
        0int
    } + if decision_maker {
        1int
    } else {
        0int
    };
    if sum > 5 {
        5
    } else {
        sum
    }
}

/// The maturity score of a payload: how ready the submitter is, from 0 to 5.
pub open spec fn maturity_score(payload: LeadPayloadView) -> int {
    maturity_points(
        payload.company_size,
        payload.estimated_users,
        payload.concerns.len(),
        decision_maker_title(payload.job_title),
    )
}

/// The maturity score from a headcount, a user estimate, a number of concerns,
/// and whether the submitter is a decision maker.
pub fn maturity_score_of(
    company_size: Option<i32>,
    estimated_users: Option<i32>,
    concern_count: usize,
    decision_maker: bool,
) -> (score: i32)
    ensures
        score == maturity_points(company_size, estimated_users, concern_count as nat, decision_maker),
        0 <= score <= 5,
{
    let mut score: i32 = 0;
    if let Some(n) = company_size {
        if n > 100 {
            score = score + 1;
        }
    }
    if let Some(n) = estimated_users {
        if n > 50 {
            score = score + 1;
        }
    }
    if concern_count > 2 {
        score = score + 1;
    }
    if decision_maker {
        score = score + 1;
    }
    if score > 5 {
        5
    } else {
        score
    }
}

/// The maturity score of a payload.
pub fn calculate_maturity_score(payload: &LeadPayload) -> (score: i32)
    ensures
        score == maturity_score(payload@),
        0 <= score <= 5,
{
    let decision_maker = has_decision_maker_title(&payload.job_title);
    maturity_score_of(
        payload.company_size,
        payload.estimated_users,
        payload.concerns.len(),
        decision_maker,
    )
}

/// Some label contains the word, case-sensitively.
pub open spec fn any_mentions(labels: Seq<Seq<char>>, word: Seq<char>) -> bool {
    exists|i: int| 0 <= i < labels.len() && contains_text(#[trigger] labels[i], word)
}

/// The name of the pack to recommend: "confiance" where a concern mentions it,
/// else "croissance" where a concern mentions that, else "conformité".
pub open spec fn recommended_pack_name(labels: Seq<Seq<char>>) -> Seq<char> {
    if any_mentions(labels, "confiance"@) {
        "confiance"@
    } else if any_mentions(labels, "croissance"@) {
        "croissance"@
    } else {
        "conformité"@
    }
}

/// Whether some label contains the word, case-sensitively.
pub fn mentions(labels: &Vec<String>, word: &str) -> (r: bool)
    ensures
        r == any_mentions(labels.deep_view(), word@),
{
    let mut i: usize = 0;
    while i < labels.len()
        invariant
            i <= labels.len(),
            forall|k: int| 0 <= k < i ==> !contains_text(#[trigger] labels.deep_view()[k], word@),
        decreases labels.len() - i,
    {
        if contains(labels[i].as_str(), word) {
            assert(labels.deep_view()[i as int] == labels[i as int]@);
            return true;
        }
        assert(labels.deep_view()[i as int] == labels[i as int]@);
        i = i + 1;
    }
    false
}

/// The name of the pack to recommend for these concerns.
pub fn select_pack_name(labels: &Vec<String>) -> (name: String)
    ensures
        name@ == recommended_pack_name(labels.deep_view()),
{
    if mentions(labels, "confiance") {
        "confiance".to_owned()
    } else if mentions(labels, "croissance") {
        "croissance".to_owned()
    } else {
        "conformité".to_owned()
    }
}

} // verus!
