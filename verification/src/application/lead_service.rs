//! The lead service: it takes a submission and runs its intake on the store.

use crate::application::intake::{lemma_step_progress, Intake};
use crate::application::protocol::{outcome_view, Action, Outcome};
use crate::application::run::{lemma_run_is_intake, resume};
use crate::application::transaction::intake;
use crate::application::triage::maturity_score;
use crate::domain::lead::{LeadPayload, LeadRequest, LeadRequestView};
use crate::domain::timestamp::Timestamp;
use crate::infrastructure::memory::{MemoryStore, StoreView};
use vstd::prelude::*;

verus! {

/// Takes submissions and stores them, one transaction each.
#[derive(Debug)]
pub struct LeadService {
    store: MemoryStore,
}

impl View for LeadService {
    type V = StoreView;

    closed spec fn view(&self) -> StoreView {
        self.store@
    }
}

impl LeadService {
    /// A service on a store.
    pub fn new(store: MemoryStore) -> (service: Self)
        ensures
            service@ == store@,
    {
        LeadService { store }
    }

    /// The store of the service.
    pub fn store(&self) -> (store: &MemoryStore)
        ensures
            store@ == self@,
    {
        &self.store
    }

    /// Gives the store back.
    pub fn into_store(self) -> (store: MemoryStore)
        ensures
            store@ == self@,
    {
        self.store
    }

    /// The maturity score of a payload: one point each for a company of more
    /// than 100, for more than 50 estimated users, for more than 2 concerns,
    /// and for a decision maker's job title.
    pub fn calculate_maturity_score(&self, payload: &LeadPayload) -> (score: i32)
        ensures
            score == maturity_score(payload@),
            0 <= score <= 5,
    {
        crate::application::triage::calculate_maturity_score(payload)
    }

    /// Takes a submission in: resolves its contact and company, looks up its
    /// pack, urgency and status, records the lead, and ties its positions and
    /// concerns to it, all in one transaction. `now` is the time the store
    /// stamps on what it writes.
    ///
    /// The store ends with every write and the response is returned, or the
    /// store ends as it began and the failure is returned.
    pub fn create_lead(
        &mut self,
        lead_payload: LeadPayload,
        altcha: String,
        visitor_id: Option<String>,
        now: Timestamp,
    ) -> (result: Outcome)
        requires
            old(self)@.wf(),
        ensures
            (final(self)@, outcome_view(result)) == intake(
                old(self)@,
                (LeadRequestView {
                    lead: lead_payload@,
                    altcha: altcha@,
                    visitor_id: visitor_id.deep_view(),
                }),
                now,
            ),
            final(self)@.wf(),
            result is Err ==> final(self)@ == old(self)@,
    {
        let ghost wanted = LeadRequestView {
            lead: lead_payload@,
            altcha: altcha@,
            visitor_id: visitor_id.deep_view(),
        };
        let ghost goal = intake(self@, wanted, now);
        let request = LeadRequest { lead: lead_payload, altcha, visitor_id };
        proof {
            lemma_run_is_intake(self@, wanted, now);
        }
        let started = Intake::start(request);
        let mut machine = started.0;
        let mut action = started.1;
        loop
            invariant
                self.store@.wf(),
                resume(self.store@, (machine@, action@), now) == goal,
                goal == intake(old(self)@, wanted, now),
                wanted == (LeadRequestView {
                    lead: lead_payload@,
                    altcha: altcha@,
                    visitor_id: visitor_id.deep_view(),
                }),
                goal.1 is Err ==> goal.0 == old(self)@,
            decreases
                    machine@.steps_left() + if action@ is Run {
                        1nat
                    } else {
                        0nat
                    },
        {
            match action {
                Action::Finish(outcome) => {
                    return outcome;
                },
                Action::Run(command) => {
                    proof {
                        lemma_step_progress(machine@, self.store@.apply(command@, now).1);
                    }
                    let reply = self.store.execute(command, now);
                    let next = machine.step(reply);
                    machine = next.0;
                    action = next.1;
                },
            }
        }
    }
}

} // verus!
