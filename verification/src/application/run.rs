//! A run of the intake on the store in memory: the machine's commands applied
//! one after the other. The proofs here show that such a run amounts to one
//! `intake`: every write and the response, or no write and the failure.

use crate::application::error::ApplicationErrorView;
use crate::application::intake::{initial_status_name, IntakeView, ResolvedView, StageView};
use crate::application::protocol::{ActionView, CommandView, OutcomeView, ReplyView};
use crate::application::transaction::{
    intake,
    link_all,
    link_concern,
    link_concerns,
    link_position,
    link_positions,
    record_lead,
    references,
    resolve_company,
    resolve_contact,
    transaction,
};
use crate::application::triage::recommended_pack_name;
use crate::domain::company::CompanyView;
use crate::domain::concern::ConcernView;
use crate::domain::contact::ContactView;
use crate::domain::lead::{LeadRequestView, LeadResponseView, ReferenceView};
use crate::domain::position::PositionView;
use crate::domain::timestamp::Timestamp;
use crate::infrastructure::memory::{
    lemma_named_refers,
    refers,
    resized_company,
    revised_contact,
    StoreView,
    TablesView,
};
use vstd::prelude::*;

verus! {

/// The store and the outcome at the end of a run that stands at `machine` with
/// `action` still to be carried out.
pub open spec fn run(store: StoreView, machine: IntakeView, action: ActionView, now: Timestamp) -> (
    StoreView,
    OutcomeView,
)
    decreases machine.steps_left() + if action is Run {
        1nat
    } else {
        0nat
    },
{
    match action {
        ActionView::Finish(outcome) => (store, outcome),
        ActionView::Run(command) => {
            let applied = store.apply(command, now);
            let next = machine.step(applied.1);
            run(applied.0, next.0, next.1, now)
        },
    }
}

/// A store with no transaction open.
pub open spec fn idle(tables: TablesView, limit: int) -> StoreView {
    StoreView { tables, saved: None, limit }
}

/// A store inside a transaction that began on `before`.
pub open spec fn during(before: TablesView, tables: TablesView, limit: int) -> StoreView {
    StoreView { tables, saved: Some(before), limit }
}

/// The end of the run that goes on from a state of the machine.
pub open spec fn resume(store: StoreView, state: (IntakeView, ActionView), now: Timestamp) -> (
    StoreView,
    OutcomeView,
) {
    run(store, state.0, state.1, now)
}

/// Giving up inside a transaction puts the tables back and ends with the error.
proof fn lemma_abort(
    before: TablesView,
    tables: TablesView,
    limit: int,
    request: LeadRequestView,
    error: ApplicationErrorView,
    now: Timestamp,
)
    ensures
        resume(during(before, tables, limit), request.abort(error), now) == (
            idle(before, limit),
            Err::<LeadResponseView, ApplicationErrorView>(error),
        ),
{
    reveal_with_fuel(run, 3);
}

/// The commit inside a transaction keeps the tables and ends with the response.
proof fn lemma_commit(
    before: TablesView,
    tables: TablesView,
    limit: int,
    request: LeadRequestView,
    response: LeadResponseView,
    now: Timestamp,
)
    ensures
        resume(
            during(before, tables, limit),
            request.goes(StageView::Committing { response }, CommandView::Commit),
            now,
        ) == (idle(tables, limit), Ok::<LeadResponseView, ApplicationErrorView>(response)),
{
    reveal_with_fuel(run, 3);
}

/// The contact stage of a run resolves the contact, or rolls back.
proof fn lemma_contact_stage(
    before: TablesView,
    tables: TablesView,
    limit: int,
    request: LeadRequestView,
    now: Timestamp,
)
    requires
        tables.wf(limit),
        0 <= limit <= i32::MAX,
    ensures
        (match resolve_contact(tables, limit, request.lead, now) {
            Err(error) => resume(
                during(before, tables, limit),
                request.goes(
                    StageView::ContactLookup,
                    CommandView::FindContact { email: request.lead.email },
                ),
                now,
            ) == (idle(before, limit), Err::<LeadResponseView, ApplicationErrorView>(error)),
            Ok((next, contact)) => {
                &&& next.wf(limit)
                &&& refers(contact.id, next.contacts.len())
                &&& resume(
                    during(before, tables, limit),
                    request.goes(
                        StageView::ContactLookup,
                        CommandView::FindContact { email: request.lead.email },
                    ),
                    now,
                ) == resume(
                    during(before, next, limit),
                    request.goes(
                        StageView::CompanyLookup { contact },
                        CommandView::FindCompany { name: request.lead.company_name },
                    ),
                    now,
                )
            },
        }),
{
    let lead = request.lead;
    let store = during(before, tables, limit);
    reveal_with_fuel(run, 3);
    match tables.contact_by_email(lead.email) {
        Some(found) => {
            let at = tables.emails().index_of(lead.email);
            assert(tables.emails()[at] == lead.email);
            assert(found == tables.contacts[at]);
            assert(found.id == at + 1);
            let row = revised_contact(
                found,
                lead.name,
                lead.phone,
                lead.job_title,
                now,
            );
            tables.lemma_set_contact(limit, at, row);
        },
        None => {
            if tables.contacts.len() >= limit {
                lemma_abort(before, tables, limit, request, resolve_contact(tables, limit, lead, now)->Err_0, now);
            } else {
                let row = tables.new_contact(lead.name, lead.email, lead.phone, lead.job_title, now);
                tables.lemma_add_contact(limit, row);
            }
        },
    }
}

/// The company stage of a run resolves the company, or rolls back.
proof fn lemma_company_stage(
    before: TablesView,
    tables: TablesView,
    limit: int,
    request: LeadRequestView,
    contact: ContactView,
    now: Timestamp,
)
    requires
        tables.wf(limit),
        0 <= limit <= i32::MAX,
    ensures
        (match resolve_company(tables, limit, request.lead) {
            Err(error) => resume(
                during(before, tables, limit),
                request.goes(
                    StageView::CompanyLookup { contact },
                    CommandView::FindCompany { name: request.lead.company_name },
                ),
                now,
            ) == (idle(before, limit), Err::<LeadResponseView, ApplicationErrorView>(error)),
            Ok((next, company)) => {
                &&& next.wf(limit)
                &&& refers(company.id, next.companies.len())
                &&& next.contacts == tables.contacts
                &&& resume(
                    during(before, tables, limit),
                    request.goes(
                        StageView::CompanyLookup { contact },
                        CommandView::FindCompany { name: request.lead.company_name },
                    ),
                    now,
                ) == resume(
                    during(before, next, limit),
                    request.goes(
                        StageView::PackLookup { contact, company },
                        CommandView::FindPack { name: recommended_pack_name(request.lead.concerns) },
                    ),
                    now,
                )
            },
        }),
{
    let lead = request.lead;
    reveal_with_fuel(run, 3);
    match tables.company_by_name(lead.company_name) {
        Some(found) => {
            let at = tables.company_names().index_of(lead.company_name);
            assert(tables.company_names()[at] == lead.company_name);
            assert(found == tables.companies[at]);
            assert(found.id == at + 1);
            let row = resized_company(found, lead.company_size);
            tables.lemma_set_company(limit, at, row);
        },
        None => {
            if tables.companies.len() >= limit {
                lemma_abort(before, tables, limit, request, resolve_company(tables, limit, lead)->Err_0, now);
            } else {
                let row = tables.new_company(lead.company_name, lead.company_size);
                tables.lemma_add_company(limit, row);
            }
        },
    }
}

/// The reference stages of a run find the pack, the urgency and the status, or
/// roll back on the first that is missing.
proof fn lemma_reference_stages(
    before: TablesView,
    tables: TablesView,
    limit: int,
    request: LeadRequestView,
    contact: ContactView,
    company: CompanyView,
    now: Timestamp,
)
    requires
        tables.wf(limit),
        0 <= limit <= i32::MAX,
    ensures
        (match references(tables, request.lead) {
            Err(error) => resume(
                during(before, tables, limit),
                request.goes(
                    StageView::PackLookup { contact, company },
                    CommandView::FindPack { name: recommended_pack_name(request.lead.concerns) },
                ),
                now,
            ) == (idle(before, limit), Err::<LeadResponseView, ApplicationErrorView>(error)),
            Ok((pack, urgency, status)) => {
                &&& refers(pack.id, tables.packs.len())
                &&& refers(urgency.id, tables.urgencies.len())
                &&& refers(status.id, tables.statuses.len())
                &&& resume(
                    during(before, tables, limit),
                    request.goes(
                        StageView::PackLookup { contact, company },
                        CommandView::FindPack { name: recommended_pack_name(request.lead.concerns) },
                    ),
                    now,
                ) == resume(
                    during(before, tables, limit),
                    request.after_status_lookup(
                        contact,
                        company,
                        pack,
                        urgency,
                        ReplyView::Status(Some(status)),
                    ),
                    now,
                )
            },
        }),
{
    let lead = request.lead;
    reveal_with_fuel(run, 4);
    lemma_named_refers(tables.packs, recommended_pack_name(lead.concerns));
    lemma_named_refers(tables.urgencies, lead.urgency);
    lemma_named_refers(tables.statuses, initial_status_name());
    if references(tables, lead) is Err {
        lemma_abort(before, tables, limit, request, references(tables, lead)->Err_0, now);
    }
}

/// The lead stage of a run adds the lead row, or rolls back.
proof fn lemma_lead_stage(
    before: TablesView,
    tables: TablesView,
    limit: int,
    request: LeadRequestView,
    contact: ContactView,
    company: CompanyView,
    pack: ReferenceView,
    urgency: ReferenceView,
    status: ReferenceView,
    now: Timestamp,
)
    requires
        tables.wf(limit),
        0 <= limit <= i32::MAX,
        refers(contact.id, tables.contacts.len()),
        refers(company.id, tables.companies.len()),
        refers(pack.id, tables.packs.len()),
        refers(urgency.id, tables.urgencies.len()),
        refers(status.id, tables.statuses.len()),
    ensures
        (match record_lead(tables, limit, request, contact, company, pack, urgency, status, now) {
            Err(error) => resume(
                during(before, tables, limit),
                request.after_status_lookup(
                    contact,
                    company,
                    pack,
                    urgency,
                    ReplyView::Status(Some(status)),
                ),
                now,
            ) == (idle(before, limit), Err::<LeadResponseView, ApplicationErrorView>(error)),
            Ok((next, lead)) => {
                &&& next.wf(limit)
                &&& refers(lead.id, next.leads.len())
                &&& resume(
                    during(before, tables, limit),
                    request.after_status_lookup(
                        contact,
                        company,
                        pack,
                        urgency,
                        ReplyView::Status(Some(status)),
                    ),
                    now,
                ) == resume(
                    during(before, next, limit),
                    request.next_position(
                        ResolvedView { contact, company, pack, urgency, status, lead },
                        Seq::empty(),
                    ),
                    now,
                )
            },
        }),
{
    reveal_with_fuel(run, 3);
    match record_lead(tables, limit, request, contact, company, pack, urgency, status, now) {
        Err(error) => {
            lemma_abort(before, tables, limit, request, error, now);
        },
        Ok((next, lead)) => {
            tables.lemma_add_lead(limit, lead);
        },
    }
}

/// The three stages of one title resolve its position and tie it to the lead,
/// or roll back.
proof fn lemma_position_stages(
    before: TablesView,
    tables: TablesView,
    limit: int,
    request: LeadRequestView,
    rows: ResolvedView,
    done: Seq<PositionView>,
    now: Timestamp,
)
    requires
        tables.wf(limit),
        0 <= limit <= i32::MAX,
        refers(rows.lead.id, tables.leads.len()),
        done.len() < request.lead.positions.len(),
    ensures
        (match link_position(tables, limit, rows.lead.id, request.lead.positions[done.len() as int]) {
            Err(error) => resume(
                during(before, tables, limit),
                request.next_position(rows, done),
                now,
            ) == (idle(before, limit), Err::<LeadResponseView, ApplicationErrorView>(error)),
            Ok((next, row)) => {
                &&& next.wf(limit)
                &&& refers(rows.lead.id, next.leads.len())
                &&& resume(during(before, tables, limit), request.next_position(rows, done), now)
                    == resume(
                    during(before, next, limit),
                    request.next_position(rows, done.push(row)),
                    now,
                )
            },
        }),
{
    let title = request.lead.positions[done.len() as int];
    let lead_id = rows.lead.id;
    reveal_with_fuel(run, 4);
    match tables.position_by_title(title) {
        Some(found) => {
            let at = tables.titles().index_of(title);
            assert(tables.titles()[at] == title);
            assert(found == tables.positions[at]);
            assert(found.id == at + 1);
            if tables.lead_positions.len() >= limit {
                lemma_abort(before, tables, limit, request, link_position(tables, limit, lead_id, title)->Err_0, now);
            } else {
                tables.lemma_add_position_link(limit, lead_id, found.id);
            }
        },
        None => {
            if tables.positions.len() >= limit {
                lemma_abort(before, tables, limit, request, link_position(tables, limit, lead_id, title)->Err_0, now);
            } else {
                let row = tables.new_position(title);
                tables.lemma_add_position(limit, row);
                let added = tables.add_position(row);
                if tables.lead_positions.len() >= limit {
                    lemma_abort(before, added, limit, request, link_position(tables, limit, lead_id, title)->Err_0, now);
                } else {
                    added.lemma_add_position_link(limit, lead_id, row.id);
                }
            }
        },
    }
}

/// The position stages of a run link every title that is left, or roll back.
proof fn lemma_positions(
    before: TablesView,
    tables: TablesView,
    limit: int,
    request: LeadRequestView,
    rows: ResolvedView,
    done: Seq<PositionView>,
    now: Timestamp,
)
    requires
        tables.wf(limit),
        0 <= limit <= i32::MAX,
        refers(rows.lead.id, tables.leads.len()),
    ensures
        (match link_positions(tables, limit, rows.lead.id, request.lead.positions, done) {
            Err(error) => resume(
                during(before, tables, limit),
                request.next_position(rows, done),
                now,
            ) == (idle(before, limit), Err::<LeadResponseView, ApplicationErrorView>(error)),
            Ok((next, all)) => {
                &&& next.wf(limit)
                &&& refers(rows.lead.id, next.leads.len())
                &&& resume(during(before, tables, limit), request.next_position(rows, done), now)
                    == resume(
                    during(before, next, limit),
                    request.next_concern(rows, all, Seq::empty()),
                    now,
                )
            },
        }),
    decreases request.lead.positions.len() - done.len(),
{
    if done.len() < request.lead.positions.len() {
        lemma_position_stages(before, tables, limit, request, rows, done, now);
        match link_position(tables, limit, rows.lead.id, request.lead.positions[done.len() as int]) {
            Ok((next, row)) => {
                lemma_positions(before, next, limit, request, rows, done.push(row), now);
            },
            Err(error) => {},
        }
    }
}

/// The three stages of one label resolve its concern and tie it to the lead,
/// or roll back.
proof fn lemma_concern_stages(
    before: TablesView,
    tables: TablesView,
    limit: int,
    request: LeadRequestView,
    rows: ResolvedView,
    positions: Seq<PositionView>,
    done: Seq<ConcernView>,
    now: Timestamp,
)
    requires
        tables.wf(limit),
        0 <= limit <= i32::MAX,
        refers(rows.lead.id, tables.leads.len()),
        done.len() < request.lead.concerns.len(),
    ensures
        (match link_concern(tables, limit, rows.lead.id, request.lead.concerns[done.len() as int]) {
            Err(error) => resume(
                during(before, tables, limit),
                request.next_concern(rows, positions, done),
                now,
            ) == (idle(before, limit), Err::<LeadResponseView, ApplicationErrorView>(error)),
            Ok((next, row)) => {
                &&& next.wf(limit)
                &&& refers(rows.lead.id, next.leads.len())
                &&& resume(
                    during(before, tables, limit),
                    request.next_concern(rows, positions, done),
                    now,
                ) == resume(
                    during(before, next, limit),
                    request.next_concern(rows, positions, done.push(row)),
                    now,
                )
            },
        }),
{
    let label = request.lead.concerns[done.len() as int];
    let lead_id = rows.lead.id;
    reveal_with_fuel(run, 4);
    match tables.concern_by_label(label) {
        Some(found) => {
            let at = tables.labels().index_of(Some(label));
            assert(tables.labels()[at] == Some(label));
            assert(found == tables.concerns[at]);
            assert(found.id == at + 1);
            if tables.lead_concerns.len() >= limit {
                lemma_abort(before, tables, limit, request, link_concern(tables, limit, lead_id, label)->Err_0, now);
            } else {
                tables.lemma_add_concern_link(limit, lead_id, found.id);
            }
        },
        None => {
            if tables.concerns.len() >= limit {
                lemma_abort(before, tables, limit, request, link_concern(tables, limit, lead_id, label)->Err_0, now);
            } else {
                let row = tables.new_concern(label);
                tables.lemma_add_concern(limit, row);
                let added = tables.add_concern(row);
                if tables.lead_concerns.len() >= limit {
                    lemma_abort(before, added, limit, request, link_concern(tables, limit, lead_id, label)->Err_0, now);
                } else {
                    added.lemma_add_concern_link(limit, lead_id, row.id);
                }
            }
        },
    }
}

/// The concern stages of a run link every label that is left and commit, or
/// roll back.
proof fn lemma_concerns(
    before: TablesView,
    tables: TablesView,
    limit: int,
    request: LeadRequestView,
    rows: ResolvedView,
    positions: Seq<PositionView>,
    done: Seq<ConcernView>,
    now: Timestamp,
)
    requires
        tables.wf(limit),
        0 <= limit <= i32::MAX,
        refers(rows.lead.id, tables.leads.len()),
    ensures
        (match link_concerns(tables, limit, rows.lead.id, request.lead.concerns, done) {
            Err(error) => resume(
                during(before, tables, limit),
                request.next_concern(rows, positions, done),
                now,
            ) == (idle(before, limit), Err::<LeadResponseView, ApplicationErrorView>(error)),
            Ok((next, all)) => {
                &&& next.wf(limit)
                &&& resume(
                    during(before, tables, limit),
                    request.next_concern(rows, positions, done),
                    now,
                ) == (
                    idle(next, limit),
                    Ok::<LeadResponseView, ApplicationErrorView>(rows.response(positions, all)),
                )
            },
        }),
    decreases request.lead.concerns.len() - done.len(),
{
    if done.len() < request.lead.concerns.len() {
        lemma_concern_stages(before, tables, limit, request, rows, positions, done, now);
        match link_concern(tables, limit, rows.lead.id, request.lead.concerns[done.len() as int]) {
            Ok((next, row)) => {
                lemma_concerns(before, next, limit, request, rows, positions, done.push(row), now);
            },
            Err(error) => {},
        }
    } else {
        lemma_commit(before, tables, limit, request, rows.response(positions, done), now);
    }
}

/// The linking stages of a run tie every position and every concern to the
/// lead and commit, or roll back.
proof fn lemma_linking(
    before: TablesView,
    tables: TablesView,
    limit: int,
    request: LeadRequestView,
    rows: ResolvedView,
    now: Timestamp,
)
    requires
        tables.wf(limit),
        0 <= limit <= i32::MAX,
        refers(rows.lead.id, tables.leads.len()),
    ensures
        (match link_all(tables, limit, request, rows) {
            Err(error) => resume(
                during(before, tables, limit),
                request.next_position(rows, Seq::empty()),
                now,
            ) == (idle(before, limit), Err::<LeadResponseView, ApplicationErrorView>(error)),
            Ok((next, response)) => {
                &&& next.wf(limit)
                &&& resume(
                    during(before, tables, limit),
                    request.next_position(rows, Seq::empty()),
                    now,
                ) == (idle(next, limit), Ok::<LeadResponseView, ApplicationErrorView>(response))
            },
        }),
{
    lemma_positions(before, tables, limit, request, rows, Seq::empty(), now);
    match link_positions(tables, limit, rows.lead.id, request.lead.positions, Seq::empty()) {
        Ok((linked, positions)) => {
            lemma_concerns(before, linked, limit, request, rows, positions, Seq::empty(), now);
        },
        Err(error) => {},
    }
}

/// The stages of a run inside its transaction amount to the transaction as a
/// whole: all of its writes and the response, or the tables as they were and
/// the failure.
proof fn lemma_stages(tables: TablesView, limit: int, request: LeadRequestView, now: Timestamp)
    requires
        tables.wf(limit),
        0 <= limit <= i32::MAX,
    ensures
        (match transaction(tables, limit, request, now) {
            Err(error) => resume(
                during(tables, tables, limit),
                request.goes(
                    StageView::ContactLookup,
                    CommandView::FindContact { email: request.lead.email },
                ),
                now,
            ) == (idle(tables, limit), Err::<LeadResponseView, ApplicationErrorView>(error)),
            Ok((next, response)) => {
                &&& next.wf(limit)
                &&& resume(
                    during(tables, tables, limit),
                    request.goes(
                        StageView::ContactLookup,
                        CommandView::FindContact { email: request.lead.email },
                    ),
                    now,
                ) == (idle(next, limit), Ok::<LeadResponseView, ApplicationErrorView>(response))
            },
        }),
{
    lemma_contact_stage(tables, tables, limit, request, now);
    match resolve_contact(tables, limit, request.lead, now) {
        Err(error) => {},
        Ok((first, contact)) => {
            lemma_company_stage(tables, first, limit, request, contact, now);
            match resolve_company(first, limit, request.lead) {
                Err(error) => {},
                Ok((second, company)) => {
                    lemma_reference_stages(tables, second, limit, request, contact, company, now);
                    match references(second, request.lead) {
                        Err(error) => {},
                        Ok((pack, urgency, status)) => {
                            lemma_lead_stage(
                                tables,
                                second,
                                limit,
                                request,
                                contact,
                                company,
                                pack,
                                urgency,
                                status,
                                now,
                            );
                            match record_lead(
                                second,
                                limit,
                                request,
                                contact,
                                company,
                                pack,
                                urgency,
                                status,
                                now,
                            ) {
                                Err(error) => {},
                                Ok((third, lead)) => {
                                    lemma_linking(
                                        tables,
                                        third,
                                        limit,
                                        request,
                                        ResolvedView { contact, company, pack, urgency, status, lead },
                                        now,
                                    );
                                },
                            }
                        },
                    }
                },
            }
        },
    }
}

/// A run of the intake on a consistent store is one `intake`: the store ends
/// with every write of the transaction and the outcome is the response, or the
/// store ends as it began and the outcome is the failure. Either way the store
/// ends consistent.
pub proof fn lemma_run_is_intake(store: StoreView, request: LeadRequestView, now: Timestamp)
    requires
        store.wf(),
    ensures
        resume(store, IntakeView::start(request), now) == intake(store, request, now),
        intake(store, request, now).0.wf(),
{
    reveal_with_fuel(run, 3);
    if store.saved is None {
        lemma_stages(store.tables, store.limit, request, now);
        assert(store == idle(store.tables, store.limit));
        assert(store.apply(CommandView::Begin, now).0 == during(
            store.tables,
            store.tables,
            store.limit,
        ));
    }
}

} // verus!
