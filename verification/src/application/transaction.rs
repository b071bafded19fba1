//! What one intake does to the store's tables, stated as a whole: the rows it
//! resolves, the rows it adds, and the failure that stops it.

use crate::application::error::{ApplicationErrorView, StorageErrorKind, StorageErrorView};
use crate::application::intake::{initial_status_name, missing_reference, ResolvedView};
use crate::application::protocol::OutcomeView;
use crate::application::triage::{maturity_score, recommended_pack_name};
use crate::domain::company::{CompanyResponseView, CompanyView};
use crate::domain::concern::ConcernView;
use crate::domain::contact::ContactView;
use crate::domain::lead::{
    decision_maker_title,
    potential_points,
    LeadPayloadView,
    LeadRequestView,
    LeadResponseView,
    LeadView,
    ReferenceView,
};
use crate::domain::position::PositionView;
use crate::domain::timestamp::Timestamp;
use crate::domain::lead::{LeadConcern, LeadPosition};
use crate::infrastructure::memory::{
    lemma_named_refers,
    lemma_slot_found,
    named,
    refers,
    resized_company,
    revised_contact,
    StoreView,
    TablesView,
};
use vstd::prelude::*;

verus! {

/// The failure of a write to a table that has no room.
pub open spec fn full(table: Seq<char>) -> ApplicationErrorView {
    ApplicationErrorView::DatabaseError(
        StorageErrorView { kind: StorageErrorKind::Capacity, detail: table },
    )
}

/// The failure of opening a transaction while one is open.
pub open spec fn already_open() -> ApplicationErrorView {
    ApplicationErrorView::DatabaseError(
        StorageErrorView { kind: StorageErrorKind::Transaction, detail: "begin"@ },
    )
}

/// Resolves the contact by its email: the row that has the email is revised
/// in place; where none has it, a row is added.
pub open spec fn resolve_contact(
    tables: TablesView,
    limit: int,
    lead: LeadPayloadView,
    now: Timestamp,
) -> Result<(TablesView, ContactView), ApplicationErrorView> {
    match tables.contact_by_email(lead.email) {
        Some(found) => {
            let row = revised_contact(found, lead.name, lead.phone, lead.job_title, now);
            Ok((tables.set_contact(found.id - 1, row), row))
        },
        None => if tables.contacts.len() >= limit {
            Err(full("contacts"@))
        } else {
            let row = tables.new_contact(lead.name, lead.email, lead.phone, lead.job_title, now);
            Ok((tables.add_contact(row), row))
        },
    }
}

/// Resolves the company by its name: the row that has the name gets the new
/// size; where none has it, a row is added.
pub open spec fn resolve_company(tables: TablesView, limit: int, lead: LeadPayloadView) -> Result<
    (TablesView, CompanyView),
    ApplicationErrorView,
> {
    match tables.company_by_name(lead.company_name) {
        Some(found) => {
            let row = resized_company(found, lead.company_size);
            Ok((tables.set_company(found.id - 1, row), row))
        },
        None => if tables.companies.len() >= limit {
            Err(full("companies"@))
        } else {
            let row = tables.new_company(lead.company_name, lead.company_size);
            Ok((tables.add_company(row), row))
        },
    }
}

/// Looks a reference row up by its name. Reference rows are never created here.
pub open spec fn reference(rows: Seq<ReferenceView>, table: Seq<char>, name: Seq<char>) -> Result<
    ReferenceView,
    ApplicationErrorView,
> {
    match named(rows, name) {
        Some(row) => Ok(row),
        None => Err(missing_reference(table, name)),
    }
}

/// Adds the lead row for a submission and the rows resolved for it.
pub open spec fn record_lead(
    tables: TablesView,
    limit: int,
    request: LeadRequestView,
    contact: ContactView,
    company: CompanyView,
    pack: ReferenceView,
    urgency: ReferenceView,
    status: ReferenceView,
    now: Timestamp,
) -> Result<(TablesView, LeadView), ApplicationErrorView> {
    if tables.leads.len() >= limit {
        Err(full("leads"@))
    } else {
        let row = tables.new_lead(
            contact.id,
            company.id,
            request.lead.problem_summary,
            request.lead.estimated_users,
            urgency.id,
            status.id,
            maturity_score(request.lead) as i32,
            pack.id,
            request.altcha,
            request.visitor_id,
            now,
        );
        Ok((tables.add_lead(row), row))
    }
}

/// Resolves a position by its title and ties it to the lead: the row that has
/// the title is taken as it is; where none has it, a row is added. The link
/// row is added either way.
pub open spec fn link_position(tables: TablesView, limit: int, lead_id: i32, title: Seq<char>) -> Result<
    (TablesView, PositionView),
    ApplicationErrorView,
> {
    match tables.position_by_title(title) {
        Some(found) => if tables.lead_positions.len() >= limit {
            Err(full("lead_positions"@))
        } else {
            Ok((tables.add_position_link(lead_id, found.id), found))
        },
        None => if tables.positions.len() >= limit {
            Err(full("positions"@))
        } else if tables.lead_positions.len() >= limit {
            Err(full("lead_positions"@))
        } else {
            let row = tables.new_position(title);
            Ok((tables.add_position(row).add_position_link(lead_id, row.id), row))
        },
    }
}

/// Links the titles that `done` does not cover yet, in order; gives the
/// positions of all titles, in order.
pub open spec fn link_positions(
    tables: TablesView,
    limit: int,
    lead_id: i32,
    titles: Seq<Seq<char>>,
    done: Seq<PositionView>,
) -> Result<(TablesView, Seq<PositionView>), ApplicationErrorView>
    decreases titles.len() - done.len(),
{
    if done.len() >= titles.len() {
        Ok((tables, done))
    } else {
        match link_position(tables, limit, lead_id, titles[done.len() as int]) {
            Ok((next, row)) => link_positions(next, limit, lead_id, titles, done.push(row)),
            Err(error) => Err(error),
        }
    }
}

/// Resolves a concern by its label and ties it to the lead, as `link_position`
/// does for a position.
pub open spec fn link_concern(tables: TablesView, limit: int, lead_id: i32, label: Seq<char>) -> Result<
    (TablesView, ConcernView),
    ApplicationErrorView,
> {
    match tables.concern_by_label(label) {
        Some(found) => if tables.lead_concerns.len() >= limit {
            Err(full("lead_concerns"@))
        } else {
            Ok((tables.add_concern_link(lead_id, found.id), found))
        },
        None => if tables.concerns.len() >= limit {
            Err(full("concerns"@))
        } else if tables.lead_concerns.len() >= limit {
            Err(full("lead_concerns"@))
        } else {
            let row = tables.new_concern(label);
            Ok((tables.add_concern(row).add_concern_link(lead_id, row.id), row))
        },
    }
}

/// Links the labels that `done` does not cover yet, in order; gives the
/// concerns of all labels, in order.
pub open spec fn link_concerns(
    tables: TablesView,
    limit: int,
    lead_id: i32,
    labels: Seq<Seq<char>>,
    done: Seq<ConcernView>,
) -> Result<(TablesView, Seq<ConcernView>), ApplicationErrorView>
    decreases labels.len() - done.len(),
{
    if done.len() >= labels.len() {
        Ok((tables, done))
    } else {
        match link_concern(tables, limit, lead_id, labels[done.len() as int]) {
            Ok((next, row)) => link_concerns(next, limit, lead_id, labels, done.push(row)),
            Err(error) => Err(error),
        }
    }
}

/// The reference rows a submission needs: the pack its concerns call for, its
/// urgency, and the initial status; the first that is missing is the failure.
pub open spec fn references(tables: TablesView, lead: LeadPayloadView) -> Result<
    (ReferenceView, ReferenceView, ReferenceView),
    ApplicationErrorView,
> {
    match reference(tables.packs, "recommended pack"@, recommended_pack_name(lead.concerns)) {
        Err(error) => Err(error),
        Ok(pack) => match reference(tables.urgencies, "urgency"@, lead.urgency) {
            Err(error) => Err(error),
            Ok(urgency) => match reference(tables.statuses, "status"@, initial_status_name()) {
                Err(error) => Err(error),
                Ok(status) => Ok((pack, urgency, status)),
            },
        },
    }
}

/// The links of a lead, once its row exists: every position, then every
/// concern; with them, the response.
pub open spec fn link_all(
    tables: TablesView,
    limit: int,
    request: LeadRequestView,
    rows: ResolvedView,
) -> Result<(TablesView, LeadResponseView), ApplicationErrorView> {
    match link_positions(tables, limit, rows.lead.id, request.lead.positions, Seq::empty()) {
        Err(error) => Err(error),
        Ok((linked, positions)) => match link_concerns(
            linked,
            limit,
            rows.lead.id,
            request.lead.concerns,
            Seq::empty(),
        ) {
            Err(error) => Err(error),
            Ok((all, concerns)) => Ok((all, rows.response(positions, concerns))),
        },
    }
}

/// The writes of one intake, from top to bottom: contact, company, reference
/// rows, lead, positions, concerns. The first failure stops it.
pub open spec fn transaction(
    tables: TablesView,
    limit: int,
    request: LeadRequestView,
    now: Timestamp,
) -> Result<(TablesView, LeadResponseView), ApplicationErrorView> {
    match resolve_contact(tables, limit, request.lead, now) {
        Err(error) => Err(error),
        Ok((first, contact)) => match resolve_company(first, limit, request.lead) {
            Err(error) => Err(error),
            Ok((second, company)) => match references(second, request.lead) {
                Err(error) => Err(error),
                Ok((pack, urgency, status)) => match record_lead(
                    second,
                    limit,
                    request,
                    contact,
                    company,
                    pack,
                    urgency,
                    status,
                    now,
                ) {
                    Err(error) => Err(error),
                    Ok((third, lead)) => link_all(
                        third,
                        limit,
                        request,
                        ResolvedView { contact, company, pack, urgency, status, lead },
                    ),
                },
            },
        },
    }
}

/// One intake on a store: all of its writes and the response, or none of its
/// writes and the failure. A store with a transaction open takes no intake.
pub open spec fn intake(store: StoreView, request: LeadRequestView, now: Timestamp) -> (
    StoreView,
    OutcomeView,
) {
    if store.saved is Some {
        (store, Err(already_open()))
    } else {
        match transaction(store.tables, store.limit, request, now) {
            Ok((tables, response)) => (StoreView { tables, ..store }, Ok(response)),
            Err(error) => (store, Err(error)),
        }
    }
}

/// `long` begins with `short`.
pub open spec fn starts<T>(long: Seq<T>, short: Seq<T>) -> bool {
    &&& short.len() <= long.len()
    &&& forall|i: int| 0 <= i < short.len() ==> long[i] == short[i]
}

/// Nothing was taken away between `before` and `after`: leads, positions,
/// concerns and links were at most appended to; contacts and companies kept
/// their place and their natural key; the reference tables are the same.
pub open spec fn kept(before: TablesView, after: TablesView) -> bool {
    &&& starts(after.leads, before.leads)
    &&& starts(after.positions, before.positions)
    &&& starts(after.concerns, before.concerns)
    &&& starts(after.lead_positions, before.lead_positions)
    &&& starts(after.lead_concerns, before.lead_concerns)
    &&& starts(after.emails(), before.emails())
    &&& starts(after.company_names(), before.company_names())
    &&& after.statuses == before.statuses
    &&& after.urgencies == before.urgencies
    &&& after.packs == before.packs
}

/// What is kept over two spans is kept over both.
proof fn lemma_kept_twice(first: TablesView, second: TablesView, third: TablesView)
    requires
        kept(first, second),
        kept(second, third),
    ensures
        kept(first, third),
{
}

/// A position that was there is still the position of its title later on.
proof fn lemma_position_persists(before: TablesView, after: TablesView, limit: int, title: Seq<char>)
    requires
        after.wf(limit),
        starts(after.positions, before.positions),
        before.position_by_title(title) is Some,
    ensures
        after.position_by_title(title) == before.position_by_title(title),
{
    let at = before.titles().index_of(title);
    assert(before.titles()[at] == title);
    assert(after.positions[at] == before.positions[at]);
    lemma_slot_found(after.titles(), title, at);
}

/// A concern that was there is still the concern of its label later on.
proof fn lemma_concern_persists(before: TablesView, after: TablesView, limit: int, label: Seq<char>)
    requires
        after.wf(limit),
        starts(after.concerns, before.concerns),
        before.concern_by_label(label) is Some,
    ensures
        after.concern_by_label(label) == before.concern_by_label(label),
{
    let at = before.labels().index_of(Some(label));
    assert(before.labels()[at] == Some(label));
    assert(after.concerns[at] == before.concerns[at]);
    lemma_slot_found(after.labels(), Some(label), at);
}

/// What resolving a contact does: the tables stay consistent, only the
/// contacts change, the row is the one contact with the email, and a row is
/// added only where the email was unknown.
proof fn lemma_resolve_contact(tables: TablesView, limit: int, lead: LeadPayloadView, now: Timestamp)
    requires
        tables.wf(limit),
        0 <= limit <= i32::MAX,
    ensures
        (match resolve_contact(tables, limit, lead, now) {
            Ok((next, row)) => {
                &&& next.wf(limit)
                &&& kept(tables, next)
                &&& next == (TablesView { contacts: next.contacts, ..tables })
                &&& next.contact_by_email(lead.email) == Some(row)
                &&& refers(row.id, next.contacts.len())
                &&& next.contacts.len() == tables.contacts.len() + if tables.contact_by_email(
                    lead.email,
                ) is Some {
                    0int
                } else {
                    1int
                }
                &&& (tables.contact_by_email(lead.email) matches Some(found) ==> row.id == found.id
                    && row.created_at == found.created_at)
                &&& row.name == lead.name
                &&& row.email == lead.email
                &&& row.phone == lead.phone
                &&& row.job_title == lead.job_title
                &&& row.updated_at == now
            },
            Err(_) => true,
        }),
{
    match tables.contact_by_email(lead.email) {
        Some(found) => {
            let at = tables.emails().index_of(lead.email);
            assert(tables.emails()[at] == lead.email);
            assert(found == tables.contacts[at]);
            let row = revised_contact(found, lead.name, lead.phone, lead.job_title, now);
            tables.lemma_set_contact(limit, at, row);
            let next = tables.set_contact(at, row);
            assert(next.company_names() =~= tables.company_names());
            lemma_slot_found(next.emails(), lead.email, at);
        },
        None => {
            if tables.contacts.len() < limit {
                let row = tables.new_contact(lead.name, lead.email, lead.phone, lead.job_title, now);
                tables.lemma_add_contact(limit, row);
                let next = tables.add_contact(row);
                assert(next.company_names() =~= tables.company_names());
                lemma_slot_found(next.emails(), lead.email, tables.contacts.len() as int);
            }
        },
    }
}

/// What resolving a company does: the tables stay consistent, only the
/// companies change, the row is the one company with the name, and a row is
/// added only where the name was unknown.
proof fn lemma_resolve_company(tables: TablesView, limit: int, lead: LeadPayloadView)
    requires
        tables.wf(limit),
        0 <= limit <= i32::MAX,
    ensures
        (match resolve_company(tables, limit, lead) {
            Ok((next, row)) => {
                &&& next.wf(limit)
                &&& kept(tables, next)
                &&& next == (TablesView { companies: next.companies, ..tables })
                &&& next.company_by_name(lead.company_name) == Some(row)
                &&& refers(row.id, next.companies.len())
                &&& next.companies.len() == tables.companies.len() + if tables.company_by_name(
                    lead.company_name,
                ) is Some {
                    0int
                } else {
                    1int
                }
                &&& (tables.company_by_name(lead.company_name) matches Some(found) ==> row.id
                    == found.id)
                &&& row.name == lead.company_name
                &&& row.size == lead.company_size
            },
            Err(_) => true,
        }),
{
    match tables.company_by_name(lead.company_name) {
        Some(found) => {
            let at = tables.company_names().index_of(lead.company_name);
            assert(tables.company_names()[at] == lead.company_name);
            assert(found == tables.companies[at]);
            let row = resized_company(found, lead.company_size);
            tables.lemma_set_company(limit, at, row);
            let next = tables.set_company(at, row);
            assert(next.emails() =~= tables.emails());
            lemma_slot_found(next.company_names(), lead.company_name, at);
        },
        None => {
            if tables.companies.len() < limit {
                let row = tables.new_company(lead.company_name, lead.company_size);
                tables.lemma_add_company(limit, row);
                let next = tables.add_company(row);
                assert(next.emails() =~= tables.emails());
                lemma_slot_found(next.company_names(), lead.company_name, tables.companies.len() as int);
            }
        },
    }
}

/// What linking one title does: the tables stay consistent, only positions and
/// their links change, the row is the one position with the title, a row is
/// added only where the title was unknown, and one link is added.
proof fn lemma_link_position(tables: TablesView, limit: int, lead_id: i32, title: Seq<char>)
    requires
        tables.wf(limit),
        0 <= limit <= i32::MAX,
        refers(lead_id, tables.leads.len()),
    ensures
        (match link_position(tables, limit, lead_id, title) {
            Ok((next, row)) => {
                &&& next.wf(limit)
                &&& kept(tables, next)
                &&& next == (TablesView {
                    positions: next.positions,
                    lead_positions: next.lead_positions,
                    ..tables
                })
                &&& row.title == title
                &&& next.position_by_title(title) == Some(row)
                &&& (tables.position_by_title(title) matches Some(found) ==> row == found
                    && next.positions == tables.positions)
                &&& (tables.position_by_title(title) is None ==> next.positions
                    == tables.positions.push(row))
                &&& next.lead_positions == tables.lead_positions.push(
                    LeadPosition { lead_id, position_id: row.id },
                )
            },
            Err(_) => true,
        }),
{
    match tables.position_by_title(title) {
        Some(found) => {
            let at = tables.titles().index_of(title);
            assert(tables.titles()[at] == title);
            assert(found == tables.positions[at]);
            if tables.lead_positions.len() < limit {
                tables.lemma_add_position_link(limit, lead_id, found.id);
                let next = tables.add_position_link(lead_id, found.id);
                assert(next.emails() =~= tables.emails());
                assert(next.company_names() =~= tables.company_names());
                assert(next.titles() =~= tables.titles());
            }
        },
        None => {
            if tables.positions.len() < limit && tables.lead_positions.len() < limit {
                let row = tables.new_position(title);
                tables.lemma_add_position(limit, row);
                let added = tables.add_position(row);
                added.lemma_add_position_link(limit, lead_id, row.id);
                let next = added.add_position_link(lead_id, row.id);
                assert(next.emails() =~= tables.emails());
                assert(next.company_names() =~= tables.company_names());
                assert(next.titles() =~= added.titles());
                lemma_slot_found(next.titles(), title, tables.positions.len() as int);
            }
        },
    }
}

/// What linking one label does, as `lemma_link_position` for a title.
proof fn lemma_link_concern(tables: TablesView, limit: int, lead_id: i32, label: Seq<char>)
    requires
        tables.wf(limit),
        0 <= limit <= i32::MAX,
        refers(lead_id, tables.leads.len()),
    ensures
        (match link_concern(tables, limit, lead_id, label) {
            Ok((next, row)) => {
                &&& next.wf(limit)
                &&& kept(tables, next)
                &&& next == (TablesView {
                    concerns: next.concerns,
                    lead_concerns: next.lead_concerns,
                    ..tables
                })
                &&& row.label == Some(label)
                &&& next.concern_by_label(label) == Some(row)
                &&& (tables.concern_by_label(label) matches Some(found) ==> row == found
                    && next.concerns == tables.concerns)
                &&& (tables.concern_by_label(label) is None ==> next.concerns
                    == tables.concerns.push(row))
                &&& next.lead_concerns == tables.lead_concerns.push(
                    LeadConcern { lead_id, concern_id: row.id },
                )
            },
            Err(_) => true,
        }),
{
    match tables.concern_by_label(label) {
        Some(found) => {
            let at = tables.labels().index_of(Some(label));
            assert(tables.labels()[at] == Some(label));
            assert(found == tables.concerns[at]);
            if tables.lead_concerns.len() < limit {
                tables.lemma_add_concern_link(limit, lead_id, found.id);
                let next = tables.add_concern_link(lead_id, found.id);
                assert(next.emails() =~= tables.emails());
                assert(next.company_names() =~= tables.company_names());
                assert(next.labels() =~= tables.labels());
            }
        },
        None => {
            if tables.concerns.len() < limit && tables.lead_concerns.len() < limit {
                let row = tables.new_concern(label);
                tables.lemma_add_concern(limit, row);
                let added = tables.add_concern(row);
                added.lemma_add_concern_link(limit, lead_id, row.id);
                let next = added.add_concern_link(lead_id, row.id);
                assert(next.emails() =~= tables.emails());
                assert(next.company_names() =~= tables.company_names());
                assert(next.labels() =~= added.labels());
                lemma_slot_found(next.labels(), Some(label), tables.concerns.len() as int);
            }
        },
    }
}

/// What linking the titles does: the tables stay consistent, only positions
/// and their links change, every title that was left has its one position and,
/// in order, its one new link; a title that was known keeps its position.
proof fn lemma_link_positions(
    tables: TablesView,
    limit: int,
    lead_id: i32,
    titles: Seq<Seq<char>>,
    done: Seq<PositionView>,
)
    requires
        tables.wf(limit),
        0 <= limit <= i32::MAX,
        refers(lead_id, tables.leads.len()),
        done.len() <= titles.len(),
    ensures
        (match link_positions(tables, limit, lead_id, titles, done) {
            Ok((next, all)) => {
                &&& next.wf(limit)
                &&& kept(tables, next)
                &&& next == (TablesView {
                    positions: next.positions,
                    lead_positions: next.lead_positions,
                    ..tables
                })
                &&& all.len() == titles.len()
                &&& starts(all, done)
                &&& next.lead_positions.len() == tables.lead_positions.len() + titles.len()
                    - done.len()
                &&& forall|k: int|
                    done.len() <= k < titles.len() ==> {
                        &&& (#[trigger] all[k]).title == titles[k]
                        &&& next.position_by_title(titles[k]) == Some(all[k])
                        &&& next.lead_positions[tables.lead_positions.len() + k - done.len()]
                            == (LeadPosition { lead_id, position_id: all[k].id })
                        &&& (tables.position_by_title(titles[k]) matches Some(found) ==> all[k]
                            == found)
                    }
            },
            Err(_) => true,
        }),
    decreases titles.len() - done.len(),
{
    if done.len() < titles.len() {
        let at = done.len() as int;
        lemma_link_position(tables, limit, lead_id, titles[at]);
        match link_position(tables, limit, lead_id, titles[at]) {
            Ok((middle, row)) => {
                lemma_link_positions(middle, limit, lead_id, titles, done.push(row));
                match link_positions(middle, limit, lead_id, titles, done.push(row)) {
                    Ok((next, all)) => {
                        lemma_kept_twice(tables, middle, next);
                        assert(all[at] == done.push(row)[at]);
                        lemma_position_persists(middle, next, limit, titles[at]);
                        assert(next.lead_positions[tables.lead_positions.len() as int]
                            == middle.lead_positions[tables.lead_positions.len() as int]);
                        assert forall|k: int| done.len() <= k < titles.len() implies {
                            &&& (#[trigger] all[k]).title == titles[k]
                            &&& next.position_by_title(titles[k]) == Some(all[k])
                            &&& next.lead_positions[tables.lead_positions.len() + k - done.len()]
                                == (LeadPosition { lead_id, position_id: all[k].id })
                            &&& (tables.position_by_title(titles[k]) matches Some(found) ==> all[k]
                                == found)
                        } by {
                            if tables.position_by_title(titles[k]) is Some {
                                lemma_position_persists(tables, middle, limit, titles[k]);
                            }
                        }
                    },
                    Err(_) => {},
                }
            },
            Err(_) => {},
        }
    }
}

/// What linking the labels does, as `lemma_link_positions` for the titles.
proof fn lemma_link_concerns(
    tables: TablesView,
    limit: int,
    lead_id: i32,
    labels: Seq<Seq<char>>,
    done: Seq<ConcernView>,
)
    requires
        tables.wf(limit),
        0 <= limit <= i32::MAX,
        refers(lead_id, tables.leads.len()),
        done.len() <= labels.len(),
    ensures
        (match link_concerns(tables, limit, lead_id, labels, done) {
            Ok((next, all)) => {
                &&& next.wf(limit)
                &&& kept(tables, next)
                &&& next == (TablesView {
                    concerns: next.concerns,
                    lead_concerns: next.lead_concerns,
                    ..tables
                })
                &&& all.len() == labels.len()
                &&& starts(all, done)
                &&& next.lead_concerns.len() == tables.lead_concerns.len() + labels.len()
                    - done.len()
                &&& forall|k: int|
                    done.len() <= k < labels.len() ==> {
                        &&& (#[trigger] all[k]).label == Some(labels[k])
                        &&& next.concern_by_label(labels[k]) == Some(all[k])
                        &&& next.lead_concerns[tables.lead_concerns.len() + k - done.len()]
                            == (LeadConcern { lead_id, concern_id: all[k].id })
                        &&& (tables.concern_by_label(labels[k]) matches Some(found) ==> all[k]
                            == found)
                    }
            },
            Err(_) => true,
        }),
    decreases labels.len() - done.len(),
{
    if done.len() < labels.len() {
        let at = done.len() as int;
        lemma_link_concern(tables, limit, lead_id, labels[at]);
        match link_concern(tables, limit, lead_id, labels[at]) {
            Ok((middle, row)) => {
                lemma_link_concerns(middle, limit, lead_id, labels, done.push(row));
                match link_concerns(middle, limit, lead_id, labels, done.push(row)) {
                    Ok((next, all)) => {
                        lemma_kept_twice(tables, middle, next);
                        assert(all[at] == done.push(row)[at]);
                        lemma_concern_persists(middle, next, limit, labels[at]);
                        assert(next.lead_concerns[tables.lead_concerns.len() as int]
                            == middle.lead_concerns[tables.lead_concerns.len() as int]);
                        assert forall|k: int| done.len() <= k < labels.len() implies {
                            &&& (#[trigger] all[k]).label == Some(labels[k])
                            &&& next.concern_by_label(labels[k]) == Some(all[k])
                            &&& next.lead_concerns[tables.lead_concerns.len() + k - done.len()]
                                == (LeadConcern { lead_id, concern_id: all[k].id })
                            &&& (tables.concern_by_label(labels[k]) matches Some(found) ==> all[k]
                                == found)
                        } by {
                            if tables.concern_by_label(labels[k]) is Some {
                                lemma_concern_persists(tables, middle, limit, labels[k]);
                            }
                        }
                    },
                    Err(_) => {},
                }
            },
            Err(_) => {},
        }
    }
}

/// The response to a submission that was taken in, but for what only the
/// store knows: the lead's id and submission time, and the contact's id and
/// times. The contact and the company show the payload's values, the status is
/// the initial one, the urgency the payload's, the pack the one the concerns
/// call for, and the scores follow the scoring rules.
pub open spec fn shown(
    request: LeadRequestView,
    id: i32,
    submission_date: Timestamp,
    contact: ContactView,
) -> LeadResponseView {
    let lead = request.lead;
    LeadResponseView {
        id,
        submission_date,
        status: initial_status_name(),
        urgency: lead.urgency,
        recommended_pack: Some(recommended_pack_name(lead.concerns)),
        maturity_score: Some(maturity_score(lead) as i32),
        potential_score: Some(
            potential_points(lead.company_size, lead.urgency, decision_maker_title(lead.job_title)) as i32,
        ),
        estimated_users: lead.estimated_users,
        problem_summary: lead.problem_summary,
        contact: ContactView {
            name: lead.name,
            email: lead.email,
            phone: lead.phone,
            job_title: lead.job_title,
            ..contact
        },
        company: CompanyResponseView { name: lead.company_name, size: lead.company_size },
        positions: lead.positions,
        concerns: Seq::new(lead.concerns.len(), |k: int| Some(lead.concerns[k])),
    }
}

/// The rows a successful transaction resolved, as the store holds them at its end.
pub struct Ledger {
    /// The tables at the end.
    pub tables: TablesView,
    /// The response.
    pub response: LeadResponseView,
    /// The lead row that was added.
    pub lead: LeadView,
    /// The position of each title of the payload, in order.
    pub positions: Seq<PositionView>,
    /// The concern of each label of the payload, in order.
    pub concerns: Seq<ConcernView>,
}

/// What a successful transaction leaves behind.
///
/// The tables are consistent and nothing was taken away. The contact is the
/// one row with the payload's email and the company the one row with its name;
/// a contact or company row was added only where the key was unknown. Exactly
/// one lead was added; it refers to that contact and company. Every title has
/// its one position and every label its one concern, known ones keep their
/// row, and the lead has one new link for each, in the order of the payload.
pub open spec fn settled(
    tables: TablesView,
    limit: int,
    request: LeadRequestView,
    ledger: Ledger,
) -> bool {
    let lead = request.lead;
    let after = ledger.tables;
    &&& after.wf(limit)
    &&& kept(tables, after)
    &&& after.contacts.len() == tables.contacts.len() + if tables.contact_by_email(lead.email) is Some {
        0int
    } else {
        1int
    }
    &&& after.companies.len() == tables.companies.len() + if tables.company_by_name(
        lead.company_name,
    ) is Some {
        0int
    } else {
        1int
    }
    &&& after.leads == tables.leads.push(ledger.lead)
    &&& ledger.response.id == ledger.lead.id
    &&& ledger.lead.id == tables.leads.len() + 1
    &&& after.contact_by_email(lead.email) == Some(ledger.response.contact)
    &&& ledger.lead.contact_id == ledger.response.contact.id
    &&& (tables.contact_by_email(lead.email) matches Some(found) ==> ledger.response.contact.id
        == found.id)
    &&& after.company_by_name(lead.company_name) matches Some(company) && company.id
        == ledger.lead.company_id && company.shown() == ledger.response.company
    &&& (tables.company_by_name(lead.company_name) matches Some(found) ==> ledger.lead.company_id
        == found.id)
    &&& named(after.statuses, initial_status_name()) matches Some(status) && status.id
        == ledger.lead.status_id
    &&& named(after.urgencies, lead.urgency) matches Some(urgency) && Some(urgency.id)
        == ledger.lead.urgency_id
    &&& named(after.packs, recommended_pack_name(lead.concerns)) matches Some(pack) && Some(pack.id)
        == ledger.lead.recommended_pack_id
    &&& ledger.lead.maturity_score == Some(maturity_score(lead) as i32)
    &&& ledger.lead.altcha_solution == Some(request.altcha)
    &&& ledger.lead.fingerprint_visitor_id == request.visitor_id
    &&& ledger.response == shown(request, ledger.lead.id, ledger.lead.submission_date, ledger.response.contact)
    &&& ledger.positions.len() == lead.positions.len()
    &&& ledger.response.positions == lead.positions
    &&& after.lead_positions.len() == tables.lead_positions.len() + lead.positions.len()
    &&& forall|k: int|
        0 <= k < lead.positions.len() ==> {
            &&& after.position_by_title(lead.positions[k]) == Some(#[trigger] ledger.positions[k])
            &&& after.lead_positions[tables.lead_positions.len() + k] == (LeadPosition {
                lead_id: ledger.lead.id,
                position_id: ledger.positions[k].id,
            })
            &&& (tables.position_by_title(lead.positions[k]) matches Some(found)
                ==> ledger.positions[k] == found)
        }
    &&& ledger.concerns.len() == lead.concerns.len()
    &&& after.lead_concerns.len() == tables.lead_concerns.len() + lead.concerns.len()
    &&& forall|k: int|
        0 <= k < lead.concerns.len() ==> {
            &&& after.concern_by_label(lead.concerns[k]) == Some(#[trigger] ledger.concerns[k])
            &&& ledger.response.concerns[k] == Some(lead.concerns[k])
            &&& after.lead_concerns[tables.lead_concerns.len() + k] == (LeadConcern {
                lead_id: ledger.lead.id,
                concern_id: ledger.concerns[k].id,
            })
            &&& (tables.concern_by_label(lead.concerns[k]) matches Some(found)
                ==> ledger.concerns[k] == found)
        }
}

/// Every successful transaction on consistent tables is settled: there are
/// rows for which `settled` holds of its tables and its response.
pub proof fn lemma_transaction_settles(
    tables: TablesView,
    limit: int,
    request: LeadRequestView,
    now: Timestamp,
) -> (ledger: Ledger)
    requires
        tables.wf(limit),
        0 <= limit <= i32::MAX,
        transaction(tables, limit, request, now) is Ok,
    ensures
        transaction(tables, limit, request, now) == Ok::<_, ApplicationErrorView>(
            (ledger.tables, ledger.response),
        ),
        settled(tables, limit, request, ledger),
{
    let lead = request.lead;
    lemma_resolve_contact(tables, limit, lead, now);
    let (first, contact) = resolve_contact(tables, limit, lead, now)->Ok_0;
    lemma_resolve_company(first, limit, lead);
    let (second, company) = resolve_company(first, limit, lead)->Ok_0;
    lemma_kept_twice(tables, first, second);
    let (pack, urgency, status) = references(second, lead)->Ok_0;
    lemma_named_refers(second.packs, recommended_pack_name(lead.concerns));
    lemma_named_refers(second.urgencies, lead.urgency);
    lemma_named_refers(second.statuses, initial_status_name());
    let (third, row) = record_lead(
        second,
        limit,
        request,
        contact,
        company,
        pack,
        urgency,
        status,
        now,
    )->Ok_0;
    second.lemma_add_lead(limit, row);
    assert(third.emails() =~= second.emails());
    assert(third.company_names() =~= second.company_names());
    assert(kept(second, third));
    lemma_kept_twice(tables, second, third);
    let rows = ResolvedView { contact, company, pack, urgency, status, lead: row };
    lemma_link_positions(third, limit, row.id, lead.positions, Seq::empty());
    let (fourth, positions) = link_positions(third, limit, row.id, lead.positions, Seq::empty())->Ok_0;
    lemma_kept_twice(tables, third, fourth);
    lemma_link_concerns(fourth, limit, row.id, lead.concerns, Seq::empty());
    let (fifth, concerns) = link_concerns(fourth, limit, row.id, lead.concerns, Seq::empty())->Ok_0;
    lemma_kept_twice(tables, fourth, fifth);
    let response = rows.response(positions, concerns);
    assert(response.concerns =~= Seq::new(lead.concerns.len(), |k: int| Some(lead.concerns[k])));
    assert(fifth.emails() =~= first.emails());
    assert(fifth.company_names() =~= second.company_names());
    assert(response.positions =~= lead.positions);
    assert forall|k: int| 0 <= k < lead.positions.len() implies {
        &&& fifth.position_by_title(lead.positions[k]) == Some(#[trigger] positions[k])
        &&& (tables.position_by_title(lead.positions[k]) matches Some(found) ==> positions[k]
            == found)
    } by {
        assert(positions[k].title == lead.positions[k]);
        assert(fifth.titles() =~= fourth.titles());
        if tables.position_by_title(lead.positions[k]) is Some {
            lemma_position_persists(tables, third, limit, lead.positions[k]);
        }
    }
    assert forall|k: int| 0 <= k < lead.concerns.len() implies {
        &&& fifth.concern_by_label(lead.concerns[k]) == Some(#[trigger] concerns[k])
        &&& response.concerns[k] == Some(lead.concerns[k])
        &&& (tables.concern_by_label(lead.concerns[k]) matches Some(found) ==> concerns[k]
            == found)
    } by {
        assert(concerns[k].label == Some(lead.concerns[k]));
        if tables.concern_by_label(lead.concerns[k]) is Some {
            lemma_concern_persists(tables, fourth, limit, lead.concerns[k]);
        }
    }
    Ledger { tables: fifth, response, lead: row, positions, concerns }
}

/// An intake on a consistent store leaves a consistent store in which nothing
/// was taken away, whatever its outcome.
pub proof fn lemma_intake_only_adds(store: StoreView, request: LeadRequestView, now: Timestamp)
    requires
        store.wf(),
    ensures
        intake(store, request, now).0.wf(),
        kept(store.tables, intake(store, request, now).0.tables),
        intake(store, request, now).0.limit == store.limit,
{
    if store.saved is None && transaction(store.tables, store.limit, request, now) is Ok {
        let ledger = lemma_transaction_settles(store.tables, store.limit, request, now);
    }
}

/// An intake that fails leaves the store as it was: a contact, company or
/// lead that the failed attempt had introduced is not there afterwards.
pub proof fn lemma_failure_changes_nothing(store: StoreView, request: LeadRequestView, now: Timestamp)
    requires
        intake(store, request, now).1 is Err,
    ensures
        intake(store, request, now).0 == store,
{
}

/// A submission whose email and company name the store has not seen, once
/// taken in, has added exactly one contact, one company and one lead.
pub proof fn lemma_first_sighting_adds_one_of_each(
    store: StoreView,
    request: LeadRequestView,
    now: Timestamp,
)
    requires
        store.wf(),
        store.tables.contact_by_email(request.lead.email) is None,
        store.tables.company_by_name(request.lead.company_name) is None,
        intake(store, request, now).1 is Ok,
    ensures
        ({
            let after = intake(store, request, now).0.tables;
            &&& after.contacts.len() == store.tables.contacts.len() + 1
            &&& after.companies.len() == store.tables.companies.len() + 1
            &&& after.leads.len() == store.tables.leads.len() + 1
            &&& after.contact_by_email(request.lead.email) is Some
            &&& after.company_by_name(request.lead.company_name) is Some
        }),
{
    let ledger = lemma_transaction_settles(store.tables, store.limit, request, now);
}

/// A submission taken in a second time adds no contact and no company: both
/// intakes share the contact row and the company row. It adds one more lead,
/// with an id of its own.
pub proof fn lemma_resubmission_adds_only_a_lead(
    store: StoreView,
    request: LeadRequestView,
    now: Timestamp,
    later: Timestamp,
)
    requires
        store.wf(),
        intake(store, request, now).1 is Ok,
        intake(intake(store, request, now).0, request, later).1 is Ok,
    ensures
        ({
            let first = intake(store, request, now);
            let second = intake(first.0, request, later);
            &&& second.0.tables.contacts.len() == first.0.tables.contacts.len()
            &&& second.0.tables.companies.len() == first.0.tables.companies.len()
            &&& second.0.tables.leads.len() == first.0.tables.leads.len() + 1
            &&& second.1->Ok_0.id == first.1->Ok_0.id + 1
            &&& second.1->Ok_0.contact.id == first.1->Ok_0.contact.id
            &&& second.0.tables.leads.last().contact_id == first.0.tables.leads.last().contact_id
            &&& second.0.tables.leads.last().company_id == first.0.tables.leads.last().company_id
        }),
{
    let first = intake(store, request, now);
    let one = lemma_transaction_settles(store.tables, store.limit, request, now);
    let two = lemma_transaction_settles(first.0.tables, first.0.limit, request, later);
}

/// A title of the payload that the store knew before the intake has no second
/// row afterwards: its position is the row that was there, no title stands
/// twice in the table, and the new lead has a new link to that row, at the
/// title's place among the links the intake added.
pub proof fn lemma_known_position_is_linked_not_duplicated(
    store: StoreView,
    request: LeadRequestView,
    now: Timestamp,
    k: int,
)
    requires
        store.wf(),
        intake(store, request, now).1 is Ok,
        0 <= k < request.lead.positions.len(),
        store.tables.position_by_title(request.lead.positions[k]) is Some,
    ensures
        ({
            let after = intake(store, request, now).0.tables;
            let response = intake(store, request, now).1->Ok_0;
            let title = request.lead.positions[k];
            let known = store.tables.position_by_title(title)->Some_0;
            &&& after.position_by_title(title) == Some(known)
            &&& after.titles().no_duplicates()
            &&& starts(after.positions, store.tables.positions)
            &&& after.lead_positions.len() == store.tables.lead_positions.len()
                + request.lead.positions.len()
            &&& after.lead_positions[store.tables.lead_positions.len() + k] == (LeadPosition {
                lead_id: response.id,
                position_id: known.id,
            })
            &&& response.positions[k] == title
        }),
{
    let ledger = lemma_transaction_settles(store.tables, store.limit, request, now);
    assert(ledger.positions[k] == store.tables.position_by_title(request.lead.positions[k])->Some_0);
}

/// A label of the payload that the store knew before the intake has no second
/// row afterwards, and the new lead has a new link to the row that was there.
pub proof fn lemma_known_concern_is_linked_not_duplicated(
    store: StoreView,
    request: LeadRequestView,
    now: Timestamp,
    k: int,
)
    requires
        store.wf(),
        intake(store, request, now).1 is Ok,
        0 <= k < request.lead.concerns.len(),
        store.tables.concern_by_label(request.lead.concerns[k]) is Some,
    ensures
        ({
            let after = intake(store, request, now).0.tables;
            let response = intake(store, request, now).1->Ok_0;
            let label = request.lead.concerns[k];
            let known = store.tables.concern_by_label(label)->Some_0;
            &&& after.concern_by_label(label) == Some(known)
            &&& after.labels().no_duplicates()
            &&& starts(after.concerns, store.tables.concerns)
            &&& after.lead_concerns.len() == store.tables.lead_concerns.len()
                + request.lead.concerns.len()
            &&& after.lead_concerns[store.tables.lead_concerns.len() + k] == (LeadConcern {
                lead_id: response.id,
                concern_id: known.id,
            })
            &&& response.concerns[k] == Some(label)
        }),
{
    let ledger = lemma_transaction_settles(store.tables, store.limit, request, now);
    assert(ledger.concerns[k] == store.tables.concern_by_label(request.lead.concerns[k])->Some_0);
}

/// The response of an intake that succeeded shows the submission: the
/// payload's contact and company values, its urgency, the initial status, the
/// pack its concerns call for, both scores by their rules, and its titles and
/// labels in their order. Only ids and times come from the store.
pub proof fn lemma_response_shows_the_submission(
    store: StoreView,
    request: LeadRequestView,
    now: Timestamp,
)
    requires
        store.wf(),
        intake(store, request, now).1 is Ok,
    ensures
        ({
            let response = intake(store, request, now).1->Ok_0;
            &&& response == shown(request, response.id, response.submission_date, response.contact)
            &&& response.id == store.tables.leads.len() + 1
            &&& response.submission_date == now
            &&& response.contact.updated_at == now
        }),
{
    let ledger = lemma_transaction_settles(store.tables, store.limit, request, now);
}

/// A title that stands twice in one payload is resolved to one position: both
/// of its links point at the same row.
pub proof fn lemma_repeated_title_shares_its_position(
    store: StoreView,
    request: LeadRequestView,
    now: Timestamp,
    j: int,
    k: int,
)
    requires
        store.wf(),
        intake(store, request, now).1 is Ok,
        0 <= j < request.lead.positions.len(),
        0 <= k < request.lead.positions.len(),
        request.lead.positions[j] == request.lead.positions[k],
    ensures
        ({
            let after = intake(store, request, now).0.tables;
            let base = store.tables.lead_positions.len();
            &&& after.lead_positions[base + j].position_id == after.lead_positions[base
                + k].position_id
            &&& after.titles().no_duplicates()
        }),
{
    let ledger = lemma_transaction_settles(store.tables, store.limit, request, now);
    assert(ledger.tables.position_by_title(request.lead.positions[j]) == Some(ledger.positions[j]));
    assert(ledger.tables.position_by_title(request.lead.positions[k]) == Some(ledger.positions[k]));
}

/// A storage failure for want of room in a table.
pub open spec fn out_of_room(error: ApplicationErrorView) -> bool {
    error matches ApplicationErrorView::DatabaseError(e) && e.kind == StorageErrorKind::Capacity
}

/// Linking titles fails only for want of room, and succeeds where the
/// positions and their links have room for every title that is left.
proof fn lemma_link_positions_outcome(
    tables: TablesView,
    limit: int,
    lead_id: i32,
    titles: Seq<Seq<char>>,
    done: Seq<PositionView>,
)
    requires
        tables.wf(limit),
        0 <= limit <= i32::MAX,
        refers(lead_id, tables.leads.len()),
        done.len() <= titles.len(),
    ensures
        link_positions(tables, limit, lead_id, titles, done) matches Err(error) ==> out_of_room(
            error,
        ),
        tables.positions.len() + titles.len() - done.len() <= limit && tables.lead_positions.len()
            + titles.len() - done.len() <= limit ==> link_positions(
            tables,
            limit,
            lead_id,
            titles,
            done,
        ) is Ok,
    decreases titles.len() - done.len(),
{
    if done.len() < titles.len() {
        let at = done.len() as int;
        lemma_link_position(tables, limit, lead_id, titles[at]);
        match link_position(tables, limit, lead_id, titles[at]) {
            Ok((middle, row)) => {
                lemma_link_positions_outcome(middle, limit, lead_id, titles, done.push(row));
            },
            Err(_) => {},
        }
    }
}

/// Linking labels fails only for want of room, and succeeds where the concerns
/// and their links have room for every label that is left.
proof fn lemma_link_concerns_outcome(
    tables: TablesView,
    limit: int,
    lead_id: i32,
    labels: Seq<Seq<char>>,
    done: Seq<ConcernView>,
)
    requires
        tables.wf(limit),
        0 <= limit <= i32::MAX,
        refers(lead_id, tables.leads.len()),
        done.len() <= labels.len(),
    ensures
        link_concerns(tables, limit, lead_id, labels, done) matches Err(error) ==> out_of_room(
            error,
        ),
        tables.concerns.len() + labels.len() - done.len() <= limit && tables.lead_concerns.len()
            + labels.len() - done.len() <= limit ==> link_concerns(
            tables,
            limit,
            lead_id,
            labels,
            done,
        ) is Ok,
    decreases labels.len() - done.len(),
{
    if done.len() < labels.len() {
        let at = done.len() as int;
        lemma_link_concern(tables, limit, lead_id, labels[at]);
        match link_concern(tables, limit, lead_id, labels[at]) {
            Ok((middle, row)) => {
                lemma_link_concerns_outcome(middle, limit, lead_id, labels, done.push(row));
            },
            Err(_) => {},
        }
    }
}

/// Every table has room for what one submission can add at most: one contact,
/// one company, one lead, and a row and a link for each title and each label.
pub open spec fn has_room(tables: TablesView, limit: int, request: LeadRequestView) -> bool {
    &&& tables.contacts.len() < limit
    &&& tables.companies.len() < limit
    &&& tables.leads.len() < limit
    &&& tables.positions.len() + request.lead.positions.len() <= limit
    &&& tables.lead_positions.len() + request.lead.positions.len() <= limit
    &&& tables.concerns.len() + request.lead.concerns.len() <= limit
    &&& tables.lead_concerns.len() + request.lead.concerns.len() <= limit
}

/// When an intake succeeds and how it fails. On a consistent store with no
/// transaction open, with the reference rows in place and room in the tables,
/// the intake succeeds. It fails with the not-found failure of the first
/// reference row that is missing only where one is missing, and otherwise only
/// with a storage failure: for want of room, or because a transaction is open.
/// It never fails with a validation failure or an unexpected one.
pub proof fn lemma_intake_outcome(store: StoreView, request: LeadRequestView, now: Timestamp)
    requires
        store.wf(),
    ensures
        store.saved is None && references(store.tables, request.lead) is Ok && has_room(
            store.tables,
            store.limit,
            request,
        ) ==> intake(store, request, now).1 is Ok,
        intake(store, request, now).1 is Ok ==> store.saved is None && references(
            store.tables,
            request.lead,
        ) is Ok,
        intake(store, request, now).1 matches Err(error) ==> {
            ||| store.saved is Some && error == already_open()
            ||| references(store.tables, request.lead) == Err::<
                (ReferenceView, ReferenceView, ReferenceView),
                _,
            >(error)
            ||| out_of_room(error)
        },
{
    if store.saved is None {
        let tables = store.tables;
        let limit = store.limit;
        let lead = request.lead;
        lemma_resolve_contact(tables, limit, lead, now);
        match resolve_contact(tables, limit, lead, now) {
            Err(_) => {},
            Ok((first, contact)) => {
                lemma_resolve_company(first, limit, lead);
                match resolve_company(first, limit, lead) {
                    Err(_) => {},
                    Ok((second, company)) => {
                        assert(references(second, lead) == references(tables, lead));
                        match references(second, lead) {
                            Err(_) => {},
                            Ok((pack, urgency, status)) => {
                                lemma_named_refers(second.packs, recommended_pack_name(lead.concerns));
                                lemma_named_refers(second.urgencies, lead.urgency);
                                lemma_named_refers(second.statuses, initial_status_name());
                                match record_lead(
                                    second,
                                    limit,
                                    request,
                                    contact,
                                    company,
                                    pack,
                                    urgency,
                                    status,
                                    now,
                                ) {
                                    Err(_) => {},
                                    Ok((third, row)) => {
                                        second.lemma_add_lead(limit, row);
                                        lemma_link_positions_outcome(
                                            third,
                                            limit,
                                            row.id,
                                            lead.positions,
                                            Seq::empty(),
                                        );
                                        lemma_link_positions(
                                            third,
                                            limit,
                                            row.id,
                                            lead.positions,
                                            Seq::empty(),
                                        );
                                        match link_positions(
                                            third,
                                            limit,
                                            row.id,
                                            lead.positions,
                                            Seq::empty(),
                                        ) {
                                            Err(_) => {},
                                            Ok((fourth, positions)) => {
                                                lemma_link_concerns_outcome(
                                                    fourth,
                                                    limit,
                                                    row.id,
                                                    lead.concerns,
                                                    Seq::empty(),
                                                );
                                            },
                                        }
                                    },
                                }
                            },
                        }
                    },
                }
            },
        }
    }
}

} // verus!
