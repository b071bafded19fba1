//! A store that lives in memory: the tables of the data model, with their
//! uniqueness and reference constraints, a row limit, and transactions that
//! either keep every write or none.

use crate::application::error::{StorageError, StorageErrorKind, StorageErrorView};
use crate::application::protocol::{Command, CommandView, Reply, ReplyView};
use crate::domain::company::{Company, CompanyView};
use crate::domain::concern::{Concern, ConcernView};
use crate::domain::contact::{Contact, ContactView};
use crate::domain::lead::{
    Lead,
    LeadConcern,
    LeadPosition,
    LeadStatus,
    LeadUrgency,
    LeadView,
    RecommendedPack,
    ReferenceView,
};
use crate::domain::position::{Position, PositionView};
use crate::domain::timestamp::Timestamp;
use vstd::prelude::*;

verus! {

/// Where a key stands in a column, if it does.
pub open spec fn slot<K>(keys: Seq<K>, key: K) -> Option<int> {
    if keys.contains(key) {
        Some(keys.index_of(key))
    } else {
        None
    }
}

/// The names of some reference rows, in order.
pub open spec fn names_of(rows: Seq<ReferenceView>) -> Seq<Seq<char>> {
    Seq::new(rows.len(), |i: int| rows[i].name)
}

/// The reference row with this name, if there is one.
pub open spec fn named(rows: Seq<ReferenceView>, name: Seq<char>) -> Option<ReferenceView> {
    match slot(names_of(rows), name) {
        Some(i) => Some(rows[i]),
        None => None,
    }
}

/// The ids of a reference table count up from 1, and no name is used twice.
pub open spec fn reference_table(rows: Seq<ReferenceView>) -> bool {
    &&& forall|i: int| 0 <= i < rows.len() ==> (#[trigger] rows[i]).id == i + 1
    &&& names_of(rows).no_duplicates()
}

/// An id names a row of a table that holds `count` rows.
pub open spec fn refers(id: i32, count: nat) -> bool {
    1 <= id <= count
}

/// The reply that refuses a command.
pub open spec fn refusal(kind: StorageErrorKind, detail: Seq<char>) -> ReplyView {
    ReplyView::Failed(StorageErrorView { kind, detail })
}

/// A contact row after a new sighting: name, phone and job title overwritten,
/// update time refreshed; id, email and creation time kept.
pub open spec fn revised_contact(
    found: ContactView,
    name: Seq<char>,
    phone: Option<Seq<char>>,
    job_title: Option<Seq<char>>,
    now: Timestamp,
) -> ContactView {
    ContactView { name, phone, job_title, updated_at: now, ..found }
}

/// A company row after a new sighting: size overwritten; id and name kept.
pub open spec fn resized_company(found: CompanyView, size: Option<i32>) -> CompanyView {
    CompanyView { size, ..found }
}

/// The rows of every table.
pub struct TablesView {
    pub contacts: Seq<ContactView>,
    pub companies: Seq<CompanyView>,
    pub positions: Seq<PositionView>,
    pub concerns: Seq<ConcernView>,
    pub statuses: Seq<ReferenceView>,
    pub urgencies: Seq<ReferenceView>,
    pub packs: Seq<ReferenceView>,
    pub leads: Seq<LeadView>,
    pub lead_positions: Seq<LeadPosition>,
    pub lead_concerns: Seq<LeadConcern>,
}

impl TablesView {
    /// The email column of the contacts.
    pub open spec fn emails(self) -> Seq<Seq<char>> {
        Seq::new(self.contacts.len(), |i: int| self.contacts[i].email)
    }

    /// The name column of the companies.
    pub open spec fn company_names(self) -> Seq<Seq<char>> {
        Seq::new(self.companies.len(), |i: int| self.companies[i].name)
    }

    /// The title column of the positions.
    pub open spec fn titles(self) -> Seq<Seq<char>> {
        Seq::new(self.positions.len(), |i: int| self.positions[i].title)
    }

    /// The label column of the concerns.
    pub open spec fn labels(self) -> Seq<Option<Seq<char>>> {
        Seq::new(self.concerns.len(), |i: int| self.concerns[i].label)
    }

    /// The contact with this email, if there is one.
    pub open spec fn contact_by_email(self, email: Seq<char>) -> Option<ContactView> {
        match slot(self.emails(), email) {
            Some(i) => Some(self.contacts[i]),
            None => None,
        }
    }

    /// The company with this name, if there is one.
    pub open spec fn company_by_name(self, name: Seq<char>) -> Option<CompanyView> {
        match slot(self.company_names(), name) {
            Some(i) => Some(self.companies[i]),
            None => None,
        }
    }

    /// The position with this title, if there is one.
    pub open spec fn position_by_title(self, title: Seq<char>) -> Option<PositionView> {
        match slot(self.titles(), title) {
            Some(i) => Some(self.positions[i]),
            None => None,
        }
    }

    /// The concern with this label, if there is one.
    pub open spec fn concern_by_label(self, label: Seq<char>) -> Option<ConcernView> {
        match slot(self.labels(), Some(label)) {
            Some(i) => Some(self.concerns[i]),
            None => None,
        }
    }

    /// Every lead refers to rows that exist.
    pub open spec fn leads_refer(self) -> bool {
        forall|i: int|
            0 <= i < self.leads.len() ==> {
                let lead = #[trigger] self.leads[i];
                &&& lead.id == i + 1
                &&& refers(lead.contact_id, self.contacts.len())
                &&& refers(lead.company_id, self.companies.len())
                &&& refers(lead.status_id, self.statuses.len())
                &&& (lead.urgency_id matches Some(id) ==> refers(id, self.urgencies.len()))
                &&& (lead.recommended_pack_id matches Some(id) ==> refers(id, self.packs.len()))
            }
    }

    /// Every link refers to rows that exist.
    pub open spec fn links_refer(self) -> bool {
        &&& forall|i: int|
            0 <= i < self.lead_positions.len() ==> {
                let link = #[trigger] self.lead_positions[i];
                refers(link.lead_id, self.leads.len()) && refers(
                    link.position_id,
                    self.positions.len(),
                )
            }
        &&& forall|i: int|
            0 <= i < self.lead_concerns.len() ==> {
                let link = #[trigger] self.lead_concerns[i];
                refers(link.lead_id, self.leads.len()) && refers(link.concern_id, self.concerns.len())
            }
    }

    /// No table holds more rows than the limit.
    pub open spec fn within(self, limit: int) -> bool {
        &&& self.contacts.len() <= limit
        &&& self.companies.len() <= limit
        &&& self.positions.len() <= limit
        &&& self.concerns.len() <= limit
        &&& self.statuses.len() <= limit
        &&& self.urgencies.len() <= limit
        &&& self.packs.len() <= limit
        &&& self.leads.len() <= limit
        &&& self.lead_positions.len() <= limit
        &&& self.lead_concerns.len() <= limit
    }

    /// The tables are consistent: ids count up from 1 in every table, natural
    /// keys are unique, references point at rows that exist, and no table is
    /// over the limit.
    pub open spec fn wf(self, limit: int) -> bool {
        &&& self.within(limit)
        &&& forall|i: int| 0 <= i < self.contacts.len() ==> (#[trigger] self.contacts[i]).id == i + 1
        &&& forall|i: int| 0 <= i < self.companies.len() ==> (#[trigger] self.companies[i]).id == i + 1
        &&& forall|i: int| 0 <= i < self.positions.len() ==> (#[trigger] self.positions[i]).id == i + 1
        &&& forall|i: int| 0 <= i < self.concerns.len() ==> (#[trigger] self.concerns[i]).id == i + 1
        &&& self.emails().no_duplicates()
        &&& self.company_names().no_duplicates()
        &&& self.titles().no_duplicates()
        &&& self.labels().no_duplicates()
        &&& reference_table(self.statuses)
        &&& reference_table(self.urgencies)
        &&& reference_table(self.packs)
        &&& self.leads_refer()
        &&& self.links_refer()
    }

    /// The tables with no rows.
    pub open spec fn empty() -> TablesView {
        TablesView {
            contacts: Seq::empty(),
            companies: Seq::empty(),
            positions: Seq::empty(),
            concerns: Seq::empty(),
            statuses: Seq::empty(),
            urgencies: Seq::empty(),
            packs: Seq::empty(),
            leads: Seq::empty(),
            lead_positions: Seq::empty(),
            lead_concerns: Seq::empty(),
        }
    }

    /// The row of a new contact: the next id, created and updated now.
    pub open spec fn new_contact(
        self,
        name: Seq<char>,
        email: Seq<char>,
        phone: Option<Seq<char>>,
        job_title: Option<Seq<char>>,
        now: Timestamp,
    ) -> ContactView {
        ContactView {
            id: (self.contacts.len() + 1) as i32,
            name,
            email,
            phone,
            job_title,
            created_at: now,
            updated_at: now,
        }
    }

    /// The tables with one more contact.
    pub open spec fn add_contact(self, row: ContactView) -> TablesView {
        TablesView { contacts: self.contacts.push(row), ..self }
    }

    /// The tables with another row in a contact's place.
    pub open spec fn set_contact(self, at: int, row: ContactView) -> TablesView {
        TablesView { contacts: self.contacts.update(at, row), ..self }
    }

    /// The row of a new company: the next id.
    pub open spec fn new_company(self, name: Seq<char>, size: Option<i32>) -> CompanyView {
        CompanyView { id: (self.companies.len() + 1) as i32, name, size }
    }

    /// The tables with one more company.
    pub open spec fn add_company(self, row: CompanyView) -> TablesView {
        TablesView { companies: self.companies.push(row), ..self }
    }

    /// The tables with another row in a company's place.
    pub open spec fn set_company(self, at: int, row: CompanyView) -> TablesView {
        TablesView { companies: self.companies.update(at, row), ..self }
    }

    /// The row of a new lead: the next id; submitted, created and updated now;
    /// with its urgency, pack, maturity score and challenge answer set.
    pub open spec fn new_lead(
        self,
        contact_id: i32,
        company_id: i32,
        problem_summary: Option<Seq<char>>,
        estimated_users: Option<i32>,
        urgency_id: i32,
        status_id: i32,
        maturity_score: i32,
        recommended_pack_id: i32,
        altcha: Seq<char>,
        visitor_id: Option<Seq<char>>,
        now: Timestamp,
    ) -> LeadView {
        LeadView {
            id: (self.leads.len() + 1) as i32,
            submission_date: now,
            estimated_users,
            problem_summary,
            contact_id,
            company_id,
            recommended_pack_id: Some(recommended_pack_id),
            maturity_score: Some(maturity_score),
            urgency_id: Some(urgency_id),
            status_id,
            fingerprint_visitor_id: visitor_id,
            altcha_solution: Some(altcha),
            created_at: now,
            updated_at: now,
        }
    }

    /// The tables with one more lead.
    pub open spec fn add_lead(self, row: LeadView) -> TablesView {
        TablesView { leads: self.leads.push(row), ..self }
    }

    /// The row of a new position: the next id.
    pub open spec fn new_position(self, title: Seq<char>) -> PositionView {
        PositionView { id: (self.positions.len() + 1) as i32, title }
    }

    /// The tables with one more position.
    pub open spec fn add_position(self, row: PositionView) -> TablesView {
        TablesView { positions: self.positions.push(row), ..self }
    }

    /// The tables with a position tied to a lead.
    pub open spec fn add_position_link(self, lead_id: i32, position_id: i32) -> TablesView {
        TablesView {
            lead_positions: self.lead_positions.push(LeadPosition { lead_id, position_id }),
            ..self
        }
    }

    /// The row of a new concern: the next id.
    pub open spec fn new_concern(self, label: Seq<char>) -> ConcernView {
        ConcernView { id: (self.concerns.len() + 1) as i32, label: Some(label) }
    }

    /// The tables with one more concern.
    pub open spec fn add_concern(self, row: ConcernView) -> TablesView {
        TablesView { concerns: self.concerns.push(row), ..self }
    }

    /// The tables with a concern tied to a lead.
    pub open spec fn add_concern_link(self, lead_id: i32, concern_id: i32) -> TablesView {
        TablesView {
            lead_concerns: self.lead_concerns.push(LeadConcern { lead_id, concern_id }),
            ..self
        }
    }

    /// Adds a contact. Refused where the email is taken or the table is full.
    pub open spec fn insert_contact(
        self,
        limit: int,
        name: Seq<char>,
        email: Seq<char>,
        phone: Option<Seq<char>>,
        job_title: Option<Seq<char>>,
        now: Timestamp,
    ) -> (TablesView, ReplyView) {
        if self.emails().contains(email) {
            (self, refusal(StorageErrorKind::Constraint, "contacts"@))
        } else if self.contacts.len() >= limit {
            (self, refusal(StorageErrorKind::Capacity, "contacts"@))
        } else {
            let row = self.new_contact(name, email, phone, job_title, now);
            (self.add_contact(row), ReplyView::Contact(Some(row)))
        }
    }

    /// Overwrites a contact's name, phone and job title and refreshes its
    /// update time. Where no row has the id, nothing changes and no row is
    /// returned.
    pub open spec fn update_contact(
        self,
        id: i32,
        name: Seq<char>,
        phone: Option<Seq<char>>,
        job_title: Option<Seq<char>>,
        now: Timestamp,
    ) -> (TablesView, ReplyView) {
        if refers(id, self.contacts.len()) {
            let row = revised_contact(self.contacts[id - 1], name, phone, job_title, now);
            (self.set_contact(id - 1, row), ReplyView::Contact(Some(row)))
        } else {
            (self, ReplyView::Contact(None))
        }
    }

    /// Adds a company. Refused where the name is taken or the table is full.
    pub open spec fn insert_company(self, limit: int, name: Seq<char>, size: Option<i32>) -> (
        TablesView,
        ReplyView,
    ) {
        if self.company_names().contains(name) {
            (self, refusal(StorageErrorKind::Constraint, "companies"@))
        } else if self.companies.len() >= limit {
            (self, refusal(StorageErrorKind::Capacity, "companies"@))
        } else {
            let row = self.new_company(name, size);
            (self.add_company(row), ReplyView::Company(Some(row)))
        }
    }

    /// Overwrites a company's size. Where no row has the id, nothing changes
    /// and no row is returned.
    pub open spec fn update_company(self, id: i32, size: Option<i32>) -> (TablesView, ReplyView) {
        if refers(id, self.companies.len()) {
            let row = resized_company(self.companies[id - 1], size);
            (self.set_company(id - 1, row), ReplyView::Company(Some(row)))
        } else {
            (self, ReplyView::Company(None))
        }
    }

    /// Adds a lead. Refused where it refers to a row that does not exist or
    /// the table is full.
    pub open spec fn insert_lead(
        self,
        limit: int,
        contact_id: i32,
        company_id: i32,
        problem_summary: Option<Seq<char>>,
        estimated_users: Option<i32>,
        urgency_id: i32,
        status_id: i32,
        maturity_score: i32,
        recommended_pack_id: i32,
        altcha: Seq<char>,
        visitor_id: Option<Seq<char>>,
        now: Timestamp,
    ) -> (TablesView, ReplyView) {
        if !(refers(contact_id, self.contacts.len()) && refers(company_id, self.companies.len())
            && refers(urgency_id, self.urgencies.len()) && refers(status_id, self.statuses.len())
            && refers(recommended_pack_id, self.packs.len())) {
            (self, refusal(StorageErrorKind::Constraint, "leads"@))
        } else if self.leads.len() >= limit {
            (self, refusal(StorageErrorKind::Capacity, "leads"@))
        } else {
            let row = self.new_lead(
                contact_id,
                company_id,
                problem_summary,
                estimated_users,
                urgency_id,
                status_id,
                maturity_score,
                recommended_pack_id,
                altcha,
                visitor_id,
                now,
            );
            (self.add_lead(row), ReplyView::Lead(row))
        }
    }

    /// Adds a position. Refused where the title is taken or the table is full.
    pub open spec fn insert_position(self, limit: int, title: Seq<char>) -> (TablesView, ReplyView) {
        if self.titles().contains(title) {
            (self, refusal(StorageErrorKind::Constraint, "positions"@))
        } else if self.positions.len() >= limit {
            (self, refusal(StorageErrorKind::Capacity, "positions"@))
        } else {
            let row = self.new_position(title);
            (self.add_position(row), ReplyView::Position(Some(row)))
        }
    }

    /// Ties a position to a lead. Refused where either does not exist or the
    /// table is full. Tying the same pair again adds another row.
    pub open spec fn link_position(self, limit: int, lead_id: i32, position_id: i32) -> (
        TablesView,
        ReplyView,
    ) {
        if !(refers(lead_id, self.leads.len()) && refers(position_id, self.positions.len())) {
            (self, refusal(StorageErrorKind::Constraint, "lead_positions"@))
        } else if self.lead_positions.len() >= limit {
            (self, refusal(StorageErrorKind::Capacity, "lead_positions"@))
        } else {
            (self.add_position_link(lead_id, position_id), ReplyView::Done)
        }
    }

    /// Adds a concern. Refused where the label is taken or the table is full.
    pub open spec fn insert_concern(self, limit: int, label: Seq<char>) -> (TablesView, ReplyView) {
        if self.labels().contains(Some(label)) {
            (self, refusal(StorageErrorKind::Constraint, "concerns"@))
        } else if self.concerns.len() >= limit {
            (self, refusal(StorageErrorKind::Capacity, "concerns"@))
        } else {
            let row = self.new_concern(label);
            (self.add_concern(row), ReplyView::Concern(Some(row)))
        }
    }

    /// Ties a concern to a lead. Refused where either does not exist or the
    /// table is full. Tying the same pair again adds another row.
    pub open spec fn link_concern(self, limit: int, lead_id: i32, concern_id: i32) -> (
        TablesView,
        ReplyView,
    ) {
        if !(refers(lead_id, self.leads.len()) && refers(concern_id, self.concerns.len())) {
            (self, refusal(StorageErrorKind::Constraint, "lead_concerns"@))
        } else if self.lead_concerns.len() >= limit {
            (self, refusal(StorageErrorKind::Capacity, "lead_concerns"@))
        } else {
            (self.add_concern_link(lead_id, concern_id), ReplyView::Done)
        }
    }
}

/// What a store holds: its tables, the tables as they were when the open
/// transaction began (if one is open), and the row limit of every table.
pub struct StoreView {
    pub tables: TablesView,
    pub saved: Option<TablesView>,
    pub limit: int,
}

impl StoreView {
    /// The store is consistent: so are its tables, and those it would go back to.
    pub open spec fn wf(self) -> bool {
        &&& 0 <= self.limit <= i32::MAX
        &&& self.tables.wf(self.limit)
        &&& (self.saved matches Some(tables) ==> tables.wf(self.limit))
    }

    /// The store with other tables.
    pub open spec fn with(self, change: (TablesView, ReplyView)) -> (StoreView, ReplyView) {
        (StoreView { tables: change.0, ..self }, change.1)
    }

    /// What a command does to the store, and the reply it gets.
    pub open spec fn apply(self, command: CommandView, now: Timestamp) -> (StoreView, ReplyView) {
        let tables = self.tables;
        match command {
            CommandView::Begin => if self.saved is Some {
                (self, refusal(StorageErrorKind::Transaction, "begin"@))
            } else {
                (StoreView { saved: Some(tables), ..self }, ReplyView::Done)
            },
            CommandView::Commit => if self.saved is Some {
                (StoreView { saved: None, ..self }, ReplyView::Done)
            } else {
                (self, refusal(StorageErrorKind::Transaction, "commit"@))
            },
            CommandView::Rollback => match self.saved {
                Some(before) => (StoreView { tables: before, saved: None, ..self }, ReplyView::Done),
                None => (self, refusal(StorageErrorKind::Transaction, "rollback"@)),
            },
            CommandView::FindContact { email } => (self, ReplyView::Contact(tables.contact_by_email(email))),
            CommandView::InsertContact { name, email, phone, job_title } => self.with(
                tables.insert_contact(self.limit, name, email, phone, job_title, now),
            ),
            CommandView::UpdateContact { id, name, phone, job_title } => self.with(
                tables.update_contact(id, name, phone, job_title, now),
            ),
            CommandView::FindCompany { name } => (self, ReplyView::Company(tables.company_by_name(name))),
            CommandView::InsertCompany { name, size } => self.with(
                tables.insert_company(self.limit, name, size),
            ),
            CommandView::UpdateCompany { id, size } => self.with(tables.update_company(id, size)),
            CommandView::FindPack { name } => (self, ReplyView::Pack(named(tables.packs, name))),
            CommandView::FindUrgency { name } => (self, ReplyView::Urgency(named(tables.urgencies, name))),
            CommandView::FindStatus { name } => (self, ReplyView::Status(named(tables.statuses, name))),
            CommandView::InsertLead {
                contact_id,
                company_id,
                problem_summary,
                estimated_users,
                urgency_id,
                status_id,
                maturity_score,
                recommended_pack_id,
                altcha,
                visitor_id,
            } => self.with(
                tables.insert_lead(
                    self.limit,
                    contact_id,
                    company_id,
                    problem_summary,
                    estimated_users,
                    urgency_id,
                    status_id,
                    maturity_score,
                    recommended_pack_id,
                    altcha,
                    visitor_id,
                    now,
                ),
            ),
            CommandView::FindPosition { title } => (
                self,
                ReplyView::Position(tables.position_by_title(title)),
            ),
            CommandView::InsertPosition { title } => self.with(tables.insert_position(self.limit, title)),
            CommandView::LinkPosition { lead_id, position_id } => self.with(
                tables.link_position(self.limit, lead_id, position_id),
            ),
            CommandView::FindConcern { label } => (self, ReplyView::Concern(tables.concern_by_label(label))),
            CommandView::InsertConcern { label } => self.with(tables.insert_concern(self.limit, label)),
            CommandView::LinkConcern { lead_id, concern_id } => self.with(
                tables.link_concern(self.limit, lead_id, concern_id),
            ),
        }
    }
}

/// A key that stands at an index of a column without duplicates has that slot.
pub proof fn lemma_slot_found<K>(keys: Seq<K>, key: K, i: int)
    requires
        keys.no_duplicates(),
        0 <= i < keys.len(),
        keys[i] == key,
    ensures
        slot(keys, key) == Some(i),
{
    assert(keys.contains(key));
}

/// A column without duplicates stays so when a key it lacks is added.
proof fn lemma_push_fresh<K>(keys: Seq<K>, key: K)
    requires
        keys.no_duplicates(),
        !keys.contains(key),
    ensures
        keys.push(key).no_duplicates(),
{
    let longer = keys.push(key);
    assert forall|i: int, j: int| 0 <= i < longer.len() && 0 <= j < longer.len() && i != j implies longer[i]
        != longer[j] by {
        if i < keys.len() && j < keys.len() {
            assert(keys[i] != keys[j]);
        } else if i < keys.len() {
            assert(keys[i] == longer[i]);
        } else {
            assert(keys[j] == longer[j]);
        }
    }
}

impl TablesView {
    /// Adding a contact with a fresh email and the next id keeps the tables consistent.
    pub proof fn lemma_add_contact(self, limit: int, row: ContactView)
        requires
            self.wf(limit),
            self.contacts.len() < limit <= i32::MAX,
            row.id == self.contacts.len() + 1,
            !self.emails().contains(row.email),
        ensures
            self.add_contact(row).wf(limit),
            self.add_contact(row).emails() == self.emails().push(row.email),
    {
        let after = self.add_contact(row);
        assert(after.emails() =~= self.emails().push(row.email));
        lemma_push_fresh(self.emails(), row.email);
        assert(after.company_names() =~= self.company_names());
        assert(after.titles() =~= self.titles());
        assert(after.labels() =~= self.labels());
    }

    /// Replacing a contact by a row with its id and email keeps the tables consistent.
    pub proof fn lemma_set_contact(self, limit: int, at: int, row: ContactView)
        requires
            self.wf(limit),
            0 <= at < self.contacts.len(),
            row.id == self.contacts[at].id,
            row.email == self.contacts[at].email,
        ensures
            self.set_contact(at, row).wf(limit),
            self.set_contact(at, row).emails() == self.emails(),
    {
        let after = self.set_contact(at, row);
        assert(after.emails() =~= self.emails());
        assert(after.company_names() =~= self.company_names());
        assert(after.titles() =~= self.titles());
        assert(after.labels() =~= self.labels());
    }

    /// Adding a company with a fresh name and the next id keeps the tables consistent.
    pub proof fn lemma_add_company(self, limit: int, row: CompanyView)
        requires
            self.wf(limit),
            self.companies.len() < limit <= i32::MAX,
            row.id == self.companies.len() + 1,
            !self.company_names().contains(row.name),
        ensures
            self.add_company(row).wf(limit),
            self.add_company(row).company_names() == self.company_names().push(row.name),
    {
        let after = self.add_company(row);
        assert(after.company_names() =~= self.company_names().push(row.name));
        lemma_push_fresh(self.company_names(), row.name);
        assert(after.emails() =~= self.emails());
        assert(after.titles() =~= self.titles());
        assert(after.labels() =~= self.labels());
    }

    /// Replacing a company by a row with its id and name keeps the tables consistent.
    pub proof fn lemma_set_company(self, limit: int, at: int, row: CompanyView)
        requires
            self.wf(limit),
            0 <= at < self.companies.len(),
            row.id == self.companies[at].id,
            row.name == self.companies[at].name,
        ensures
            self.set_company(at, row).wf(limit),
            self.set_company(at, row).company_names() == self.company_names(),
    {
        let after = self.set_company(at, row);
        assert(after.company_names() =~= self.company_names());
        assert(after.emails() =~= self.emails());
        assert(after.titles() =~= self.titles());
        assert(after.labels() =~= self.labels());
    }

    /// Adding a lead with the next id that refers to rows that exist keeps the
    /// tables consistent.
    pub proof fn lemma_add_lead(self, limit: int, row: LeadView)
        requires
            self.wf(limit),
            self.leads.len() < limit <= i32::MAX,
            row.id == self.leads.len() + 1,
            refers(row.contact_id, self.contacts.len()),
            refers(row.company_id, self.companies.len()),
            refers(row.status_id, self.statuses.len()),
            row.urgency_id matches Some(id) ==> refers(id, self.urgencies.len()),
            row.recommended_pack_id matches Some(id) ==> refers(id, self.packs.len()),
        ensures
            self.add_lead(row).wf(limit),
    {
        let after = self.add_lead(row);
        assert(after.emails() =~= self.emails());
        assert(after.company_names() =~= self.company_names());
        assert(after.titles() =~= self.titles());
        assert(after.labels() =~= self.labels());
    }

    /// Adding a position with a fresh title and the next id keeps the tables consistent.
    pub proof fn lemma_add_position(self, limit: int, row: PositionView)
        requires
            self.wf(limit),
            self.positions.len() < limit <= i32::MAX,
            row.id == self.positions.len() + 1,
            !self.titles().contains(row.title),
        ensures
            self.add_position(row).wf(limit),
            self.add_position(row).titles() == self.titles().push(row.title),
    {
        let after = self.add_position(row);
        assert(after.titles() =~= self.titles().push(row.title));
        lemma_push_fresh(self.titles(), row.title);
        assert(after.emails() =~= self.emails());
        assert(after.company_names() =~= self.company_names());
        assert(after.labels() =~= self.labels());
    }

    /// Tying a position that exists to a lead that exists keeps the tables consistent.
    pub proof fn lemma_add_position_link(self, limit: int, lead_id: i32, position_id: i32)
        requires
            self.wf(limit),
            self.lead_positions.len() < limit,
            refers(lead_id, self.leads.len()),
            refers(position_id, self.positions.len()),
        ensures
            self.add_position_link(lead_id, position_id).wf(limit),
    {
        let after = self.add_position_link(lead_id, position_id);
        assert(after.emails() =~= self.emails());
        assert(after.company_names() =~= self.company_names());
        assert(after.titles() =~= self.titles());
        assert(after.labels() =~= self.labels());
    }

    /// Adding a concern with a fresh label and the next id keeps the tables consistent.
    pub proof fn lemma_add_concern(self, limit: int, row: ConcernView)
        requires
            self.wf(limit),
            self.concerns.len() < limit <= i32::MAX,
            row.id == self.concerns.len() + 1,
            !self.labels().contains(row.label),
        ensures
            self.add_concern(row).wf(limit),
            self.add_concern(row).labels() == self.labels().push(row.label),
    {
        let after = self.add_concern(row);
        assert(after.labels() =~= self.labels().push(row.label));
        lemma_push_fresh(self.labels(), row.label);
        assert(after.emails() =~= self.emails());
        assert(after.company_names() =~= self.company_names());
        assert(after.titles() =~= self.titles());
    }

    /// Tying a concern that exists to a lead that exists keeps the tables consistent.
    pub proof fn lemma_add_concern_link(self, limit: int, lead_id: i32, concern_id: i32)
        requires
            self.wf(limit),
            self.lead_concerns.len() < limit,
            refers(lead_id, self.leads.len()),
            refers(concern_id, self.concerns.len()),
        ensures
            self.add_concern_link(lead_id, concern_id).wf(limit),
    {
        let after = self.add_concern_link(lead_id, concern_id);
        assert(after.emails() =~= self.emails());
        assert(after.company_names() =~= self.company_names());
        assert(after.titles() =~= self.titles());
        assert(after.labels() =~= self.labels());
    }
}

/// A reference row that a lookup gives is a row of its table and has the name
/// that was looked up.
pub proof fn lemma_named_refers(rows: Seq<ReferenceView>, name: Seq<char>)
    requires
        reference_table(rows),
    ensures
        named(rows, name) matches Some(row) ==> refers(row.id, rows.len()) && row.name == name,
{
    let names = names_of(rows);
    if names.contains(name) {
        let at = names.index_of(name);
        assert(names[at] == name);
        assert(rows[at].id == at + 1);
    }
}

/// A row of a reference table.
#[derive(Debug)]
struct Named {
    id: i32,
    name: String,
}

impl View for Named {
    type V = ReferenceView;

    closed spec fn view(&self) -> ReferenceView {
        ReferenceView { id: self.id, name: self.name@ }
    }
}

impl DeepView for Named {
    type V = ReferenceView;

    closed spec fn deep_view(&self) -> ReferenceView {
        self@
    }
}

impl Clone for Named {
    fn clone(&self) -> (r: Self)
        ensures
            r == *self,
    {
        Named { id: self.id, name: self.name.clone() }
    }
}

/// The reply that refuses a command.
fn refuse(kind: StorageErrorKind, detail: &str) -> (reply: Reply)
    ensures
        reply@ == refusal(kind, detail@),
{
    Reply::Failed(StorageError::new(kind, detail))
}

/// Where the reference row with this name stands, if there is one.
fn find_named(rows: &Vec<Named>, name: &String) -> (found: Option<usize>)
    requires
        reference_table(rows.deep_view()),
    ensures
        (match found {
            Some(i) => i < rows.len() && slot(names_of(rows.deep_view()), name@) == Some(i as int),
            None => slot(names_of(rows.deep_view()), name@) is None,
        }),
{
    let ghost names = names_of(rows.deep_view());
    let mut i: usize = 0;
    while i < rows.len()
        invariant
            i <= rows.len(),
            names == names_of(rows.deep_view()),
            names.no_duplicates(),
            forall|k: int| 0 <= k < i ==> names[k] != name@,
        decreases rows.len() - i,
    {
        if rows[i].name == *name {
            proof {
                lemma_slot_found(names, name@, i as int);
            }
            return Some(i);
        }
        i = i + 1;
    }
    None
}

/// Adds a row to a reference table, unless one has the name already.
fn seed_named(rows: &mut Vec<Named>, limit: usize, table: &str, name: &str) -> (seeded: Result<
    Named,
    StorageError,
>)
    requires
        reference_table(old(rows).deep_view()),
        old(rows).len() <= limit <= i32::MAX,
    ensures
        (final(rows).deep_view(), seeded_view(seeded)) == seeded_table(
            old(rows).deep_view(),
            limit as int,
            table@,
            name@,
        ),
        reference_table(final(rows).deep_view()),
        final(rows).len() <= limit,
        final(rows).len() >= old(rows).len(),
{
    let wanted: String = name.to_owned();
    let ghost before = rows.deep_view();
    match find_named(rows, &wanted) {
        Some(i) => Ok(rows[i].clone()),
        None => {
            if rows.len() >= limit {
                Err(StorageError::new(StorageErrorKind::Capacity, table))
            } else {
                let row = Named { id: (rows.len() + 1) as i32, name: wanted };
                let kept = row.clone();
                rows.push(row);
                proof {
                    assert(rows.deep_view() =~= before.push(kept@));
                    assert(names_of(rows.deep_view()) =~= names_of(before).push(name@));
                    lemma_push_fresh(names_of(before), name@);
                }
                Ok(kept)
            }
        },
    }
}

/// What seeding returns.
spec fn seeded_view(seeded: Result<Named, StorageError>) -> Result<
    ReferenceView,
    StorageErrorView,
> {
    match seeded {
        Ok(row) => Ok(row@),
        Err(error) => Err(error@),
    }
}

/// Seeding a reference table: the row with the name where there is one, else
/// a new row at the end, else a refusal where the table is full.
pub open spec fn seeded_table(
    rows: Seq<ReferenceView>,
    limit: int,
    table: Seq<char>,
    name: Seq<char>,
) -> (
    Seq<ReferenceView>,
    Result<ReferenceView, StorageErrorView>,
) {
    match named(rows, name) {
        Some(row) => (rows, Ok(row)),
        None => if rows.len() >= limit {
            (rows, Err(StorageErrorView { kind: StorageErrorKind::Capacity, detail: table }))
        } else {
            let row = ReferenceView { id: (rows.len() + 1) as i32, name };
            (rows.push(row), Ok(row))
        },
    }
}

/// The rows of every table.
#[derive(Debug)]
struct Tables {
    contacts: Vec<Contact>,
    companies: Vec<Company>,
    positions: Vec<Position>,
    concerns: Vec<Concern>,
    statuses: Vec<Named>,
    urgencies: Vec<Named>,
    packs: Vec<Named>,
    leads: Vec<Lead>,
    lead_positions: Vec<LeadPosition>,
    lead_concerns: Vec<LeadConcern>,
}

impl View for Tables {
    type V = TablesView;

    closed spec fn view(&self) -> TablesView {
        TablesView {
            contacts: self.contacts.deep_view(),
            companies: self.companies.deep_view(),
            positions: self.positions.deep_view(),
            concerns: self.concerns.deep_view(),
            statuses: self.statuses.deep_view(),
            urgencies: self.urgencies.deep_view(),
            packs: self.packs.deep_view(),
            leads: self.leads.deep_view(),
            lead_positions: self.lead_positions@,
            lead_concerns: self.lead_concerns@,
        }
    }
}

impl Clone for Tables {
    fn clone(&self) -> (r: Self)
        ensures
            r@ == self@,
    {
        let r = Tables {
            contacts: self.contacts.clone(),
            companies: self.companies.clone(),
            positions: self.positions.clone(),
            concerns: self.concerns.clone(),
            statuses: self.statuses.clone(),
            urgencies: self.urgencies.clone(),
            packs: self.packs.clone(),
            leads: self.leads.clone(),
            lead_positions: self.lead_positions.clone(),
            lead_concerns: self.lead_concerns.clone(),
        };
        proof {
            assert(r.contacts.deep_view() =~= self.contacts.deep_view());
            assert(r.companies.deep_view() =~= self.companies.deep_view());
            assert(r.positions.deep_view() =~= self.positions.deep_view());
            assert(r.concerns.deep_view() =~= self.concerns.deep_view());
            assert(r.statuses.deep_view() =~= self.statuses.deep_view());
            assert(r.urgencies.deep_view() =~= self.urgencies.deep_view());
            assert(r.packs.deep_view() =~= self.packs.deep_view());
            assert(r.leads.deep_view() =~= self.leads.deep_view());
            assert(r.lead_positions@ =~= self.lead_positions@);
            assert(r.lead_concerns@ =~= self.lead_concerns@);
        }
        r
    }
}

impl Tables {
    /// The tables with no rows.
    fn new() -> (r: Self)
        ensures
            r@ == TablesView::empty(),
    {
        let r = Tables {
            contacts: Vec::new(),
            companies: Vec::new(),
            positions: Vec::new(),
            concerns: Vec::new(),
            statuses: Vec::new(),
            urgencies: Vec::new(),
            packs: Vec::new(),
            leads: Vec::new(),
            lead_positions: Vec::new(),
            lead_concerns: Vec::new(),
        };
        proof {
            assert(r.contacts.deep_view() =~= Seq::<ContactView>::empty());
            assert(r.companies.deep_view() =~= Seq::<CompanyView>::empty());
            assert(r.positions.deep_view() =~= Seq::<PositionView>::empty());
            assert(r.concerns.deep_view() =~= Seq::<ConcernView>::empty());
            assert(r.statuses.deep_view() =~= Seq::<ReferenceView>::empty());
            assert(r.urgencies.deep_view() =~= Seq::<ReferenceView>::empty());
            assert(r.packs.deep_view() =~= Seq::<ReferenceView>::empty());
            assert(r.leads.deep_view() =~= Seq::<LeadView>::empty());
        }
        r
    }

    /// Where the contact with this email stands, if there is one.
    fn find_contact(&self, email: &String) -> (found: Option<usize>)
        requires
            self@.emails().no_duplicates(),
        ensures
            (match found {
                Some(i) => i < self.contacts.len() && slot(self@.emails(), email@) == Some(i as int),
                None => slot(self@.emails(), email@) is None,
            }),
    {
        let ghost keys = self@.emails();
        let mut i: usize = 0;
        while i < self.contacts.len()
            invariant
                i <= self.contacts.len(),
                keys == self@.emails(),
                keys.no_duplicates(),
                forall|k: int| 0 <= k < i ==> keys[k] != email@,
            decreases self.contacts.len() - i,
        {
            if self.contacts[i].email == *email {
                proof {
                    lemma_slot_found(keys, email@, i as int);
                }
                return Some(i);
            }
            i = i + 1;
        }
        None
    }

    /// Where the company with this name stands, if there is one.
    fn find_company(&self, name: &String) -> (found: Option<usize>)
        requires
            self@.company_names().no_duplicates(),
        ensures
            (match found {
                Some(i) => i < self.companies.len() && slot(self@.company_names(), name@) == Some(
                    i as int,
                ),
                None => slot(self@.company_names(), name@) is None,
            }),
    {
        let ghost keys = self@.company_names();
        let mut i: usize = 0;
        while i < self.companies.len()
            invariant
                i <= self.companies.len(),
                keys == self@.company_names(),
                keys.no_duplicates(),
                forall|k: int| 0 <= k < i ==> keys[k] != name@,
            decreases self.companies.len() - i,
        {
            if self.companies[i].name == *name {
                proof {
                    lemma_slot_found(keys, name@, i as int);
                }
                return Some(i);
            }
            i = i + 1;
        }
        None
    }

    /// Where the position with this title stands, if there is one.
    fn find_position(&self, title: &String) -> (found: Option<usize>)
        requires
            self@.titles().no_duplicates(),
        ensures
            (match found {
                Some(i) => i < self.positions.len() && slot(self@.titles(), title@) == Some(i as int),
                None => slot(self@.titles(), title@) is None,
            }),
    {
        let ghost keys = self@.titles();
        let mut i: usize = 0;
        while i < self.positions.len()
            invariant
                i <= self.positions.len(),
                keys == self@.titles(),
                keys.no_duplicates(),
                forall|k: int| 0 <= k < i ==> keys[k] != title@,
            decreases self.positions.len() - i,
        {
            if self.positions[i].title == *title {
                proof {
                    lemma_slot_found(keys, title@, i as int);
                }
                return Some(i);
            }
            i = i + 1;
        }
        None
    }

    /// Where the concern with this label stands, if there is one.
    fn find_concern(&self, label: &String) -> (found: Option<usize>)
        requires
            self@.labels().no_duplicates(),
        ensures
            (match found {
                Some(i) => i < self.concerns.len() && slot(self@.labels(), Some(label@)) == Some(
                    i as int,
                ),
                None => slot(self@.labels(), Some(label@)) is None,
            }),
    {
        let ghost keys = self@.labels();
        let mut i: usize = 0;
        while i < self.concerns.len()
            invariant
                i <= self.concerns.len(),
                keys == self@.labels(),
                keys.no_duplicates(),
                forall|k: int| 0 <= k < i ==> keys[k] != Some(label@),
            decreases self.concerns.len() - i,
        {
            let same = match &self.concerns[i].label {
                Some(text) => *text == *label,
                None => false,
            };
            if same {
                proof {
                    lemma_slot_found(keys, Some(label@), i as int);
                }
                return Some(i);
            }
            i = i + 1;
        }
        None
    }
}

impl Tables {
    /// Reads the contact with this email.
    fn read_contact(&self, email: &String) -> (reply: Reply)
        requires
            self@.emails().no_duplicates(),
        ensures
            reply@ == ReplyView::Contact(self@.contact_by_email(email@)),
    {
        match self.find_contact(email) {
            Some(i) => Reply::Contact(Some(self.contacts[i].clone())),
            None => Reply::Contact(None),
        }
    }

    /// Adds a contact.
    fn insert_contact(
        &mut self,
        limit: usize,
        name: String,
        email: String,
        phone: Option<String>,
        job_title: Option<String>,
        now: Timestamp,
    ) -> (reply: Reply)
        requires
            old(self)@.wf(limit as int),
            limit <= i32::MAX,
        ensures
            (final(self)@, reply@) == old(self)@.insert_contact(
                limit as int,
                name@,
                email@,
                phone.deep_view(),
                job_title.deep_view(),
                now,
            ),
            final(self)@.wf(limit as int),
    {
        if self.find_contact(&email).is_some() {
            return refuse(StorageErrorKind::Constraint, "contacts");
        }
        if self.contacts.len() >= limit {
            return refuse(StorageErrorKind::Capacity, "contacts");
        }
        let row = Contact {
            id: (self.contacts.len() + 1) as i32,
            name,
            email,
            phone,
            job_title,
            created_at: now,
            updated_at: now,
        };
        let kept = row.clone();
        let ghost before = self@;
        self.contacts.push(row);
        proof {
            assert(self@.contacts =~= before.contacts.push(kept@));
            assert(self@.emails() =~= before.emails().push(email@));
            lemma_push_fresh(before.emails(), email@);
            assert(self@.company_names() =~= before.company_names());
            assert(self@.titles() =~= before.titles());
            assert(self@.labels() =~= before.labels());
        }
        Reply::Contact(Some(kept))
    }

    /// Overwrites a contact's name, phone and job title and refreshes its
    /// update time.
    fn update_contact(
        &mut self,
        limit: usize,
        id: i32,
        name: String,
        phone: Option<String>,
        job_title: Option<String>,
        now: Timestamp,
    ) -> (reply: Reply)
        requires
            old(self)@.wf(limit as int),
        ensures
            (final(self)@, reply@) == old(self)@.update_contact(
                id,
                name@,
                phone.deep_view(),
                job_title.deep_view(),
                now,
            ),
            final(self)@.wf(limit as int),
    {
        if id < 1 || id as usize > self.contacts.len() {
            return Reply::Contact(None);
        }
        let at: usize = (id - 1) as usize;
        let row = Contact {
            id: self.contacts[at].id,
            name,
            email: self.contacts[at].email.clone(),
            phone,
            job_title,
            created_at: self.contacts[at].created_at,
            updated_at: now,
        };
        let kept = row.clone();
        let ghost before = self@;
        self.contacts.set(at, row);
        proof {
            assert(self@.contacts =~= before.contacts.update(at as int, kept@));
            assert(self@.emails() =~= before.emails());
            assert(self@.company_names() =~= before.company_names());
            assert(self@.titles() =~= before.titles());
            assert(self@.labels() =~= before.labels());
        }
        Reply::Contact(Some(kept))
    }

    /// Reads the company with this name.
    fn read_company(&self, name: &String) -> (reply: Reply)
        requires
            self@.company_names().no_duplicates(),
        ensures
            reply@ == ReplyView::Company(self@.company_by_name(name@)),
    {
        match self.find_company(name) {
            Some(i) => Reply::Company(Some(self.companies[i].clone())),
            None => Reply::Company(None),
        }
    }

    /// Adds a company.
    fn insert_company(&mut self, limit: usize, name: String, size: Option<i32>) -> (reply: Reply)
        requires
            old(self)@.wf(limit as int),
            limit <= i32::MAX,
        ensures
            (final(self)@, reply@) == old(self)@.insert_company(limit as int, name@, size),
            final(self)@.wf(limit as int),
    {
        if self.find_company(&name).is_some() {
            return refuse(StorageErrorKind::Constraint, "companies");
        }
        if self.companies.len() >= limit {
            return refuse(StorageErrorKind::Capacity, "companies");
        }
        let row = Company { id: (self.companies.len() + 1) as i32, name, size };
        let kept = row.clone();
        let ghost before = self@;
        self.companies.push(row);
        proof {
            assert(self@.companies =~= before.companies.push(kept@));
            assert(self@.company_names() =~= before.company_names().push(name@));
            lemma_push_fresh(before.company_names(), name@);
            assert(self@.emails() =~= before.emails());
            assert(self@.titles() =~= before.titles());
            assert(self@.labels() =~= before.labels());
        }
        Reply::Company(Some(kept))
    }

    /// Overwrites a company's size.
    fn update_company(&mut self, limit: usize, id: i32, size: Option<i32>) -> (reply: Reply)
        requires
            old(self)@.wf(limit as int),
        ensures
            (final(self)@, reply@) == old(self)@.update_company(id, size),
            final(self)@.wf(limit as int),
    {
        if id < 1 || id as usize > self.companies.len() {
            return Reply::Company(None);
        }
        let at: usize = (id - 1) as usize;
        let row = Company { id: self.companies[at].id, name: self.companies[at].name.clone(), size };
        let kept = row.clone();
        let ghost before = self@;
        self.companies.set(at, row);
        proof {
            assert(self@.companies =~= before.companies.update(at as int, kept@));
            assert(self@.company_names() =~= before.company_names());
            assert(self@.emails() =~= before.emails());
            assert(self@.titles() =~= before.titles());
            assert(self@.labels() =~= before.labels());
        }
        Reply::Company(Some(kept))
    }
}

/// Whether an id names a row of a table that holds `count` rows.
fn id_refers(id: i32, count: usize) -> (r: bool)
    ensures
        r == refers(id, count as nat),
{
    id >= 1 && id as usize <= count
}

impl Tables {
    /// Reads the recommended pack with this name.
    fn read_pack(&self, name: &String) -> (reply: Reply)
        requires
            reference_table(self@.packs),
        ensures
            reply@ == ReplyView::Pack(named(self@.packs, name@)),
    {
        match find_named(&self.packs, name) {
            Some(i) => Reply::Pack(
                Some(RecommendedPack { id: self.packs[i].id, name: self.packs[i].name.clone() }),
            ),
            None => Reply::Pack(None),
        }
    }

    /// Reads the urgency with this name.
    fn read_urgency(&self, name: &String) -> (reply: Reply)
        requires
            reference_table(self@.urgencies),
        ensures
            reply@ == ReplyView::Urgency(named(self@.urgencies, name@)),
    {
        match find_named(&self.urgencies, name) {
            Some(i) => Reply::Urgency(
                Some(LeadUrgency { id: self.urgencies[i].id, name: self.urgencies[i].name.clone() }),
            ),
            None => Reply::Urgency(None),
        }
    }

    /// Reads the status with this name.
    fn read_status(&self, name: &String) -> (reply: Reply)
        requires
            reference_table(self@.statuses),
        ensures
            reply@ == ReplyView::Status(named(self@.statuses, name@)),
    {
        match find_named(&self.statuses, name) {
            Some(i) => Reply::Status(
                Some(LeadStatus { id: self.statuses[i].id, name: self.statuses[i].name.clone() }),
            ),
            None => Reply::Status(None),
        }
    }

    /// Adds a lead.
    fn insert_lead(
        &mut self,
        limit: usize,
        contact_id: i32,
        company_id: i32,
        problem_summary: Option<String>,
        estimated_users: Option<i32>,
        urgency_id: i32,
        status_id: i32,
        maturity_score: i32,
        recommended_pack_id: i32,
        altcha: String,
        visitor_id: Option<String>,
        now: Timestamp,
    ) -> (reply: Reply)
        requires
            old(self)@.wf(limit as int),
            limit <= i32::MAX,
        ensures
            (final(self)@, reply@) == old(self)@.insert_lead(
                limit as int,
                contact_id,
                company_id,
                problem_summary.deep_view(),
                estimated_users,
                urgency_id,
                status_id,
                maturity_score,
                recommended_pack_id,
                altcha@,
                visitor_id.deep_view(),
                now,
            ),
            final(self)@.wf(limit as int),
    {
        let referring = id_refers(contact_id, self.contacts.len()) && id_refers(
            company_id,
            self.companies.len(),
        ) && id_refers(urgency_id, self.urgencies.len()) && id_refers(status_id, self.statuses.len())
            && id_refers(recommended_pack_id, self.packs.len());
        if !referring {
            return refuse(StorageErrorKind::Constraint, "leads");
        }
        if self.leads.len() >= limit {
            return refuse(StorageErrorKind::Capacity, "leads");
        }
        let row = Lead {
            id: (self.leads.len() + 1) as i32,
            submission_date: now,
            estimated_users,
            problem_summary,
            contact_id,
            company_id,
            recommended_pack_id: Some(recommended_pack_id),
            maturity_score: Some(maturity_score),
            urgency_id: Some(urgency_id),
            status_id,
            fingerprint_visitor_id: visitor_id,
            altcha_solution: Some(altcha),
            created_at: now,
            updated_at: now,
        };
        let kept = row.clone();
        let ghost before = self@;
        self.leads.push(row);
        proof {
            assert(self@.leads =~= before.leads.push(kept@));
            assert(self@.emails() =~= before.emails());
            assert(self@.company_names() =~= before.company_names());
            assert(self@.titles() =~= before.titles());
            assert(self@.labels() =~= before.labels());
        }
        Reply::Lead(kept)
    }

    /// Reads the position with this title.
    fn read_position(&self, title: &String) -> (reply: Reply)
        requires
            self@.titles().no_duplicates(),
        ensures
            reply@ == ReplyView::Position(self@.position_by_title(title@)),
    {
        match self.find_position(title) {
            Some(i) => Reply::Position(Some(self.positions[i].clone())),
            None => Reply::Position(None),
        }
    }

    /// Adds a position.
    fn insert_position(&mut self, limit: usize, title: String) -> (reply: Reply)
        requires
            old(self)@.wf(limit as int),
            limit <= i32::MAX,
        ensures
            (final(self)@, reply@) == old(self)@.insert_position(limit as int, title@),
            final(self)@.wf(limit as int),
    {
        if self.find_position(&title).is_some() {
            return refuse(StorageErrorKind::Constraint, "positions");
        }
        if self.positions.len() >= limit {
            return refuse(StorageErrorKind::Capacity, "positions");
        }
        let row = Position { id: (self.positions.len() + 1) as i32, title };
        let kept = row.clone();
        let ghost before = self@;
        self.positions.push(row);
        proof {
            assert(self@.positions =~= before.positions.push(kept@));
            assert(self@.titles() =~= before.titles().push(title@));
            lemma_push_fresh(before.titles(), title@);
            assert(self@.emails() =~= before.emails());
            assert(self@.company_names() =~= before.company_names());
            assert(self@.labels() =~= before.labels());
        }
        Reply::Position(Some(kept))
    }

    /// Ties a position to a lead.
    fn link_position(&mut self, limit: usize, lead_id: i32, position_id: i32) -> (reply: Reply)
        requires
            old(self)@.wf(limit as int),
        ensures
            (final(self)@, reply@) == old(self)@.link_position(limit as int, lead_id, position_id),
            final(self)@.wf(limit as int),
    {
        if !(id_refers(lead_id, self.leads.len()) && id_refers(position_id, self.positions.len())) {
            return refuse(StorageErrorKind::Constraint, "lead_positions");
        }
        if self.lead_positions.len() >= limit {
            return refuse(StorageErrorKind::Capacity, "lead_positions");
        }
        let ghost before = self@;
        self.lead_positions.push(LeadPosition { lead_id, position_id });
        proof {
            assert(self@.emails() =~= before.emails());
            assert(self@.company_names() =~= before.company_names());
            assert(self@.titles() =~= before.titles());
            assert(self@.labels() =~= before.labels());
        }
        Reply::Done
    }

    /// Reads the concern with this label.
    fn read_concern(&self, label: &String) -> (reply: Reply)
        requires
            self@.labels().no_duplicates(),
        ensures
            reply@ == ReplyView::Concern(self@.concern_by_label(label@)),
    {
        match self.find_concern(label) {
            Some(i) => Reply::Concern(Some(self.concerns[i].clone())),
            None => Reply::Concern(None),
        }
    }

    /// Adds a concern.
    fn insert_concern(&mut self, limit: usize, label: String) -> (reply: Reply)
        requires
            old(self)@.wf(limit as int),
            limit <= i32::MAX,
        ensures
            (final(self)@, reply@) == old(self)@.insert_concern(limit as int, label@),
            final(self)@.wf(limit as int),
    {
        if self.find_concern(&label).is_some() {
            return refuse(StorageErrorKind::Constraint, "concerns");
        }
        if self.concerns.len() >= limit {
            return refuse(StorageErrorKind::Capacity, "concerns");
        }
        let row = Concern { id: (self.concerns.len() + 1) as i32, label: Some(label) };
        let kept = row.clone();
        let ghost before = self@;
        self.concerns.push(row);
        proof {
            assert(self@.concerns =~= before.concerns.push(kept@));
            assert(self@.labels() =~= before.labels().push(Some(label@)));
            lemma_push_fresh(before.labels(), Some(label@));
            assert(self@.emails() =~= before.emails());
            assert(self@.company_names() =~= before.company_names());
            assert(self@.titles() =~= before.titles());
        }
        Reply::Concern(Some(kept))
    }

    /// Ties a concern to a lead.
    fn link_concern(&mut self, limit: usize, lead_id: i32, concern_id: i32) -> (reply: Reply)
        requires
            old(self)@.wf(limit as int),
        ensures
            (final(self)@, reply@) == old(self)@.link_concern(limit as int, lead_id, concern_id),
            final(self)@.wf(limit as int),
    {
        if !(id_refers(lead_id, self.leads.len()) && id_refers(concern_id, self.concerns.len())) {
            return refuse(StorageErrorKind::Constraint, "lead_concerns");
        }
        if self.lead_concerns.len() >= limit {
            return refuse(StorageErrorKind::Capacity, "lead_concerns");
        }
        let ghost before = self@;
        self.lead_concerns.push(LeadConcern { lead_id, concern_id });
        proof {
            assert(self@.emails() =~= before.emails());
            assert(self@.company_names() =~= before.company_names());
            assert(self@.titles() =~= before.titles());
            assert(self@.labels() =~= before.labels());
        }
        Reply::Done
    }
}

/// A store in memory. Every table takes rows up to the row limit; a write that
/// would break a uniqueness or reference constraint is refused; a transaction
/// that is rolled back leaves the tables as they were when it began.
///
/// The constructors give a consistent store (`wf`) and every method keeps it so.
#[derive(Debug)]
pub struct MemoryStore {
    tables: Tables,
    saved: Option<Tables>,
    limit: usize,
}

impl View for MemoryStore {
    type V = StoreView;

    closed spec fn view(&self) -> StoreView {
        StoreView {
            tables: self.tables@,
            saved: match self.saved {
                Some(tables) => Some(tables@),
                None => None,
            },
            limit: self.limit as int,
        }
    }
}

impl MemoryStore {
    /// An empty store whose tables take as many rows as ids can number.
    pub fn new() -> (store: Self)
        ensures
            store@ == (StoreView { tables: TablesView::empty(), saved: None, limit: i32::MAX as int }),
            store@.wf(),
    {
        MemoryStore::with_row_limit(0x7fff_ffff)
    }

    /// An empty store whose tables take `limit` rows each, and never more than
    /// ids can number.
    pub fn with_row_limit(limit: usize) -> (store: Self)
        ensures
            store@ == (StoreView {
                tables: TablesView::empty(),
                saved: None,
                limit: if limit <= i32::MAX {
                    limit as int
                } else {
                    i32::MAX as int
                },
            }),
            store@.wf(),
    {
        let capped: usize = if limit <= 0x7fff_ffff {
            limit
        } else {
            0x7fff_ffff
        };
        let tables = Tables::new();
        proof {
            assert(tables@.emails() =~= Seq::<Seq<char>>::empty());
            assert(tables@.company_names() =~= Seq::<Seq<char>>::empty());
            assert(tables@.titles() =~= Seq::<Seq<char>>::empty());
            assert(tables@.labels() =~= Seq::<Option<Seq<char>>>::empty());
            assert(names_of(tables@.statuses) =~= Seq::<Seq<char>>::empty());
        }
        MemoryStore { tables, saved: None, limit: capped }
    }

    /// Whether a transaction is open.
    pub fn in_transaction(&self) -> (open: bool)
        ensures
            open == (self@.saved is Some),
    {
        self.saved.is_some()
    }

    /// The row limit of every table.
    pub fn row_limit(&self) -> (limit: usize)
        ensures
            limit == self@.limit,
    {
        self.limit
    }

    /// Runs one command and gives the reply to it.
    pub fn execute(&mut self, command: Command, now: Timestamp) -> (reply: Reply)
        requires
            old(self)@.wf(),
        ensures
            (final(self)@, reply@) == old(self)@.apply(command@, now),
            final(self)@.wf(),
    {
        let limit = self.limit;
        match command {
            Command::Begin => {
                if self.saved.is_some() {
                    refuse(StorageErrorKind::Transaction, "begin")
                } else {
                    self.saved = Some(self.tables.clone());
                    Reply::Done
                }
            },
            Command::Commit => {
                if self.saved.is_some() {
                    self.saved = None;
                    Reply::Done
                } else {
                    refuse(StorageErrorKind::Transaction, "commit")
                }
            },
            Command::Rollback => {
                match self.saved.take() {
                    Some(before) => {
                        self.tables = before;
                        Reply::Done
                    },
                    None => refuse(StorageErrorKind::Transaction, "rollback"),
                }
            },
            Command::FindContact { email } => self.tables.read_contact(&email),
            Command::InsertContact { name, email, phone, job_title } => self.tables.insert_contact(
                limit,
                name,
                email,
                phone,
                job_title,
                now,
            ),
            Command::UpdateContact { id, name, phone, job_title } => self.tables.update_contact(
                limit,
                id,
                name,
                phone,
                job_title,
                now,
            ),
            Command::FindCompany { name } => self.tables.read_company(&name),
            Command::InsertCompany { name, size } => self.tables.insert_company(limit, name, size),
            Command::UpdateCompany { id, size } => self.tables.update_company(limit, id, size),
            Command::FindPack { name } => self.tables.read_pack(&name),
            Command::FindUrgency { name } => self.tables.read_urgency(&name),
            Command::FindStatus { name } => self.tables.read_status(&name),
            Command::InsertLead {
                contact_id,
                company_id,
                problem_summary,
                estimated_users,
                urgency_id,
                status_id,
                maturity_score,
                recommended_pack_id,
                altcha,
                visitor_id,
            } => self.tables.insert_lead(
                limit,
                contact_id,
                company_id,
                problem_summary,
                estimated_users,
                urgency_id,
                status_id,
                maturity_score,
                recommended_pack_id,
                altcha,
                visitor_id,
                now,
            ),
            Command::FindPosition { title } => self.tables.read_position(&title),
            Command::InsertPosition { title } => self.tables.insert_position(limit, title),
            Command::LinkPosition { lead_id, position_id } => self.tables.link_position(
                limit,
                lead_id,
                position_id,
            ),
            Command::FindConcern { label } => self.tables.read_concern(&label),
            Command::InsertConcern { label } => self.tables.insert_concern(limit, label),
            Command::LinkConcern { lead_id, concern_id } => self.tables.link_concern(
                limit,
                lead_id,
                concern_id,
            ),
        }
    }
}

/// What seeding gives back: the row, or the refusal.
pub open spec fn seeded_row<T: View<V = ReferenceView>>(seeded: Result<T, StorageError>) -> Result<
    ReferenceView,
    StorageErrorView,
> {
    match seeded {
        Ok(row) => Ok(row@),
        Err(error) => Err(error@),
    }
}

impl MemoryStore {
    /// Makes sure the lead statuses hold a row with this name, and gives the row.
    pub fn seed_status(&mut self, name: &str) -> (seeded: Result<LeadStatus, StorageError>)
        requires
            old(self)@.wf(),
        ensures
            final(self)@.wf(),
            final(self)@ == (StoreView {
                tables: TablesView {
                    statuses: seeded_table(
                old(self)@.tables.statuses,
                old(self)@.limit,
                "lead_statuses"@,
                name@,
            ).0,
                    ..old(self)@.tables
                },
                ..old(self)@
            }),
            seeded_row(seeded) == seeded_table(
                old(self)@.tables.statuses,
                old(self)@.limit,
                "lead_statuses"@,
                name@,
            ).1,
    {
        let ghost before = self.tables@;
        let seeded = seed_named(&mut self.tables.statuses, self.limit, "lead_statuses", name);
        proof {
            assert(self.tables@.emails() =~= before.emails());
            assert(self.tables@.company_names() =~= before.company_names());
            assert(self.tables@.titles() =~= before.titles());
            assert(self.tables@.labels() =~= before.labels());
        }
        match seeded {
            Ok(row) => Ok(LeadStatus { id: row.id, name: row.name }),
            Err(error) => Err(error),
        }
    }

    /// Makes sure the lead urgencies hold a row with this name, and gives the row.
    pub fn seed_urgency(&mut self, name: &str) -> (seeded: Result<LeadUrgency, StorageError>)
        requires
            old(self)@.wf(),
        ensures
            final(self)@.wf(),
            final(self)@ == (StoreView {
                tables: TablesView {
                    urgencies: seeded_table(
                old(self)@.tables.urgencies,
                old(self)@.limit,
                "lead_urgencies"@,
                name@,
            ).0,
                    ..old(self)@.tables
                },
                ..old(self)@
            }),
            seeded_row(seeded) == seeded_table(
                old(self)@.tables.urgencies,
                old(self)@.limit,
                "lead_urgencies"@,
                name@,
            ).1,
    {
        let ghost before = self.tables@;
        let seeded = seed_named(&mut self.tables.urgencies, self.limit, "lead_urgencies", name);
        proof {
            assert(self.tables@.emails() =~= before.emails());
            assert(self.tables@.company_names() =~= before.company_names());
            assert(self.tables@.titles() =~= before.titles());
            assert(self.tables@.labels() =~= before.labels());
        }
        match seeded {
            Ok(row) => Ok(LeadUrgency { id: row.id, name: row.name }),
            Err(error) => Err(error),
        }
    }

    /// Makes sure the recommended packs hold a row with this name, and gives the row.
    pub fn seed_pack(&mut self, name: &str) -> (seeded: Result<RecommendedPack, StorageError>)
        requires
            old(self)@.wf(),
        ensures
            final(self)@.wf(),
            final(self)@ == (StoreView {
                tables: TablesView {
                    packs: seeded_table(
                old(self)@.tables.packs,
                old(self)@.limit,
                "recommended_packs"@,
                name@,
            ).0,
                    ..old(self)@.tables
                },
                ..old(self)@
            }),
            seeded_row(seeded) == seeded_table(
                old(self)@.tables.packs,
                old(self)@.limit,
                "recommended_packs"@,
                name@,
            ).1,
    {
        let ghost before = self.tables@;
        let seeded = seed_named(&mut self.tables.packs, self.limit, "recommended_packs", name);
        proof {
            assert(self.tables@.emails() =~= before.emails());
            assert(self.tables@.company_names() =~= before.company_names());
            assert(self.tables@.titles() =~= before.titles());
            assert(self.tables@.labels() =~= before.labels());
        }
        match seeded {
            Ok(row) => Ok(RecommendedPack { id: row.id, name: row.name }),
            Err(error) => Err(error),
        }
    }

    /// The contacts, in the order they were added.
    pub fn contacts(&self) -> (rows: &Vec<Contact>)
        ensures
            rows.deep_view() == self@.tables.contacts,
    {
        &self.tables.contacts
    }

    /// The companies, in the order they were added.
    pub fn companies(&self) -> (rows: &Vec<Company>)
        ensures
            rows.deep_view() == self@.tables.companies,
    {
        &self.tables.companies
    }

    /// The positions, in the order they were added.
    pub fn positions(&self) -> (rows: &Vec<Position>)
        ensures
            rows.deep_view() == self@.tables.positions,
    {
        &self.tables.positions
    }

    /// The concerns, in the order they were added.
    pub fn concerns(&self) -> (rows: &Vec<Concern>)
        ensures
            rows.deep_view() == self@.tables.concerns,
    {
        &self.tables.concerns
    }

    /// The leads, in the order they were added.
    pub fn leads(&self) -> (rows: &Vec<Lead>)
        ensures
            rows.deep_view() == self@.tables.leads,
    {
        &self.tables.leads
    }

    /// The links between leads and positions, in the order they were added.
    pub fn lead_positions(&self) -> (rows: &Vec<LeadPosition>)
        ensures
            rows@ == self@.tables.lead_positions,
    {
        &self.tables.lead_positions
    }

    /// The links between leads and concerns, in the order they were added.
    pub fn lead_concerns(&self) -> (rows: &Vec<LeadConcern>)
        ensures
            rows@ == self@.tables.lead_concerns,
    {
        &self.tables.lead_concerns
    }
}

} // verus!
