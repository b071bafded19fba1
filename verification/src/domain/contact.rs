//! The person who submitted a lead.

use crate::domain::timestamp::Timestamp;
use vstd::prelude::*;
use vstd::std_specs::convert::FromSpecImpl;

verus! {

/// A contact row. The email is its natural key.
#[derive(Debug)]
pub struct Contact {
    pub id: i32,
    pub name: String,
    pub email: String,
    pub phone: Option<String>,
    pub job_title: Option<String>,
    pub created_at: Timestamp,
    pub updated_at: Timestamp,
}

/// What a contact row holds.
pub struct ContactView {
    pub id: i32,
    pub name: Seq<char>,
    pub email: Seq<char>,
    pub phone: Option<Seq<char>>,
    pub job_title: Option<Seq<char>>,
    pub created_at: Timestamp,
    pub updated_at: Timestamp,
}

impl View for Contact {
    type V = ContactView;

    open spec fn view(&self) -> ContactView {
        ContactView {
            id: self.id,
            name: self.name@,
            email: self.email@,
            phone: self.phone.deep_view(),
            job_title: self.job_title.deep_view(),
            created_at: self.created_at,
            updated_at: self.updated_at,
        }
    }
}

impl DeepView for Contact {
    type V = ContactView;

    open spec fn deep_view(&self) -> ContactView {
        self@
    }
}

impl Clone for Contact {
    fn clone(&self) -> (r: Self)
        ensures
            r == *self,
    {
        Contact {
            id: self.id,
            name: self.name.clone(),
            email: self.email.clone(),
            phone: self.phone.clone(),
            job_title: self.job_title.clone(),
            created_at: self.created_at,
            updated_at: self.updated_at,
        }
    }
}

/// A contact as a response shows it: every column of the row.
#[derive(Debug)]
pub struct ContactResponse {
    pub id: i32,
    pub name: String,
    pub email: String,
    pub phone: Option<String>,
    pub job_title: Option<String>,
    pub created_at: Timestamp,
    pub updated_at: Timestamp,
}

impl View for ContactResponse {
    type V = ContactView;

    open spec fn view(&self) -> ContactView {
        ContactView {
            id: self.id,
            name: self.name@,
            email: self.email@,
            phone: self.phone.deep_view(),
            job_title: self.job_title.deep_view(),
            created_at: self.created_at,
            updated_at: self.updated_at,
        }
    }
}

impl From<Contact> for ContactResponse {
    fn from(contact: Contact) -> (r: Self)
        ensures
            r@ == contact@,
    {
        ContactResponse {
            id: contact.id,
            name: contact.name,
            email: contact.email,
            phone: contact.phone,
            job_title: contact.job_title,
            created_at: contact.created_at,
            updated_at: contact.updated_at,
        }
    }
}

impl FromSpecImpl<Contact> for ContactResponse {
    open spec fn obeys_from_spec() -> bool {
        true
    }

    open spec fn from_spec(contact: Contact) -> ContactResponse {
        ContactResponse {
            id: contact.id,
            name: contact.name,
            email: contact.email,
            phone: contact.phone,
            job_title: contact.job_title,
            created_at: contact.created_at,
            updated_at: contact.updated_at,
        }
    }
}

} // verus!
