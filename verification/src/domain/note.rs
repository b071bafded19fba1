//! Notes that staff attach to a lead.

use crate::domain::timestamp::Timestamp;
use vstd::prelude::*;
use vstd::std_specs::convert::FromSpecImpl;

verus! {

/// A note row.
#[derive(Debug)]
pub struct Note {
    pub id: i32,
    pub note: String,
    pub created_at: Timestamp,
    pub author_name: String,
    pub lead_id: i32,
    pub reason_id: i32,
}

impl Clone for Note {
    fn clone(&self) -> (r: Self)
        ensures
            r == *self,
    {
        Note {
            id: self.id,
            note: self.note.clone(),
            created_at: self.created_at,
            author_name: self.author_name.clone(),
            lead_id: self.lead_id,
            reason_id: self.reason_id,
        }
    }
}

/// A reason row: why a note was written.
#[derive(Debug)]
pub struct NoteReason {
    pub id: i32,
    pub name: String,
}

impl Clone for NoteReason {
    fn clone(&self) -> (r: Self)
        ensures
            r == *self,
    {
        NoteReason { id: self.id, name: self.name.clone() }
    }
}

/// A reason as a response shows it: its name.
#[derive(Debug)]
pub struct NoteReasonResponse {
    pub name: String,
}

impl View for NoteReasonResponse {
    type V = Seq<char>;

    open spec fn view(&self) -> Seq<char> {
        self.name@
    }
}

impl From<NoteReason> for NoteReasonResponse {
    fn from(reason: NoteReason) -> (r: Self)
        ensures
            r@ == reason.name@,
    {
        NoteReasonResponse { name: reason.name }
    }
}

impl FromSpecImpl<NoteReason> for NoteReasonResponse {
    open spec fn obeys_from_spec() -> bool {
        true
    }

    open spec fn from_spec(reason: NoteReason) -> NoteReasonResponse {
        NoteReasonResponse { name: reason.name }
    }
}

/// A note as a response shows it.
#[derive(Debug)]
pub struct NoteResponse {
    pub id: i32,
    pub note: String,
    pub created_at: Timestamp,
    pub author_name: String,
    pub reason: NoteReasonResponse,
}

/// A request to attach a note.
#[derive(Debug)]
pub struct NoteCreateRequest {
    pub note: String,
    pub reason: String,
    pub send_to_contact: bool,
    pub send_to_recipients: Vec<String>,
}

} // verus!
