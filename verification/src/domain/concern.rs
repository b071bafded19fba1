//! Concerns a lead states in free text.

use vstd::prelude::*;
use vstd::std_specs::convert::FromSpecImpl;

verus! {

/// A concern row. The label is its natural key and never changes.
#[derive(Debug)]
pub struct Concern {
    pub id: i32,
    pub label: Option<String>,
}

/// What a concern row holds.
pub struct ConcernView {
    pub id: i32,
    pub label: Option<Seq<char>>,
}

impl View for Concern {
    type V = ConcernView;

    open spec fn view(&self) -> ConcernView {
        ConcernView { id: self.id, label: self.label.deep_view() }
    }
}

impl DeepView for Concern {
    type V = ConcernView;

    open spec fn deep_view(&self) -> ConcernView {
        self@
    }
}

impl Clone for Concern {
    fn clone(&self) -> (r: Self)
        ensures
            r == *self,
    {
        Concern { id: self.id, label: self.label.clone() }
    }
}

/// A concern as a response shows it: its label.
#[derive(Debug)]
pub struct ConcernResponse {
    pub label: Option<String>,
}

impl View for ConcernResponse {
    type V = Option<Seq<char>>;

    open spec fn view(&self) -> Option<Seq<char>> {
        self.label.deep_view()
    }
}

impl DeepView for ConcernResponse {
    type V = Option<Seq<char>>;

    open spec fn deep_view(&self) -> Option<Seq<char>> {
        self@
    }
}

impl From<Concern> for ConcernResponse {
    fn from(concern: Concern) -> (r: Self)
        ensures
            r@ == concern@.label,
    {
        ConcernResponse { label: concern.label }
    }
}

impl FromSpecImpl<Concern> for ConcernResponse {
    open spec fn obeys_from_spec() -> bool {
        true
    }

    open spec fn from_spec(concern: Concern) -> ConcernResponse {
        ConcernResponse { label: concern.label }
    }
}

} // verus!
