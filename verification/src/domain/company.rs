//! The organisation a lead comes from.

use vstd::prelude::*;
use vstd::std_specs::convert::FromSpecImpl;

verus! {

/// A company row. The name is its natural key; the size is a headcount.
#[derive(Debug)]
pub struct Company {
    pub id: i32,
    pub name: String,
    pub size: Option<i32>,
}

/// What a company row holds.
pub struct CompanyView {
    pub id: i32,
    pub name: Seq<char>,
    pub size: Option<i32>,
}

impl View for Company {
    type V = CompanyView;

    open spec fn view(&self) -> CompanyView {
        CompanyView { id: self.id, name: self.name@, size: self.size }
    }
}

impl DeepView for Company {
    type V = CompanyView;

    open spec fn deep_view(&self) -> CompanyView {
        self@
    }
}

impl Clone for Company {
    fn clone(&self) -> (r: Self)
        ensures
            r == *self,
    {
        Company { id: self.id, name: self.name.clone(), size: self.size }
    }
}

/// A company as a response shows it: without its id.
#[derive(Debug)]
pub struct CompanyResponse {
    pub name: String,
    pub size: Option<i32>,
}

/// What a company response holds.
pub struct CompanyResponseView {
    pub name: Seq<char>,
    pub size: Option<i32>,
}

impl View for CompanyResponse {
    type V = CompanyResponseView;

    open spec fn view(&self) -> CompanyResponseView {
        CompanyResponseView { name: self.name@, size: self.size }
    }
}

impl CompanyView {
    /// The part of the row that a response shows.
    pub open spec fn shown(self) -> CompanyResponseView {
        CompanyResponseView { name: self.name, size: self.size }
    }
}

impl From<Company> for CompanyResponse {
    fn from(company: Company) -> (r: Self)
        ensures
            r@ == company@.shown(),
    {
        CompanyResponse { name: company.name, size: company.size }
    }
}

impl FromSpecImpl<Company> for CompanyResponse {
    open spec fn obeys_from_spec() -> bool {
        true
    }

    open spec fn from_spec(company: Company) -> CompanyResponse {
        CompanyResponse { name: company.name, size: company.size }
    }
}

} // verus!
