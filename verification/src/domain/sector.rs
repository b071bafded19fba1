//! Business sectors.

use vstd::prelude::*;

verus! {

/// A sector row.
#[derive(Debug)]
pub struct Sector {
    pub id: i32,
    pub name: Option<String>,
}

impl Clone for Sector {
    fn clone(&self) -> (r: Self)
        ensures
            r == *self,
    {
        Sector { id: self.id, name: self.name.clone() }
    }
}

} // verus!
