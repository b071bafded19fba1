//! Positions a lead wants to fill.

use vstd::prelude::*;
use vstd::std_specs::convert::FromSpecImpl;

verus! {

/// A position row. The title is its natural key and never changes.
#[derive(Debug)]
pub struct Position {
    pub id: i32,
    pub title: String,
}

/// What a position row holds.
pub struct PositionView {
    pub id: i32,
    pub title: Seq<char>,
}

impl View for Position {
    type V = PositionView;

    open spec fn view(&self) -> PositionView {
        PositionView { id: self.id, title: self.title@ }
    }
}

impl DeepView for Position {
    type V = PositionView;

    open spec fn deep_view(&self) -> PositionView {
        self@
    }
}

impl Clone for Position {
    fn clone(&self) -> (r: Self)
        ensures
            r == *self,
    {
        Position { id: self.id, title: self.title.clone() }
    }
}

/// A position as a response shows it: its title.
#[derive(Debug)]
pub struct PositionResponse {
    pub title: String,
}

impl View for PositionResponse {
    type V = Seq<char>;

    open spec fn view(&self) -> Seq<char> {
        self.title@
    }
}

impl DeepView for PositionResponse {
    type V = Seq<char>;

    open spec fn deep_view(&self) -> Seq<char> {
        self@
    }
}

impl From<Position> for PositionResponse {
    fn from(position: Position) -> (r: Self)
        ensures
            r@ == position@.title,
    {
        PositionResponse { title: position.title }
    }
}

impl FromSpecImpl<Position> for PositionResponse {
    open spec fn obeys_from_spec() -> bool {
        true
    }

    open spec fn from_spec(position: Position) -> PositionResponse {
        PositionResponse { title: position.title }
    }
}

} // verus!
