use vstd::prelude::*;
use crate::json::{Json, JsonValue};

verus! {

/// The mathematical form of a state: its identifier and its content.
pub struct StateView {
    pub id: Seq<char>,
    pub content: Json,
}

/// The single shared value mirrored to every client: an opaque identifier and
/// the content, replaced together as one unit.
#[derive(Debug, PartialEq)]
pub struct CurrentState {
    /// Identifier the clients use to detect changes.
    pub id: String,
    /// Content defined by the clients: any JSON tree.
    pub content: JsonValue,
}

impl View for CurrentState {
    type V = StateView;

    open spec fn view(&self) -> StateView {
        StateView { id: self.id@, content: self.content@ }
    }
}

/// The state a store holds before anything is set: an empty identifier and null.
pub open spec fn initial_state() -> StateView {
    StateView { id: Seq::empty(), content: Json::Null }
}

impl CurrentState {
    pub fn new() -> (r: Self)
        ensures
            r@ == initial_state(),
    {
        CurrentState { id: String::new(), content: JsonValue::Null }
    }

    /// A deep copy of the state.
    pub fn duplicate(&self) -> (r: Self)
        ensures
            r@ == self@,
    {
        CurrentState { id: self.id.clone(), content: self.content.duplicate() }
    }
}

impl Default for CurrentState {
    fn default() -> (r: Self)
        ensures
            r@ == initial_state(),
    {
        Self::new()
    }
}

} // verus!
