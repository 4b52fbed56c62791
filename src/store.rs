use vstd::prelude::*;
use crate::state::{CurrentState, StateView, initial_state};

verus! {

/// The mathematical form of a store: the state it holds and how many times it
/// has been replaced, counted modulo 2^64.
pub struct StoreView {
    pub state: StateView,
    pub version: u64,
}

/// The version that follows `v`.
pub open spec fn next_version(v: u64) -> u64 {
    if v == u64::MAX {
        0
    } else {
        (v + 1) as u64
    }
}

/// The store after `s` replaced what it held.
pub open spec fn after_set(st: StoreView, s: StateView) -> StoreView {
    StoreView { state: s, version: next_version(st.version) }
}

/// The store after each state of `sets` replaced what it held, in order.
pub open spec fn after_sets(st: StoreView, sets: Seq<StateView>) -> StoreView
    decreases sets.len(),
{
    if sets.len() == 0 {
        st
    } else {
        after_set(after_sets(st, sets.drop_last()), sets.last())
    }
}

/// What a cursor that last saw version `seen` is handed when it looks at the
/// store: the newest state if the store changed since, nothing otherwise.
pub open spec fn delivery(seen: u64, st: StoreView) -> Option<StateView> {
    if seen != st.version {
        Some(st.state)
    } else {
        None
    }
}

/// The one shared state of the process. Replacing it is a single step that
/// moves the version on, which every cursor then notices.
pub struct StateStore {
    current: CurrentState,
    version: u64,
}

/// A subscription to a store: the version it last handed out.
pub struct Cursor {
    seen: u64,
}

impl View for StateStore {
    type V = StoreView;

    closed spec fn view(&self) -> StoreView {
        StoreView { state: self.current@, version: self.version }
    }
}

impl View for Cursor {
    type V = u64;

    closed spec fn view(&self) -> u64 {
        self.seen
    }
}

impl StateStore {
    /// A store that holds the initial state.
    pub fn new() -> (r: Self)
        ensures
            r@.state == initial_state(),
            r@.version == 0,
    {
        StateStore { current: CurrentState::new(), version: 0 }
    }

    /// A copy of the state held now.
    pub fn get(&self) -> (r: CurrentState)
        ensures
            r@ == self@.state,
    {
        self.current.duplicate()
    }

    /// Replaces the held state as one unit; never fails.
    pub fn set(&mut self, new: CurrentState)
        ensures
            final(self)@ == after_set(old(self)@, new@),
    {
        self.current = new;
        self.version = self.version.wrapping_add(1);
    }

    pub fn version(&self) -> (r: u64)
        ensures
            r == self@.version,
    {
        self.version
    }

    /// A cursor that has seen the state held now: it is handed a state only
    /// after the next replacement.
    pub fn subscribe(&self) -> (r: Cursor)
        ensures
            r@ == self@.version,
    {
        Cursor { seen: self.version }
    }
}

impl Default for StateStore {
    fn default() -> (r: Self)
        ensures
            r@.state == initial_state(),
            r@.version == 0,
    {
        Self::new()
    }
}

impl Cursor {
    /// Whether the store was replaced since this cursor last looked.
    pub fn has_changed(&self, store: &StateStore) -> (r: bool)
        ensures
            r == delivery(self@, store@) is Some,
    {
        self.seen != store.version
    }

    /// Hands out the newest state if the store changed since the last look,
    /// and marks it seen. Several replacements in between come out as one.
    pub fn observe(&mut self, store: &StateStore) -> (r: Option<CurrentState>)
        ensures
            match delivery(old(self)@, store@) {
                Some(s) => r matches Some(x) && x@ == s,
                None => r is None,
            },
            final(self)@ == store@.version,
    {
        if self.seen != store.version {
            self.seen = store.version;
            Some(store.current.duplicate())
        } else {
            None
        }
    }
}

/// After any nonempty run of replacements, from whichever sessions, the store
/// holds the last one, and a cursor that was up to date when the run began is
/// handed exactly that state when it next looks (for runs shorter than 2^64,
/// where the version counter would come round to where it was).
pub proof fn lemma_convergence(st: StoreView, sets: Seq<StateView>, seen: u64)
    requires
        sets.len() > 0,
        sets.len() < 0x1_0000_0000_0000_0000,
        seen == st.version,
    ensures
        after_sets(st, sets).state == sets.last(),
        delivery(seen, after_sets(st, sets)) == Some(sets.last()),
{
    lemma_version_count(st, sets);
}

/// The version after a run of replacements is the start version moved on by
/// the length of the run, modulo 2^64.
pub proof fn lemma_version_count(st: StoreView, sets: Seq<StateView>)
    ensures
        after_sets(st, sets).version as int == (st.version as int + sets.len()) % 0x1_0000_0000_0000_0000,
    decreases sets.len(),
{
    if sets.len() > 0 {
        lemma_version_count(st, sets.drop_last());
    }
}

} // verus!
