//! A fixed table that holds one entry for every game state.

use vstd::prelude::*;
use crate::game_state::{GameState, STATE_COUNT};

verus! {

/// A table with exactly one entry per state.
///
/// The entries are stored in ordinal order, so a lookup is a single indexed
/// read. The table never grows or shrinks; only the entries themselves can be
/// replaced.
#[derive(Debug)]
pub struct StateTable<T> {
    entries: [T; STATE_COUNT],
}

impl<T> View for StateTable<T> {
    type V = Map<GameState, T>;

    /// The table as a total map from states to entries.
    closed spec fn view(&self) -> Map<GameState, T> {
        Map::new(|s: GameState| true, |s: GameState| self.entries@[s.spec_ordinal()])
    }
}

impl<T> StateTable<T> {
    /// Every state has an entry.
    pub proof fn lemma_total(self)
        ensures
            forall|s: GameState| self@.dom().contains(s),
    {
    }

    /// Builds the table from its entries, given in ordinal order.
    pub fn new(entries: [T; STATE_COUNT]) -> (table: Self)
        ensures
            table@ == Map::new(|s: GameState| true, |s: GameState| entries@[s.spec_ordinal()]),
    {
        StateTable { entries }
    }

    /// The entry of `state`.
    pub fn lookup(&self, state: GameState) -> (entry: &T)
        ensures
            *entry == self@[state],
    {
        &self.entries[state.ordinal()]
    }

    /// Replaces the entry of `state` and leaves every other entry as it was.
    pub fn set(&mut self, state: GameState, value: T)
        ensures
            final(self)@ == old(self)@.insert(state, value),
        no_unwind
    {
        let i: usize = state.ordinal();
        self.entries[i] = value;
        assert(self@ =~= old(self)@.insert(state, value));
    }
}

impl<T: Copy> StateTable<T> {
    /// A table whose entries all hold `value`.
    pub fn filled(value: T) -> (table: Self)
        ensures
            table@ == Map::new(|s: GameState| true, |s: GameState| value),
    {
        let table = StateTable { entries: [value; STATE_COUNT] };
        assert(table@ =~= Map::new(|s: GameState| true, |s: GameState| value));
        table
    }
}

} // verus!
