//! What a tick of the state machine asks its host to run.

use vstd::prelude::*;
use crate::game_state::GameState;

verus! {

/// One lifecycle callback of one state.
#[derive(Clone, Copy, Debug, PartialEq, Eq, Structural)]
pub enum Call {
    /// The `leave` callback of the state.
    Leave(GameState),
    /// The `enter` callback of the state.
    Enter(GameState),
    /// The `update` callback of the state.
    Update(GameState),
}

impl Call {
    /// The state whose callback this is.
    pub open spec fn spec_state(self) -> GameState {
        match self {
            Call::Leave(state) => state,
            Call::Enter(state) => state,
            Call::Update(state) => state,
        }
    }

    /// The state whose callback this is.
    pub fn state(&self) -> (state: GameState)
        ensures
            state == self.spec_state(),
    {
        match self {
            Call::Leave(state) => *state,
            Call::Enter(state) => *state,
            Call::Update(state) => *state,
        }
    }
}

/// The outcome of one tick.
///
/// A tick either applies the pending transition or updates the current state,
/// never both. The host runs the callbacks that the outcome names, after the
/// tick has returned; a callback that requests a transition therefore always
/// queues it for a later tick.
#[derive(Clone, Copy, Debug, PartialEq, Eq, Structural)]
pub enum Tick {
    /// The pending transition was applied: `from` is left, then `to` is entered.
    Transition { from: GameState, to: GameState },
    /// Nothing was pending: `state` is updated. `first` tells whether this is
    /// its first update since it was entered.
    Update { state: GameState, first: bool },
}

impl Tick {
    /// The callbacks that the host has to run for this tick, in order.
    pub open spec fn callbacks(self) -> Seq<Call> {
        match self {
            Tick::Transition { from, to } => seq![Call::Leave(from), Call::Enter(to)],
            Tick::Update { state, .. } => seq![Call::Update(state)],
        }
    }

    /// The callbacks that the host has to run for this tick, in order.
    pub fn calls(&self) -> (calls: Vec<Call>)
        ensures
            calls@ == self.callbacks(),
    {
        match self {
            Tick::Transition { from, to } => vec![Call::Leave(*from), Call::Enter(*to)],
            Tick::Update { state, .. } => vec![Call::Update(*state)],
        }
    }
}

} // verus!
