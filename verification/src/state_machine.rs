//! The state machine that the game's main loop drives, one tick per frame.

use vstd::prelude::*;
use crate::game_state::GameState;
use crate::schedule::Schedule;
use crate::state_table::StateTable;
use crate::tick::Tick;

verus! {

/// The top-level state machine of the game.
///
/// The machine decides; the host acts. A tick returns the callbacks to run,
/// and the callbacks ask for a transition with `game_state_go`.
#[derive(Debug)]
pub struct StateMachine {
    previous: GameState,
    current: GameState,
    next: GameState,
    first_update: StateTable<bool>,
}

impl View for StateMachine {
    type V = Schedule;

    closed spec fn view(&self) -> Schedule {
        Schedule {
            previous: self.previous,
            current: self.current,
            next: self.next,
            first_update: self.first_update@,
        }
    }
}

impl StateMachine {
    /// Only the current state can have had its first update.
    #[verifier::type_invariant]
    spec fn inv(self) -> bool {
        forall|s: GameState| s != self.current ==> #[trigger] self.first_update@[s]
    }

    /// A machine on which nothing has happened yet.
    pub fn new() -> (machine: Self)
        ensures
            machine@ == Schedule::initial(),
    {
        StateMachine {
            previous: GameState::Nop,
            current: GameState::Nop,
            next: GameState::Nop,
            first_update: StateTable::filled(true),
        }
    }
}

/// The state that the last transition left.
pub fn get_previous_state(machine: &StateMachine) -> (state: GameState)
    ensures
        state == machine@.previous,
        machine@.wf(),
{
    proof {
        use_type_invariant(machine);
        machine.first_update.lemma_total();
    }
    machine.previous
}

/// Records `state` as the state that was left.
fn set_previous_state(machine: &mut StateMachine, state: GameState)
    ensures
        final(machine)@ == (Schedule { previous: state, ..old(machine)@ }),
{
    proof {
        use_type_invariant(&*machine);
    }
    machine.previous = state;
}

/// The requested target, or the sentinel while nothing is requested.
pub fn get_next_state(machine: &StateMachine) -> (state: GameState)
    ensures
        state == machine@.next,
        machine@.wf(),
{
    proof {
        use_type_invariant(machine);
        machine.first_update.lemma_total();
    }
    machine.next
}

/// Puts `state` into the pending slot.
fn set_next_state(machine: &mut StateMachine, state: GameState)
    ensures
        final(machine)@ == old(machine)@.request(state),
{
    proof {
        use_type_invariant(&*machine);
    }
    machine.next = state;
}

/// The active state.
pub fn get_current_state(machine: &StateMachine) -> (state: GameState)
    ensures
        state == machine@.current,
        machine@.wf(),
{
    proof {
        use_type_invariant(machine);
        machine.first_update.lemma_total();
    }
    machine.current
}

/// Makes `state` the active state. The state that stops being active must
/// have its first-update flag set.
fn set_current_state(machine: &mut StateMachine, state: GameState)
    requires
        state == old(machine)@.current || old(machine)@.first_update[old(machine)@.current],
    ensures
        final(machine)@ == (Schedule { current: state, ..old(machine)@ }),
{
    proof {
        use_type_invariant(&*machine);
    }
    machine.current = state;
}

/// Whether the next update of `state` is the first since it was entered.
pub fn is_first_update(machine: &StateMachine, state: GameState) -> (first: bool)
    ensures
        first == machine@.first_update[state],
        machine@.wf(),
{
    proof {
        use_type_invariant(machine);
        machine.first_update.lemma_total();
    }
    *machine.first_update.lookup(state)
}

/// Sets or clears the first-update flag of `state`. Only the flag of the
/// active state can be cleared.
fn set_first_update(machine: &mut StateMachine, state: GameState, first: bool)
    requires
        first || state == old(machine)@.current,
    ensures
        final(machine)@ == (Schedule {
            first_update: old(machine)@.first_update.insert(state, first),
            ..old(machine)@
        }),
{
    proof {
        use_type_invariant(&*machine);
    }
    machine.first_update.set(state, first);
}

/// Requests a transition to `state`.
///
/// The request replaces whatever was pending and is applied by the next tick;
/// nothing else changes and no callback runs. Requesting the sentinel
/// withdraws the pending request.
pub fn game_state_go(machine: &mut StateMachine, state: GameState)
    ensures
        final(machine)@ == old(machine)@.request(state),
        final(machine)@.wf(),
{
    set_next_state(machine, state);
    proof {
        use_type_invariant(&*machine);
        machine.first_update.lemma_total();
    }
}

/// Requests the transition into the boot state that starts the game.
pub fn game_state_init(machine: &mut StateMachine)
    ensures
        final(machine)@ == old(machine)@.request(GameState::Boot),
        final(machine)@.wf(),
{
    game_state_go(machine, GameState::Boot);
}

/// Runs one tick and returns what the host has to do for it.
///
/// With a transition pending, the tick applies it: the current state becomes
/// the previous one and gets its first-update flag back, the target becomes
/// current, and the request is consumed. Otherwise the tick is an update of
/// the current state, and its first-update flag is cleared.
pub fn game_state_update(machine: &mut StateMachine) -> (tick: Tick)
    ensures
        tick == old(machine)@.tick(),
        final(machine)@ == old(machine)@.advance(),
        final(machine)@.wf(),
{
    let tick = if get_next_state(machine) != GameState::Nop {
        set_previous_state(machine, get_current_state(machine));
        set_first_update(machine, get_previous_state(machine), true);
        set_current_state(machine, get_next_state(machine));
        set_next_state(machine, GameState::Nop);
        Tick::Transition { from: get_previous_state(machine), to: get_current_state(machine) }
    } else {
        let state = get_current_state(machine);
        let first = is_first_update(machine, state);
        if first {
            set_first_update(machine, state, false);
        }
        Tick::Update { state, first }
    };
    proof {
        use_type_invariant(&*machine);
        machine.first_update.lemma_total();
        assert(machine@.first_update =~= old(machine)@.advance().first_update);
    }
    tick
}

} // verus!
