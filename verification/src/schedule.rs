//! The scheduler as a mathematical object: its three slots, the first-update
//! flag of every state, and what a request and a tick do to them.

use vstd::prelude::*;
use crate::game_state::GameState;
use crate::tick::Tick;

verus! {

/// The state of the scheduler between two ticks.
#[verifier::ext_equal]
pub struct Schedule {
    /// The state that the last transition left; `Nop` before the first one.
    pub previous: GameState,
    /// The active state; `Nop` before the first transition.
    pub current: GameState,
    /// The requested target; `Nop` while nothing is requested.
    pub next: GameState,
    /// For every state, whether its next update is the first since it was entered.
    pub first_update: Map<GameState, bool>,
}

/// What can happen to a schedule: a request or a tick.
pub enum Event {
    /// A transition to the given state is requested.
    Request(GameState),
    /// A tick runs.
    Advance,
}

impl Schedule {
    /// The schedule of a machine that has just been created: every slot holds
    /// the sentinel and every flag is set.
    pub open spec fn initial() -> Schedule {
        Schedule {
            previous: GameState::Nop,
            current: GameState::Nop,
            next: GameState::Nop,
            first_update: Map::new(|s: GameState| true, |s: GameState| true),
        }
    }

    /// Every state has a flag, and only the current state can have had its
    /// first update.
    pub open spec fn wf(self) -> bool {
        &&& forall|s: GameState| self.first_update.dom().contains(s)
        &&& forall|s: GameState| s != self.current ==> #[trigger] self.first_update[s]
    }

    /// Whether a transition is waiting to be applied.
    pub open spec fn pending(self) -> bool {
        self.next != GameState::Nop
    }

    /// The schedule after `target` was requested: the request replaces
    /// whatever was pending and touches nothing else.
    pub open spec fn request(self, target: GameState) -> Schedule {
        Schedule { next: target, ..self }
    }

    /// What the next tick reports.
    pub open spec fn tick(self) -> Tick {
        if self.pending() {
            Tick::Transition { from: self.current, to: self.next }
        } else {
            Tick::Update { state: self.current, first: self.first_update[self.current] }
        }
    }

    /// The schedule after the next tick.
    ///
    /// With a transition pending, the current state becomes the previous one
    /// and gets its flag back, the target becomes current, and the request is
    /// consumed. Otherwise only the flag of the current state is cleared.
    pub open spec fn advance(self) -> Schedule {
        if self.pending() {
            Schedule {
                previous: self.current,
                current: self.next,
                next: GameState::Nop,
                first_update: self.first_update.insert(self.current, true),
            }
        } else {
            Schedule { first_update: self.first_update.insert(self.current, false), ..self }
        }
    }

    /// The schedule after `event`.
    pub open spec fn apply(self, event: Event) -> Schedule {
        match event {
            Event::Request(target) => self.request(target),
            Event::Advance => self.advance(),
        }
    }

    /// The schedule after `events`, taken in order.
    pub open spec fn run(self, events: Seq<Event>) -> Schedule
        decreases events.len(),
    {
        if events.len() == 0 {
            self
        } else {
            self.run(events.drop_last()).apply(events.last())
        }
    }

    /// The schedule after `n` ticks with no request made in between.
    pub open spec fn advance_by(self, n: nat) -> Schedule
        decreases n,
    {
        if n == 0 {
            self
        } else {
            self.advance_by((n - 1) as nat).advance()
        }
    }
}

} // verus!
