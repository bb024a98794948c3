//! Laws of the enter / update / leave lifecycle, proved of every well-formed
//! schedule.

use vstd::prelude::*;
use crate::game_state::GameState;
use crate::schedule::{Event, Schedule};
use crate::tick::{Call, Tick};

verus! {

/// A machine that was just created is well formed.
pub proof fn lemma_wf_initial()
    ensures
        Schedule::initial().wf(),
{
}

/// Neither a request nor a tick can make a well-formed schedule ill formed.
pub proof fn lemma_wf_preserved(s: Schedule, target: GameState)
    requires
        s.wf(),
    ensures
        s.request(target).wf(),
        s.advance().wf(),
{
}

/// Every schedule that a machine can reach is well formed, whatever requests
/// and ticks led to it and in whatever order they came.
pub proof fn lemma_reachable_wf(events: Seq<Event>)
    ensures
        Schedule::initial().run(events).wf(),
    decreases events.len(),
{
    if events.len() == 0 {
        lemma_wf_initial();
    } else {
        lemma_reachable_wf(events.drop_last());
        let before = Schedule::initial().run(events.drop_last());
        match events.last() {
            Event::Request(target) => lemma_wf_preserved(before, target),
            Event::Advance => lemma_wf_preserved(before, GameState::Nop),
        }
    }
}

/// Any number of ticks keeps a well-formed schedule well formed.
pub proof fn lemma_wf_advance_by(s: Schedule, n: nat)
    requires
        s.wf(),
    ensures
        s.advance_by(n).wf(),
    decreases n,
{
    if n > 0 {
        lemma_wf_advance_by(s, (n - 1) as nat);
        lemma_wf_preserved(s.advance_by((n - 1) as nat), GameState::Nop);
    }
}

/// While nothing is requested, ticks change nothing but the first-update flag
/// of the current state, which the first of them clears.
pub proof fn lemma_idle_ticks(s: Schedule, n: nat)
    requires
        !s.pending(),
    ensures
        s.advance_by(n) == (Schedule {
            first_update: if n == 0 {
                s.first_update
            } else {
                s.first_update.insert(s.current, false)
            },
            ..s
        }),
    decreases n,
{
    if n > 0 {
        lemma_idle_ticks(s, (n - 1) as nat);
        assert(s.advance_by(n) =~= (Schedule {
            first_update: s.first_update.insert(s.current, false),
            ..s
        }));
    }
}

/// A tick consumes the request it applies: after any tick nothing is pending,
/// so one request causes at most one transition.
pub proof fn lemma_tick_consumes_request(s: Schedule)
    ensures
        !s.advance().pending(),
        s.advance().tick() is Update,
{
}

/// A tick takes exactly one of two paths. With a transition pending it runs
/// `leave` of the current state and then `enter` of the target, and no
/// `update`; the flags are only ever set. Otherwise it runs `update` of the
/// current state and nothing else, and the three slots stay as they are.
pub proof fn lemma_transition_excludes_update(s: Schedule)
    ensures
        s.pending() ==> s.tick().callbacks() == seq![Call::Leave(s.current), Call::Enter(s.next)],
        !s.pending() ==> s.tick().callbacks() == seq![Call::Update(s.current)],
        forall|i: int, j: int|
            0 <= i < s.tick().callbacks().len() && 0 <= j < s.tick().callbacks().len()
                && s.tick().callbacks()[i] is Update ==> s.tick().callbacks()[j] is Update,
        s.pending() ==> forall|x: GameState|
            s.first_update.dom().contains(x) && s.first_update[x]
                ==> #[trigger] s.advance().first_update[x],
        !s.pending() ==> s.advance().previous == s.previous && s.advance().current == s.current
            && s.advance().next == s.next,
{
}

/// A request is applied by the tick that follows it and by no other.
///
/// The tick during which an update makes the request runs neither `enter` nor
/// `leave`. The next tick leaves the current state and enters the target. The
/// tick after that finds nothing pending and updates the target for the first
/// time.
pub proof fn lemma_request_applies_on_next_tick(s: Schedule, target: GameState)
    requires
        s.wf(),
        !s.pending(),
        target != GameState::Nop,
    ensures
        s.tick().callbacks() == seq![Call::Update(s.current)],
        s.advance().request(target).tick() == (Tick::Transition { from: s.current, to: target }),
        s.advance().request(target).tick().callbacks() == seq![
            Call::Leave(s.current),
            Call::Enter(target),
        ],
        s.advance().request(target).advance().tick() == (Tick::Update {
            state: target,
            first: true,
        }),
{
}

/// Whenever a request is made, and whatever was pending before, the next
/// tick is the transition from the current state to the requested one.
pub proof fn lemma_last_request_wins(s: Schedule, target: GameState)
    requires
        target != GameState::Nop,
    ensures
        s.request(target).tick() == (Tick::Transition { from: s.current, to: target }),
        s.request(target).advance().previous == s.current,
        s.request(target).advance().current == target,
        !s.request(target).advance().pending(),
{
}

/// After a transition into a state, its first update finds the flag set and
/// clears it; every later update, for as long as the state stays current,
/// finds the flag cleared.
pub proof fn lemma_first_update_after_entry(s: Schedule, n: nat)
    requires
        s.wf(),
        s.pending(),
    ensures
        s.advance().current == s.next,
        s.advance().advance_by(n).current == s.next,
        s.advance().advance_by(n).tick() == (Tick::Update { state: s.next, first: n == 0 }),
        s.advance().advance_by(n).first_update[s.next] == (n == 0),
        !s.advance().advance_by(n + 1).first_update[s.next],
{
    lemma_idle_ticks(s.advance(), n);
    lemma_idle_ticks(s.advance(), n + 1);
}

/// The bookkeeping starts afresh on every entry: a machine that goes from
/// `a` to `b` and back to `a` finds the flag of `a` set again, however many
/// updates either state has had in between.
pub proof fn lemma_reentry_resets_first_update(
    s: Schedule,
    a: GameState,
    b: GameState,
    i: nat,
    j: nat,
)
    requires
        s.wf(),
        s.pending(),
        s.next == a,
        b != GameState::Nop,
    ensures
        ({
            let in_a = s.advance().advance_by(i);
            let in_b = in_a.request(b).advance().advance_by(j);
            let back = in_b.request(a).advance();
            &&& in_a.current == a
            &&& in_b.current == b
            &&& back.current == a
            &&& back.previous == b
            &&& back.first_update[a]
            &&& back.tick() == (Tick::Update { state: a, first: true })
            &&& back.advance().tick() == (Tick::Update { state: a, first: false })
        }),
{
    let in_a = s.advance().advance_by(i);
    lemma_idle_ticks(s.advance(), i);
    lemma_wf_advance_by(s.advance(), i);
    let entered_b = in_a.request(b).advance();
    let in_b = entered_b.advance_by(j);
    lemma_idle_ticks(entered_b, j);
    lemma_wf_advance_by(entered_b, j);
}

/// Ticks on a machine on which nothing was ever requested update the
/// sentinel and run no callback of any other state.
pub proof fn lemma_untouched_machine_updates_sentinel(n: nat)
    ensures
        Schedule::initial().advance_by(n).tick() == (Tick::Update {
            state: GameState::Nop,
            first: n == 0,
        }),
        Schedule::initial().advance_by(n).tick().callbacks() == seq![Call::Update(GameState::Nop)],
{
    lemma_idle_ticks(Schedule::initial(), n);
}

/// The sentinel is never entered, and once another state is current no
/// callback of the sentinel runs again.
pub proof fn lemma_sentinel_never_entered(s: Schedule, target: GameState)
    ensures
        s.tick() matches Tick::Transition { from, to } ==> to != GameState::Nop,
        s.current != GameState::Nop ==> s.advance().current != GameState::Nop,
        s.current != GameState::Nop ==> s.request(target).current != GameState::Nop,
        s.current != GameState::Nop ==> forall|i: int|
            0 <= i < s.tick().callbacks().len() ==> (#[trigger] s.tick().callbacks()[i]).spec_state()
                != GameState::Nop,
{
}

} // verus!
