//! The closed set of top-level game states.

use core::cmp::Ordering;
use vstd::prelude::*;
use vstd::std_specs::cmp::PartialOrdSpec;

verus! {

/// Number of states, the sentinel included.
pub const STATE_COUNT: usize = 9;

/// A top-level state of the game.
///
/// `Nop` is the sentinel: it stands for "no state yet" in the current and
/// previous slots and for "nothing requested" in the pending slot.
#[derive(Clone, Copy, Debug, PartialEq, Eq, Structural, Ord, Hash)]
pub enum GameState {
    Nop,
    Boot,
    Attract,
    LongIntroduction,
    HowHigh,
    GamePlay,
    PlayerDies,
    PlayerWins,
    KongRetreats,
}

impl GameState {
    /// Position of the state in declaration order, starting at 0 for the sentinel.
    pub open spec fn spec_ordinal(self) -> int {
        match self {
            GameState::Nop => 0,
            GameState::Boot => 1,
            GameState::Attract => 2,
            GameState::LongIntroduction => 3,
            GameState::HowHigh => 4,
            GameState::GamePlay => 5,
            GameState::PlayerDies => 6,
            GameState::PlayerWins => 7,
            GameState::KongRetreats => 8,
        }
    }

    /// Position of the state in declaration order; always below `STATE_COUNT`.
    pub fn ordinal(self) -> (i: usize)
        ensures
            i == self.spec_ordinal(),
            i < STATE_COUNT,
        no_unwind
    {
        match self {
            GameState::Nop => 0,
            GameState::Boot => 1,
            GameState::Attract => 2,
            GameState::LongIntroduction => 3,
            GameState::HowHigh => 4,
            GameState::GamePlay => 5,
            GameState::PlayerDies => 6,
            GameState::PlayerWins => 7,
            GameState::KongRetreats => 8,
        }
    }

    /// The name of the state in diagnostics.
    pub open spec fn spec_name(self) -> Seq<char> {
        match self {
            GameState::Nop => "state_nop"@,
            GameState::Boot => "boot"@,
            GameState::Attract => "attract"@,
            GameState::LongIntroduction => "long_intro"@,
            GameState::HowHigh => "how_high"@,
            GameState::GamePlay => "game_play"@,
            GameState::PlayerDies => "player_dies"@,
            GameState::PlayerWins => "player_wins"@,
            GameState::KongRetreats => "kong_retreats"@,
        }
    }

    /// The name of the state in diagnostics.
    pub fn name(self) -> (name: &'static str)
        ensures
            name@ == self.spec_name(),
    {
        match self {
            GameState::Nop => "state_nop",
            GameState::Boot => "boot",
            GameState::Attract => "attract",
            GameState::LongIntroduction => "long_intro",
            GameState::HowHigh => "how_high",
            GameState::GamePlay => "game_play",
            GameState::PlayerDies => "player_dies",
            GameState::PlayerWins => "player_wins",
            GameState::KongRetreats => "kong_retreats",
        }
    }

    /// The name of the state as an owned string.
    pub fn to_string(&self) -> (name: String)
        ensures
            name@ == self.spec_name(),
    {
        self.name().to_owned()
    }

    /// Every ordinal is below `STATE_COUNT`, and no two states share one: a
    /// table indexed by ordinal holds exactly one entry per state.
    pub proof fn lemma_ordinal_injective(a: GameState, b: GameState)
        ensures
            0 <= a.spec_ordinal() < STATE_COUNT,
            a.spec_ordinal() == b.spec_ordinal() <==> a == b,
    {
    }

    /// The order of the states is total: any two states compare, two states
    /// compare equal only if they are the same state, swapping the sides
    /// swaps the outcome, and `Less` is transitive.
    pub proof fn lemma_order_total(a: GameState, b: GameState, c: GameState)
        ensures
            a.partial_cmp_spec(&b) is Some,
            a.partial_cmp_spec(&b) == Some(Ordering::Equal) <==> a == b,
            a.partial_cmp_spec(&b) == Some(Ordering::Less) <==> b.partial_cmp_spec(&a) == Some(
                Ordering::Greater,
            ),
            a.partial_cmp_spec(&b) == Some(Ordering::Less) && b.partial_cmp_spec(&c) == Some(
                Ordering::Less,
            ) ==> a.partial_cmp_spec(&c) == Some(Ordering::Less),
    {
    }

    /// No two states share a name.
    pub proof fn lemma_name_injective(a: GameState, b: GameState)
        ensures
            a.spec_name() == b.spec_name() <==> a == b,
    {
        reveal_strlit("state_nop");
        reveal_strlit("boot");
        reveal_strlit("attract");
        reveal_strlit("long_intro");
        reveal_strlit("how_high");
        reveal_strlit("game_play");
        reveal_strlit("player_dies");
        reveal_strlit("player_wins");
        reveal_strlit("kong_retreats");
        if a != b && a.spec_name().len() == b.spec_name().len() {
            assert("state_nop"@[0] != "game_play"@[0]);
            assert("player_dies"@[7] != "player_wins"@[7]);
        }
    }
}

impl PartialOrd for GameState {
    /// States compare as their ordinals do.
    fn partial_cmp(&self, other: &GameState) -> (order: Option<Ordering>) {
        let a: usize = self.ordinal();
        let b: usize = other.ordinal();
        if a < b {
            Some(Ordering::Less)
        } else if a > b {
            Some(Ordering::Greater)
        } else {
            Some(Ordering::Equal)
        }
    }
}

impl vstd::std_specs::cmp::PartialOrdSpecImpl for GameState {
    open spec fn obeys_partial_cmp_spec() -> bool {
        true
    }

    open spec fn partial_cmp_spec(&self, other: &GameState) -> Option<Ordering> {
        if self.spec_ordinal() < other.spec_ordinal() {
            Some(Ordering::Less)
        } else if self.spec_ordinal() > other.spec_ordinal() {
            Some(Ordering::Greater)
        } else {
            Some(Ordering::Equal)
        }
    }
}

} // verus!
