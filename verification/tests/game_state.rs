use rusty_kong::game_state::{GameState, STATE_COUNT};
use std::collections::HashSet;

const STATES_IN_ORDER: [GameState; 9] = [
    GameState::Nop,
    GameState::Boot,
    GameState::Attract,
    GameState::LongIntroduction,
    GameState::HowHigh,
    GameState::GamePlay,
    GameState::PlayerDies,
    GameState::PlayerWins,
    GameState::KongRetreats,
];

#[test]
fn ordinals_follow_declaration_order() {
    assert_eq!(STATE_COUNT, 9);
    for (i, state) in STATES_IN_ORDER.iter().enumerate() {
        assert_eq!(state.ordinal(), i);
    }
    assert_eq!(GameState::Nop.ordinal(), 0);
    assert_eq!(GameState::HowHigh.ordinal(), 4);
    assert_eq!(GameState::KongRetreats.ordinal(), 8);
}

#[test]
fn states_are_ordered_by_ordinal() {
    for a in STATES_IN_ORDER {
        for b in STATES_IN_ORDER {
            assert_eq!(a < b, a.ordinal() < b.ordinal());
            assert_eq!(a == b, a.ordinal() == b.ordinal());
            assert_eq!(a.cmp(&b), a.ordinal().cmp(&b.ordinal()));
        }
    }
    let mut shuffled = vec![
        GameState::PlayerWins,
        GameState::Boot,
        GameState::KongRetreats,
        GameState::Nop,
        GameState::GamePlay,
        GameState::Attract,
        GameState::PlayerDies,
        GameState::HowHigh,
        GameState::LongIntroduction,
    ];
    shuffled.sort();
    assert_eq!(shuffled, STATES_IN_ORDER.to_vec());
}

#[test]
fn states_can_be_hashed() {
    let mut set = HashSet::new();
    for state in STATES_IN_ORDER {
        assert!(set.insert(state));
    }
    assert!(!set.insert(GameState::Boot));
    assert_eq!(set.len(), 9);
}

#[test]
fn every_state_has_its_name() {
    assert_eq!(GameState::Nop.name(), "state_nop");
    assert_eq!(GameState::Boot.name(), "boot");
    assert_eq!(GameState::Attract.name(), "attract");
    assert_eq!(GameState::LongIntroduction.name(), "long_intro");
    assert_eq!(GameState::HowHigh.name(), "how_high");
    assert_eq!(GameState::GamePlay.name(), "game_play");
    assert_eq!(GameState::PlayerDies.name(), "player_dies");
    assert_eq!(GameState::PlayerWins.name(), "player_wins");
    assert_eq!(GameState::KongRetreats.name(), "kong_retreats");
}

#[test]
fn to_string_gives_the_name() {
    for state in STATES_IN_ORDER {
        assert_eq!(state.to_string(), state.name());
    }
    assert_eq!(GameState::LongIntroduction.to_string(), String::from("long_intro"));
    assert_eq!(format!("calling {}_leave().", GameState::Boot.to_string()), "calling boot_leave().");
}

#[test]
fn names_are_distinct() {
    let names: HashSet<&str> = STATES_IN_ORDER.iter().map(|s| s.name()).collect();
    assert_eq!(names.len(), 9);
}

#[test]
fn states_are_copied_not_moved() {
    let a = GameState::GamePlay;
    let b = a;
    let c = a.clone();
    assert_eq!(a, b);
    assert_eq!(a, c);
    assert_ne!(a, GameState::PlayerDies);
}
