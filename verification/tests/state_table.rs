use rusty_kong::game_state::GameState;
use rusty_kong::state_table::StateTable;

const STATES: [GameState; 9] = [
    GameState::Nop,
    GameState::Boot,
    GameState::Attract,
    GameState::LongIntroduction,
    GameState::HowHigh,
    GameState::GamePlay,
    GameState::PlayerDies,
    GameState::PlayerWins,
    GameState::KongRetreats,
];

#[test]
fn table_holds_entries_in_ordinal_order() {
    let table = StateTable::new([10u32, 11, 12, 13, 14, 15, 16, 17, 18]);
    for state in STATES {
        assert_eq!(*table.lookup(state), 10 + state.ordinal() as u32);
    }
    assert_eq!(*table.lookup(GameState::Nop), 10);
    assert_eq!(*table.lookup(GameState::KongRetreats), 18);
}

#[test]
fn table_set_replaces_one_entry() {
    let mut table = StateTable::new(["a", "b", "c", "d", "e", "f", "g", "h", "i"]);
    table.set(GameState::HowHigh, "z");
    let expected = ["a", "b", "c", "d", "z", "f", "g", "h", "i"];
    for state in STATES {
        assert_eq!(*table.lookup(state), expected[state.ordinal()]);
    }
}

#[test]
fn filled_table_holds_the_value_everywhere() {
    let mut table = StateTable::filled(true);
    for state in STATES {
        assert!(*table.lookup(state));
    }
    table.set(GameState::Boot, false);
    for state in STATES {
        assert_eq!(*table.lookup(state), state != GameState::Boot);
    }
}

#[test]
fn table_holds_entries_that_are_not_copied() {
    let entries: [String; 9] = [
        String::from("nop"),
        String::from("boot"),
        String::from("attract"),
        String::from("intro"),
        String::from("high"),
        String::from("play"),
        String::from("dies"),
        String::from("wins"),
        String::from("retreats"),
    ];
    let mut table = StateTable::new(entries);
    assert_eq!(table.lookup(GameState::PlayerWins), "wins");
    table.set(GameState::PlayerWins, String::from("won"));
    assert_eq!(table.lookup(GameState::PlayerWins), "won");
    assert_eq!(table.lookup(GameState::PlayerDies), "dies");
}
