//! The top-level state machine of the game: which state is active, which
//! transition is pending, and which lifecycle callbacks a tick has to run.

pub mod game_state;
pub mod lifecycle;
pub mod schedule;
pub mod state_machine;
pub mod state_table;
pub mod tick;
