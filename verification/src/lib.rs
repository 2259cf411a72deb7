//! A small single-player letter-guessing game, written as a verified library.
//!
//! The library holds the game's entire decision logic: the phrase list the
//! hidden target words are drawn from, the per-tick guess resolution state
//! machine, the coarse screen transitions, and the messages each screen
//! shows.  A front end only has to feed key releases and button clicks in
//! and draw the strings that come back out.

pub mod data;
pub mod fine;
pub mod game;
pub mod utils;

pub use data::PHRASE_COUNT;
pub use data::WISH_COUNT;
pub use data::phrase;
pub use data::phrase_chars;
pub use fine::fine_message;
pub use fine::game_end;
pub use game::CHAR_ENTRY;
pub use game::Game;
pub use game::InfoType;
pub use game::Key;
pub use game::handle_choice;
pub use game::handle_input;
pub use game::info_message;
pub use game::key_char;
pub use game::new_game;
pub use game::resolve_choice;
pub use game::start_game;
pub use utils::is_inputable_char;
pub use utils::to_lowercase;

use vstd::prelude::*;

verus! {

/// The three screens of the application.
#[derive(Clone, Copy, Debug, PartialEq, Eq, Hash, Structural)]
pub enum GameState {
    Splash,
    Game,
    Fine,
}

/// Process-wide state: the master-list index of the last solved word,
/// which the ending screen's message is drawn from.
pub struct GlobalData {
    pub fine_index: usize,
}

impl Default for GlobalData {
    fn default() -> (d: Self)
        ensures
            d.fine_index == 0,
    {
        GlobalData { fine_index: 0 }
    }
}

/// The splash and ending screens advance to a fresh game when the Enter
/// key is released.
pub fn enter_game(enter_released: bool) -> (t: Option<GameState>)
    ensures
        t == if enter_released { Some(GameState::Game) } else { None::<GameState> },
{
    if enter_released {
        Some(GameState::Game)
    } else {
        None
    }
}

} // verus!
