//! The ending screen: recording the solved word and building its message.

use vstd::prelude::*;
use crate::data::{spec_phrase, phrase, PHRASE_COUNT, WISH_COUNT};
use crate::game::{Game, InfoType};
use crate::GlobalData;

verus! {

/// When the game screen is left, a `Fine` playthrough records its solved
/// word's master-list index into the process-wide state; any other
/// playthrough leaves it as it was.
pub fn game_end(global_data: &mut GlobalData, game: &Game)
    ensures
        final(global_data).fine_index == if game.info_type == InfoType::Fine {
            game.active_data_global_index
        } else {
            old(global_data).fine_index
        },
{
    if game.info_type == InfoType::Fine {
        global_data.fine_index = game.active_data_global_index;
    }
}

/// The message the ending screen shows for the solved phrase at index `i`:
/// an index below `WISH_COUNT` reads "Wish you <phrase>.", a later phrase
/// stands alone, followed by a full stop.
pub open spec fn spec_fine_message(i: int) -> Seq<char> {
    if i < WISH_COUNT {
        "Wish you "@ + spec_phrase(i) + "."@
    } else {
        spec_phrase(i) + "."@
    }
}

/// The message the ending screen shows for the solved phrase at index
/// `fine_index` of the master list.
pub fn fine_message(fine_index: usize) -> (s: String)
    requires
        fine_index < PHRASE_COUNT,
    ensures
        s@ == spec_fine_message(fine_index as int),
{
    let p = phrase(fine_index);
    if fine_index < WISH_COUNT {
        let mut s = String::from_str("Wish you ");
        s.append(p);
        s.append(".");
        s
    } else {
        let mut s = String::from_str(p);
        s.append(".");
        s
    }
}

} // verus!
