//! The phrase list.  It supplies both the hidden target words of the game
//! screen and the celebratory messages of the ending screen: an index below
//! `WISH_COUNT` is shown as "Wish you <phrase>.", a later one stands alone.

use vstd::prelude::*;
use crate::utils::is_inputable;

verus! {

/// How many phrases the list holds.
pub const PHRASE_COUNT: usize = 20;

/// Indices below this are phrased as "Wish you <phrase>." on the ending screen.
pub const WISH_COUNT: usize = 7;

/// The characters of the phrase at index `i` of the list.
pub open spec fn spec_phrase(i: int) -> Seq<char> {
    if i == 0 { "good luck"@ }
    else if i == 1 { "a merry heart"@ }
    else if i == 2 { "sweet dreams"@ }
    else if i == 3 { "a calm mind"@ }
    else if i == 4 { "warm days"@ }
    else if i == 5 { "true friends"@ }
    else if i == 6 { "quiet nights"@ }
    else if i == 7 { "the truth is near"@ }
    else if i == 8 { "keep on seeking"@ }
    else if i == 9 { "letters never lie"@ }
    else if i == 10 { "every word ends"@ }
    else if i == 11 { "the maze has a door"@ }
    else if i == 12 { "stars guide the lost"@ }
    else if i == 13 { "patience wins the day"@ }
    else if i == 14 { "small steps count"@ }
    else if i == 15 { "the answer was here"@ }
    else if i == 16 { "night turns to dawn"@ }
    else if i == 17 { "rivers reach the sea"@ }
    else if i == 18 { "seeds become trees"@ }
    else { "echoes fade away"@ }
}

/// What the game needs of a target word: it is not empty and its last
/// character can be typed, so that skipping over untypable characters
/// always stops inside the word.
pub open spec fn phrase_ok(s: Seq<char>) -> bool {
    s.len() >= 1 && is_inputable(s[s.len() - 1])
}

/// Every phrase of the list is a usable target word.
pub proof fn lemma_phrases_ok()
    ensures
        forall|i: int| 0 <= i < PHRASE_COUNT ==> phrase_ok(#[trigger] spec_phrase(i)),
{
    reveal_strlit("good luck");
    reveal_strlit("a merry heart");
    reveal_strlit("sweet dreams");
    reveal_strlit("a calm mind");
    reveal_strlit("warm days");
    reveal_strlit("true friends");
    reveal_strlit("quiet nights");
    reveal_strlit("the truth is near");
    reveal_strlit("keep on seeking");
    reveal_strlit("letters never lie");
    reveal_strlit("every word ends");
    reveal_strlit("the maze has a door");
    reveal_strlit("stars guide the lost");
    reveal_strlit("patience wins the day");
    reveal_strlit("small steps count");
    reveal_strlit("the answer was here");
    reveal_strlit("night turns to dawn");
    reveal_strlit("rivers reach the sea");
    reveal_strlit("seeds become trees");
    reveal_strlit("echoes fade away");
    assert forall|i: int| 0 <= i < PHRASE_COUNT implies phrase_ok(#[trigger] spec_phrase(i)) by {
        if i == 0 { assert(phrase_ok(spec_phrase(0))); }
        else if i == 1 { assert(phrase_ok(spec_phrase(1))); }
        else if i == 2 { assert(phrase_ok(spec_phrase(2))); }
        else if i == 3 { assert(phrase_ok(spec_phrase(3))); }
        else if i == 4 { assert(phrase_ok(spec_phrase(4))); }
        else if i == 5 { assert(phrase_ok(spec_phrase(5))); }
        else if i == 6 { assert(phrase_ok(spec_phrase(6))); }
        else if i == 7 { assert(phrase_ok(spec_phrase(7))); }
        else if i == 8 { assert(phrase_ok(spec_phrase(8))); }
        else if i == 9 { assert(phrase_ok(spec_phrase(9))); }
        else if i == 10 { assert(phrase_ok(spec_phrase(10))); }
        else if i == 11 { assert(phrase_ok(spec_phrase(11))); }
        else if i == 12 { assert(phrase_ok(spec_phrase(12))); }
        else if i == 13 { assert(phrase_ok(spec_phrase(13))); }
        else if i == 14 { assert(phrase_ok(spec_phrase(14))); }
        else if i == 15 { assert(phrase_ok(spec_phrase(15))); }
        else if i == 16 { assert(phrase_ok(spec_phrase(16))); }
        else if i == 17 { assert(phrase_ok(spec_phrase(17))); }
        else if i == 18 { assert(phrase_ok(spec_phrase(18))); }
        else { assert(phrase_ok(spec_phrase(i))); }
    }
}

/// The phrase at index `i` of the list.
pub fn phrase(i: usize) -> (s: &'static str)
    requires
        i < PHRASE_COUNT,
    ensures
        s@ == spec_phrase(i as int),
{
    if i == 0 { "good luck" }
    else if i == 1 { "a merry heart" }
    else if i == 2 { "sweet dreams" }
    else if i == 3 { "a calm mind" }
    else if i == 4 { "warm days" }
    else if i == 5 { "true friends" }
    else if i == 6 { "quiet nights" }
    else if i == 7 { "the truth is near" }
    else if i == 8 { "keep on seeking" }
    else if i == 9 { "letters never lie" }
    else if i == 10 { "every word ends" }
    else if i == 11 { "the maze has a door" }
    else if i == 12 { "stars guide the lost" }
    else if i == 13 { "patience wins the day" }
    else if i == 14 { "small steps count" }
    else if i == 15 { "the answer was here" }
    else if i == 16 { "night turns to dawn" }
    else if i == 17 { "rivers reach the sea" }
    else if i == 18 { "seeds become trees" }
    else { "echoes fade away" }
}

/// The phrase at index `i`, one character at a time, as the game screen
/// consumes it.
pub fn phrase_chars(i: usize) -> (v: Vec<char>)
    requires
        i < PHRASE_COUNT,
    ensures
        v@ == spec_phrase(i as int),
{
    let s = phrase(i);
    let n = s.unicode_len();
    let mut v: Vec<char> = Vec::new();
    let mut j: usize = 0;
    while j < n
        invariant
            n == s@.len(),
            s@ == spec_phrase(i as int),
            j <= n,
            v@ == s@.subrange(0, j as int),
        decreases n - j,
    {
        v.push(s.get_char(j));
        assert(v@ =~= s@.subrange(0, j + 1 as int));
        j += 1;
    }
    assert(v@ =~= s@);
    v
}

} // verus!
