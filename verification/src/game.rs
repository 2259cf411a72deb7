//! The guessing state machine of the game screen.
//!
//! Each update tick the front end resolves pending input into at most one
//! chosen character (`handle_input`), then the guess is judged and the game
//! advances (`handle_choice`).  The whole transition is captured by the
//! spec function [`step`] over the abstract state [`GameView`]; the random
//! letters it needs are drawn through a single trusted call into `rand` and
//! handed to the verified core [`resolve_choice`].

use vstd::prelude::*;
use crate::data::{spec_phrase, phrase_ok, phrase_chars, PHRASE_COUNT};
use crate::utils::{is_inputable, is_inputable_char, lower_char, to_lowercase};
use crate::GameState;
use rand::Rng;

verus! {

/// The value of the chosen-character mailbox when no guess is pending.
pub const CHAR_ENTRY: char = '?';

/// The outcome state of a playthrough.  `Open` is the unblemished run; a
/// wrong guess makes it `Neverending`; a long `Neverending` streak becomes
/// `Tedious`; completing the word while unblemished ends `Fine`.
#[derive(Clone, Copy, Debug, PartialEq, Eq, Structural)]
pub enum InfoType {
    Open,
    Fine,
    Neverending,
    Tedious,
}

impl Default for InfoType {
    fn default() -> (r: Self)
        ensures
            r == InfoType::Open,
    {
        InfoType::Open
    }
}

/// Per-playthrough state of the game screen.
pub struct Game {
    /// Which of the two displayed choice letters belongs to the pursued word.
    pub active_choice_index: usize,
    /// Which of the two candidate words is pursued (fixed by the first guess).
    pub active_data_index: usize,
    /// The pursued word's index in the master phrase list.
    pub active_data_global_index: usize,
    /// The pursued word's length in characters.
    pub active_data_len: usize,
    /// The two displayed choice letters.
    pub choices: Vec<char>,
    /// The transient mailbox: the guess chosen by this tick's input, if any.
    pub chosen_char: char,
    /// The two candidate words.
    pub datas: Vec<Vec<char>>,
    /// The outcome state.
    pub info_type: InfoType,
    /// The master-list index the first candidate word was drawn from.
    pub init_data0_index: usize,
    /// The master-list index the second candidate word was drawn from.
    pub init_data1_index: usize,
    /// The input shown so far: accepted guesses and auto-appended characters.
    pub input_text: Vec<char>,
    /// Whether no guess has been accepted yet.
    pub is_first_choice: bool,
    /// How many characters of the pursued word have been consumed.
    pub seeking_index: usize,
}

/// The abstract state of a [`Game`]: the same fields over mathematical types.
#[verifier::ext_equal]
pub ghost struct GameView {
    pub active_choice_index: int,
    pub active_data_index: int,
    pub active_data_global_index: int,
    pub active_data_len: int,
    pub choices: Seq<char>,
    pub chosen_char: char,
    pub datas: Seq<Seq<char>>,
    pub info_type: InfoType,
    pub init_data0_index: int,
    pub init_data1_index: int,
    pub input_text: Seq<char>,
    pub is_first_choice: bool,
    pub seeking_index: int,
}

impl View for Game {
    type V = GameView;

    open spec fn view(&self) -> GameView {
        GameView {
            active_choice_index: self.active_choice_index as int,
            active_data_index: self.active_data_index as int,
            active_data_global_index: self.active_data_global_index as int,
            active_data_len: self.active_data_len as int,
            choices: self.choices@,
            chosen_char: self.chosen_char,
            datas: Seq::new(self.datas@.len(), |i: int| self.datas@[i]@),
            info_type: self.info_type,
            init_data0_index: self.init_data0_index as int,
            init_data1_index: self.init_data1_index as int,
            input_text: self.input_text@,
            is_first_choice: self.is_first_choice,
            seeking_index: self.seeking_index as int,
        }
    }
}

/// A lowercase ASCII letter, as the random chaff letters are drawn.
pub open spec fn is_lower_letter(c: char) -> bool {
    97 <= c as u32 && c as u32 <= 122
}

/// What the two random letters and the random slot of one tick may be.
pub open spec fn rand_ok(rl: char, rs: int, rl2: char) -> bool {
    is_lower_letter(rl) && 0 <= rs < 2 && is_lower_letter(rl2)
}

/// What the input shows after the first `n` characters of the pursued word
/// `data` are consumed on an unblemished run: guessed characters appear
/// lowercased (a guess is always the lowercased choice letter), the
/// auto-appended ones as they stand.  The guessed positions are the first
/// one and every typable one; the untypable rest were auto-appended.
pub open spec fn consumed(data: Seq<char>, n: int) -> Seq<char> {
    Seq::new(
        n as nat,
        |j: int|
            if j == 0 || is_inputable(data[j]) {
                lower_char(data[j])
            } else {
                data[j]
            },
    )
}

/// The first position at or after `i` in `data` holding a typable character
/// (`data.len()` if there is none).
pub open spec fn next_inputable(data: Seq<char>, i: int) -> int
    decreases data.len() - i,
{
    if i < data.len() && !is_inputable(data[i]) {
        next_inputable(data, i + 1)
    } else {
        i
    }
}

/// In a word whose last character is typable, skipping from any position
/// inside the word stops inside the word, on a typable character, and every
/// character skipped over was untypable.
pub proof fn lemma_next_inputable(data: Seq<char>, i: int)
    requires
        0 <= i < data.len(),
        phrase_ok(data),
    ensures
        i <= next_inputable(data, i) < data.len(),
        is_inputable(data[next_inputable(data, i)]),
        forall|k: int| i <= k < next_inputable(data, i) ==> !is_inputable(#[trigger] data[k]),
    decreases data.len() - i,
{
    if !is_inputable(data[i]) {
        assert(i != data.len() - 1);
        lemma_next_inputable(data, i + 1);
    }
}

impl GameView {
    /// The game's invariant: what every reachable state satisfies.
    pub open spec fn wf(self) -> bool {
        &&& self.datas.len() == 2
        &&& self.choices.len() == 2
        &&& phrase_ok(self.datas[0])
        &&& phrase_ok(self.datas[1])
        &&& 0 <= self.active_choice_index < 2
        &&& 0 <= self.active_data_index < 2
        &&& 0 <= self.seeking_index
        &&& (self.is_first_choice ==> {
            &&& self.info_type == InfoType::Open
            &&& self.seeking_index == 0
            &&& self.active_choice_index == 0
            &&& self.active_data_index == 0
            &&& self.input_text.len() == 0
            &&& self.choices[0] == lower_char(self.datas[0][0])
            &&& self.choices[1] == lower_char(self.datas[1][0])
        })
        &&& (!self.is_first_choice ==> {
            &&& self.active_data_len == self.datas[self.active_data_index].len()
            &&& self.active_data_global_index == if self.active_data_index == 0 {
                self.init_data0_index
            } else {
                self.init_data1_index
            }
        })
        &&& (!self.is_first_choice && self.info_type == InfoType::Open ==> {
            &&& self.seeking_index < self.active_data_len
            &&& is_inputable(self.datas[self.active_data_index][self.seeking_index])
            &&& self.choices[self.active_choice_index] == lower_char(
                self.datas[self.active_data_index][self.seeking_index],
            )
            &&& self.input_text == consumed(self.datas[self.active_data_index], self.seeking_index)
        })
        &&& (self.info_type == InfoType::Fine ==> {
            &&& !self.is_first_choice
            &&& self.seeking_index + 1 == self.active_data_len
            &&& self.input_text.len() == self.active_data_len
        })
        &&& (self.info_type == InfoType::Neverending || self.info_type == InfoType::Tedious ==> {
            &&& !self.is_first_choice
            &&& self.input_text.len() == self.seeking_index
        })
        &&& (self.info_type == InfoType::Tedious ==> self.seeking_index >= 10)
    }

    /// Both candidate words stand in the master phrase list, at the recorded
    /// indices, and were drawn without repetition.
    pub open spec fn from_phrase_list(self) -> bool {
        &&& 0 <= self.init_data0_index < PHRASE_COUNT
        &&& 0 <= self.init_data1_index < PHRASE_COUNT
        &&& self.init_data0_index != self.init_data1_index
        &&& self.datas[0] == spec_phrase(self.init_data0_index)
        &&& self.datas[1] == spec_phrase(self.init_data1_index)
    }

    /// Whether the pending chosen character is one of the displayed choices.
    pub open spec fn accepts(self) -> bool {
        self.chosen_char != CHAR_ENTRY && (self.chosen_char == self.choices[0]
            || self.chosen_char == self.choices[1])
    }

    /// The same state with the mailbox set to `c`.
    pub open spec fn with_chosen(self, c: char) -> GameView {
        GameView { chosen_char: c, ..self }
    }

    /// The accepted guess appended to the input; on the very first accepted
    /// guess the matched slot fixes the pursued word for the playthrough.
    pub open spec fn recorded(self) -> GameView {
        let pushed = GameView { input_text: self.input_text.push(self.chosen_char), ..self };
        if self.is_first_choice {
            let idx: int = if self.chosen_char == self.choices[0] { 0 } else { 1 };
            GameView {
                active_choice_index: idx,
                active_data_index: idx,
                active_data_global_index: if idx == 0 {
                    self.init_data0_index
                } else {
                    self.init_data1_index
                },
                active_data_len: self.datas[idx].len() as int,
                is_first_choice: false,
                ..pushed
            }
        } else {
            pushed
        }
    }

    /// The outcome after judging the accepted guess: a guess off the pursued
    /// word's choice letter turns the run `Neverending`; landing on the last
    /// character of a still unblemished (`Open`) run ends `Fine`, and only
    /// such a run can end `Fine`; a `Neverending` run of at least ten
    /// consumed characters becomes `Tedious`.
    pub open spec fn judged_info(self) -> InfoType {
        let i1 = if self.chosen_char != self.choices[self.active_choice_index] {
            InfoType::Neverending
        } else {
            self.info_type
        };
        let i2 = if self.seeking_index == self.active_data_len - 1 && i1 == InfoType::Open {
            InfoType::Fine
        } else {
            i1
        };
        if i2 == InfoType::Neverending && self.seeking_index >= 10 {
            InfoType::Tedious
        } else {
            i2
        }
    }

    /// The match pointer advanced and the two choice letters redrawn.  Slot
    /// `rs` always gets the random letter `rl`; on an unblemished run the
    /// other slot gets the pursued word's next required letter (untypable
    /// characters auto-appended first), otherwise the random letter `rl2`.
    pub open spec fn advanced(self, rl: char, rs: int, rl2: char) -> GameView {
        let s1 = self.seeking_index + 1;
        if self.info_type != InfoType::Open {
            GameView {
                seeking_index: s1,
                choices: self.choices.update(rs, rl).update(1 - rs, rl2),
                ..self
            }
        } else {
            let data = self.datas[self.active_data_index];
            let j = next_inputable(data, s1);
            GameView {
                seeking_index: j,
                input_text: self.input_text + data.subrange(s1, j),
                choices: self.choices.update(rs, rl).update(1 - rs, lower_char(data[j])),
                active_choice_index: 1 - rs,
                ..self
            }
        }
    }
}

/// Consuming one more character extends the consumed prefix by one.
proof fn lemma_consumed_push(data: Seq<char>, n: int)
    requires
        0 <= n,
    ensures
        consumed(data, n + 1) == consumed(data, n).push(
            if n == 0 || is_inputable(data[n]) {
                lower_char(data[n])
            } else {
                data[n]
            },
        ),
{
    assert(consumed(data, n + 1) =~= consumed(data, n).push(
        if n == 0 || is_inputable(data[n]) {
            lower_char(data[n])
        } else {
            data[n]
        },
    ));
}

/// One full resolution tick: what `resolve_choice` does to the state, given
/// the random letters `rl`, `rl2` and the random slot `rs` of that tick.
/// The mailbox is cleared at the end of every tick regardless of outcome.
pub open spec fn step(g: GameView, rl: char, rs: int, rl2: char) -> GameView {
    if g.info_type == InfoType::Fine || !g.accepts() {
        g.with_chosen(CHAR_ENTRY)
    } else {
        let g1 = g.recorded();
        let g2 = GameView { info_type: g1.judged_info(), ..g1 };
        if g2.info_type == InfoType::Fine {
            g2.with_chosen(CHAR_ENTRY)
        } else {
            g2.advanced(rl, rs, rl2).with_chosen(CHAR_ENTRY)
        }
    }
}

/// Every resolution tick preserves the game's invariant, whatever the
/// random draws were.
pub proof fn lemma_step_wf(g: GameView, rl: char, rs: int, rl2: char)
    requires
        g.wf(),
        rand_ok(rl, rs, rl2),
    ensures
        step(g, rl, rs, rl2).wf(),
{
    if g.info_type == InfoType::Fine || !g.accepts() {
    } else {
        let c = g.chosen_char;
        let g1 = g.recorded();
        let info = g1.judged_info();
        let g2 = GameView { info_type: info, ..g1 };
        let a = g1.active_data_index;
        let data = g1.datas[a];
        let s = g1.seeking_index;
        // the guess was appended to the input
        assert(g1.input_text.len() == g.input_text.len() + 1);
        // on the very first guess, the matched choice is the guessed character
        if g.is_first_choice {
            assert(c == g1.choices[g1.active_choice_index]);
            assert(info != InfoType::Neverending && info != InfoType::Tedious);
        }
        if info == InfoType::Fine {
            assert(s == g1.active_data_len - 1);
            assert(step(g, rl, rs, rl2).wf());
        } else {
            let s1 = s + 1;
            let g3 = g2.advanced(rl, rs, rl2);
            if info != InfoType::Open {
                assert(g3.choices.len() == 2);
                assert(step(g, rl, rs, rl2).wf());
            } else {
                // the run is still unblemished: the guess was the required
                // letter, and the word is advanced to its next typable one
                assert(g.info_type == InfoType::Open);
                assert(c == g1.choices[g1.active_choice_index]);
                assert(s < g1.active_data_len - 1);
                lemma_consumed_push(data, s);
                if g.is_first_choice {
                    assert(g.input_text =~= consumed(data, 0));
                    assert(c == lower_char(data[0]));
                } else {
                    assert(is_inputable(data[s]));
                    assert(c == lower_char(data[s]));
                }
                assert(g1.input_text == consumed(data, s1));
                lemma_next_inputable(data, s1);
                let j = next_inputable(data, s1);
                assert(g3.input_text =~= consumed(data, j));
                assert(g3.choices.len() == 2);
                assert(g3.choices[g3.active_choice_index] == lower_char(data[j]));
                assert(step(g, rl, rs, rl2).wf());
            }
        }
    }
}

/// Once the active word is fixed by the first accepted guess, it never
/// changes for the rest of the playthrough; the candidate words and the
/// master-list indices they were drawn from never change at all.
pub proof fn lemma_active_word_fixed(g: GameView, rl: char, rs: int, rl2: char)
    ensures
        step(g, rl, rs, rl2).datas == g.datas,
        step(g, rl, rs, rl2).init_data0_index == g.init_data0_index,
        step(g, rl, rs, rl2).init_data1_index == g.init_data1_index,
        !g.is_first_choice ==> {
            &&& !step(g, rl, rs, rl2).is_first_choice
            &&& step(g, rl, rs, rl2).active_data_index == g.active_data_index
            &&& step(g, rl, rs, rl2).active_data_global_index == g.active_data_global_index
            &&& step(g, rl, rs, rl2).active_data_len == g.active_data_len
        },
{
}

/// Outcome transitions are monotonic.  An unblemished run stays open, goes
/// wrong, or ends fine; a `Neverending` run only stays `Neverending` or
/// escalates to `Tedious`, and it escalates exactly on an accepted guess
/// with at least ten characters consumed; `Tedious` and `Fine` are
/// terminal, so `Fine` is reached out of an unblemished run alone.  The
/// one compound move: an unblemished run whose first mismatch comes with
/// at least ten characters already consumed passes through `Neverending`
/// to `Tedious` within a single tick.
pub proof fn lemma_outcome_monotonic(g: GameView, rl: char, rs: int, rl2: char)
    requires
        g.wf(),
    ensures
        g.info_type == InfoType::Fine ==> step(g, rl, rs, rl2).info_type == InfoType::Fine,
        g.info_type == InfoType::Tedious ==> step(g, rl, rs, rl2).info_type == InfoType::Tedious,
        step(g, rl, rs, rl2).info_type == InfoType::Fine ==> (g.info_type == InfoType::Fine
            || g.info_type == InfoType::Open),
        g.info_type == InfoType::Open && g.seeking_index < 10 ==> (step(g, rl, rs, rl2).info_type
            == InfoType::Open || step(g, rl, rs, rl2).info_type == InfoType::Neverending || step(
            g,
            rl,
            rs,
            rl2,
        ).info_type == InfoType::Fine),
        g.info_type == InfoType::Open && step(g, rl, rs, rl2).info_type == InfoType::Tedious
            ==> g.seeking_index >= 10,
        g.info_type == InfoType::Neverending ==> (step(g, rl, rs, rl2).info_type
            == InfoType::Neverending || step(g, rl, rs, rl2).info_type == InfoType::Tedious),
        g.info_type == InfoType::Neverending && step(g, rl, rs, rl2).info_type == InfoType::Tedious
            ==> (g.accepts() && g.seeking_index >= 10),
        g.info_type == InfoType::Neverending && g.accepts() && g.seeking_index >= 10 ==> step(
            g,
            rl,
            rs,
            rl2,
        ).info_type == InfoType::Tedious,
{
}

/// A win out of an unblemished run leaves the input spelling the whole
/// pursued word: its guessed characters lowercased, the auto-appended
/// ones as they stand.
pub proof fn lemma_clean_win(g: GameView, rl: char, rs: int, rl2: char)
    requires
        g.wf(),
        rand_ok(rl, rs, rl2),
        g.info_type == InfoType::Open,
        step(g, rl, rs, rl2).info_type == InfoType::Fine,
    ensures
        ({
            let post = step(g, rl, rs, rl2);
            post.input_text == consumed(post.datas[post.active_data_index], post.active_data_len)
        }),
{
    let g1 = g.recorded();
    let c = g.chosen_char;
    let a = g1.active_data_index;
    let data = g1.datas[a];
    let s = g1.seeking_index;
    assert(g.accepts());
    assert(g1.judged_info() == InfoType::Fine);
    assert(c == g1.choices[g1.active_choice_index]);
    assert(s == g1.active_data_len - 1);
    lemma_consumed_push(data, s);
    if g.is_first_choice {
        assert(g.input_text =~= consumed(data, 0));
        assert(c == lower_char(data[0]));
    } else {
        assert(is_inputable(data[s]));
        assert(c == lower_char(data[s]));
    }
    assert(g1.input_text == consumed(data, s + 1));
}

/// Relies on `Rng::gen_range` of `rand` on a thread-local generator: it
/// returns a uniform sample of `0..n` and panics only on an empty range,
/// which the precondition rules out.
#[verifier::external_body]
fn rand_below(n: usize) -> (r: usize)
    requires
        n > 0,
    ensures
        r < n,
{
    rand::thread_rng().gen_range(0..n)
}

/// A uniformly random lowercase ASCII letter.
fn random_letter() -> (c: char)
    ensures
        is_lower_letter(c),
{
    let off = rand_below(26);
    let b: u8 = 97 + off as u8;
    b as char
}

/// The initial state of a playthrough whose candidate words are the phrases
/// at indices `i0` and `i1` of the master list.
pub open spec fn init_view(i0: int, i1: int) -> GameView {
    GameView {
        active_choice_index: 0,
        active_data_index: 0,
        active_data_global_index: 0,
        active_data_len: 0,
        choices: seq![lower_char(spec_phrase(i0)[0]), lower_char(spec_phrase(i1)[0])],
        chosen_char: CHAR_ENTRY,
        datas: seq![spec_phrase(i0), spec_phrase(i1)],
        info_type: InfoType::Open,
        init_data0_index: i0,
        init_data1_index: i1,
        input_text: Seq::empty(),
        is_first_choice: true,
        seeking_index: 0,
    }
}

/// A fresh playthrough over the phrases at indices `i0` and `i1`, which
/// must be distinct.  Each displayed choice letter is the lowercased first
/// letter of one candidate word.
pub fn new_game(i0: usize, i1: usize) -> (g: Game)
    requires
        i0 < PHRASE_COUNT,
        i1 < PHRASE_COUNT,
        i0 != i1,
    ensures
        g@ == init_view(i0 as int, i1 as int),
        g@.wf(),
        g@.from_phrase_list(),
{
    proof {
        crate::data::lemma_phrases_ok();
    }
    let d0 = phrase_chars(i0);
    let d1 = phrase_chars(i1);
    let c0 = to_lowercase(d0[0]);
    let c1 = to_lowercase(d1[0]);
    let mut choices: Vec<char> = Vec::new();
    choices.push(c0);
    choices.push(c1);
    let mut datas: Vec<Vec<char>> = Vec::new();
    datas.push(d0);
    datas.push(d1);
    let g = Game {
        active_choice_index: 0,
        active_data_index: 0,
        active_data_global_index: 0,
        active_data_len: 0,
        choices,
        chosen_char: CHAR_ENTRY,
        datas,
        info_type: InfoType::Open,
        init_data0_index: i0,
        init_data1_index: i1,
        input_text: Vec::new(),
        is_first_choice: true,
        seeking_index: 0,
    };
    proof {
        assert(g@ =~~= init_view(i0 as int, i1 as int));
    }
    g
}

/// A fresh playthrough over two distinct random phrases of the master
/// list, as the game screen sets itself up.
pub fn start_game() -> (g: Game)
    ensures
        g@.wf(),
        g@.from_phrase_list(),
        exists|i0: int, i1: int|
            0 <= i0 < PHRASE_COUNT && 0 <= i1 < PHRASE_COUNT && i0 != i1 && g@ == init_view(i0, i1),
{
    let i0 = rand_below(PHRASE_COUNT);
    // a uniform draw over the indices other than i0
    let mut i1 = rand_below(PHRASE_COUNT - 1);
    if i1 >= i0 {
        i1 += 1;
    }
    let g = new_game(i0, i1);
    proof {
        assert(0 <= i0 < PHRASE_COUNT && 0 <= i1 < PHRASE_COUNT && i0 != i1 && g@ == init_view(
            i0 as int,
            i1 as int,
        ));
    }
    g
}

/// Appends the untypable characters of `data` from `start` on to `input`
/// and returns the position of the next typable character.
fn advance_past_untypable(data: &Vec<char>, input: &mut Vec<char>, start: usize) -> (j: usize)
    requires
        phrase_ok(data@),
        start < data@.len(),
    ensures
        j == next_inputable(data@, start as int),
        j < data@.len(),
        final(input)@ == old(input)@ + data@.subrange(start as int, j as int),
{
    proof {
        lemma_next_inputable(data@, start as int);
    }
    let ghost target = next_inputable(data@, start as int);
    let n = data.len();
    let mut j = start;
    let mut c = data[j];
    proof {
        assert(input@ =~= input@ + data@.subrange(start as int, start as int));
    }
    while !is_inputable_char(c)
        invariant
            phrase_ok(data@),
            start <= j <= target,
            n == data@.len(),
            target < n,
            target == next_inputable(data@, j as int),
            c == data@[j as int],
            is_inputable(data@[target]),
            input@ == old(input)@ + data@.subrange(start as int, j as int),
        decreases data@.len() - j,
    {
        proof {
            assert(!is_inputable(data@[j as int]));
            assert(j < target);
        }
        input.push(c);
        proof {
            assert(input@ =~= old(input)@ + data@.subrange(start as int, j + 1 as int));
        }
        j += 1;
        c = data[j];
    }
    proof {
        assert(j == target);
    }
    j
}

/// One resolution tick with the tick's random draws handed in: the pending
/// guess, if it matches a displayed choice, is recorded and judged, the
/// game advances unless the outcome turned `Fine`, and the mailbox is
/// cleared.  The whole transition equals [`step`] on the abstract state.
pub fn resolve_choice(game: &mut Game, rand_letter: char, rand_slot: usize, rand_letter2: char)
    requires
        old(game)@.wf(),
        rand_ok(rand_letter, rand_slot as int, rand_letter2),
        old(game).seeking_index < usize::MAX,
    ensures
        final(game)@ == step(old(game)@, rand_letter, rand_slot as int, rand_letter2),
        final(game)@.wf(),
{
    proof {
        lemma_step_wf(old(game)@, rand_letter, rand_slot as int, rand_letter2);
    }
    if game.info_type == InfoType::Fine {
        game.chosen_char = CHAR_ENTRY;
        proof {
            assert(game@ =~~= step(old(game)@, rand_letter, rand_slot as int, rand_letter2));
        }
        return;
    }
    let c = game.chosen_char;
    if c != CHAR_ENTRY && (c == game.choices[0] || c == game.choices[1]) {
        game.input_text.push(c);
        if game.is_first_choice {
            let idx: usize = if c == game.choices[0] {
                0
            } else {
                1
            };
            game.active_choice_index = idx;
            game.active_data_index = idx;
            game.active_data_global_index = if idx == 0 {
                game.init_data0_index
            } else {
                game.init_data1_index
            };
            game.active_data_len = game.datas[idx].len();
            game.is_first_choice = false;
        }
        let ghost g1 = old(game)@.recorded();
        proof {
            assert(game@ =~~= GameView { chosen_char: c, ..g1 });
        }
        if c != game.choices[game.active_choice_index] {
            game.info_type = InfoType::Neverending;
        }
        if game.seeking_index + 1 == game.active_data_len && game.info_type == InfoType::Open {
            game.info_type = InfoType::Fine;
        }
        if game.info_type == InfoType::Neverending && game.seeking_index >= 10 {
            game.info_type = InfoType::Tedious;
        }
        proof {
            assert(game.info_type == g1.judged_info());
        }
        let ghost g2 = GameView { info_type: g1.judged_info(), ..g1 };
        if game.info_type == InfoType::Fine {
            game.chosen_char = CHAR_ENTRY;
            proof {
                assert(game@ =~~= step(old(game)@, rand_letter, rand_slot as int, rand_letter2));
            }
            return;
        }
        game.seeking_index = game.seeking_index + 1;
        let other: usize = 1 - rand_slot;
        game.choices[rand_slot] = rand_letter;
        if game.info_type != InfoType::Open {
            game.choices[other] = rand_letter2;
        } else {
            let ai = game.active_data_index;
            let data = &game.datas[ai];
            let ghost dv = data@;
            proof {
                // the run is unblemished and did not land on the last
                // character, so the next position is inside the word
                assert(game.seeking_index < game.active_data_len);
            }
            let j = advance_past_untypable(data, &mut game.input_text, game.seeking_index);
            game.seeking_index = j;
            game.choices[other] = to_lowercase(game.datas[ai][j]);
            game.active_choice_index = other;
        }
        proof {
            assert(game@ =~~= g2.advanced(rand_letter, rand_slot as int, rand_letter2).with_chosen(
                c,
            ));
        }
    }
    game.chosen_char = CHAR_ENTRY;
    proof {
        assert(game@ =~~= step(old(game)@, rand_letter, rand_slot as int, rand_letter2));
    }
}

/// One resolution tick as the game screen runs it: the tick's two chaff
/// letters and the slot they land in are drawn at random, and the pending
/// guess is resolved by [`resolve_choice`].  Whatever was drawn, the
/// transition is a [`step`], the mailbox ends cleared, a `Fine` outcome is
/// final, and a fixed active word stays fixed.
pub fn handle_choice(game: &mut Game)
    requires
        old(game)@.wf(),
        old(game).seeking_index < usize::MAX,
    ensures
        final(game)@.wf(),
        exists|rl: char, rs: int, rl2: char|
            rand_ok(rl, rs, rl2) && final(game)@ == step(old(game)@, rl, rs, rl2),
        final(game).chosen_char == CHAR_ENTRY,
        old(game).info_type == InfoType::Fine ==> final(game)@ == old(game)@.with_chosen(
            CHAR_ENTRY,
        ),
        final(game)@.datas == old(game)@.datas,
        final(game).init_data0_index == old(game).init_data0_index,
        final(game).init_data1_index == old(game).init_data1_index,
        !old(game).is_first_choice ==> {
            &&& !final(game).is_first_choice
            &&& final(game).active_data_index == old(game).active_data_index
            &&& final(game).active_data_global_index == old(game).active_data_global_index
            &&& final(game).active_data_len == old(game).active_data_len
        },
{
    let rl = random_letter();
    let rs = rand_below(2);
    let rl2 = random_letter();
    resolve_choice(game, rl, rs, rl2);
    proof {
        lemma_active_word_fixed(old(game)@, rl, rs as int, rl2);
        assert(rand_ok(rl, rs as int, rl2) && game@ == step(old(game)@, rl, rs as int, rl2));
    }
}

/// A key of interest to the game: the letter and digit keys that map to a
/// guess, the Enter and Escape keys, and `Other` for any further key.
#[derive(Clone, Copy, Debug, PartialEq, Eq, Structural)]
pub enum Key {
    A,
    B,
    C,
    D,
    E,
    F,
    G,
    H,
    I,
    J,
    K,
    L,
    M,
    N,
    O,
    P,
    Q,
    R,
    S,
    T,
    U,
    V,
    W,
    X,
    Y,
    Z,
    Key0,
    Key1,
    Key2,
    Key3,
    Key4,
    Key5,
    Key6,
    Key7,
    Key8,
    Key9,
    Return,
    Escape,
    Other,
}

/// The guess character a key maps to, if any.
pub open spec fn spec_key_char(k: Key) -> Option<char> {
    match k {
        Key::A => Some('a'),
        Key::B => Some('b'),
        Key::C => Some('c'),
        Key::D => Some('d'),
        Key::E => Some('e'),
        Key::F => Some('f'),
        Key::G => Some('g'),
        Key::H => Some('h'),
        Key::I => Some('i'),
        Key::J => Some('j'),
        Key::K => Some('k'),
        Key::L => Some('l'),
        Key::M => Some('m'),
        Key::N => Some('n'),
        Key::O => Some('o'),
        Key::P => Some('p'),
        Key::Q => Some('q'),
        Key::R => Some('r'),
        Key::S => Some('s'),
        Key::T => Some('t'),
        Key::U => Some('u'),
        Key::V => Some('v'),
        Key::W => Some('w'),
        Key::X => Some('x'),
        Key::Y => Some('y'),
        Key::Z => Some('z'),
        Key::Key0 => Some('0'),
        Key::Key1 => Some('1'),
        Key::Key2 => Some('2'),
        Key::Key3 => Some('3'),
        Key::Key4 => Some('4'),
        Key::Key5 => Some('5'),
        Key::Key6 => Some('6'),
        Key::Key7 => Some('7'),
        Key::Key8 => Some('8'),
        Key::Key9 => Some('9'),
        Key::Return => None,
        Key::Escape => None,
        Key::Other => None,
    }
}

/// The guess character a key maps to, if any.
#[verifier::when_used_as_spec(spec_key_char)]
pub fn key_char(k: Key) -> (r: Option<char>)
    ensures
        r == spec_key_char(k),
{
    match k {
        Key::A => Some('a'),
        Key::B => Some('b'),
        Key::C => Some('c'),
        Key::D => Some('d'),
        Key::E => Some('e'),
        Key::F => Some('f'),
        Key::G => Some('g'),
        Key::H => Some('h'),
        Key::I => Some('i'),
        Key::J => Some('j'),
        Key::K => Some('k'),
        Key::L => Some('l'),
        Key::M => Some('m'),
        Key::N => Some('n'),
        Key::O => Some('o'),
        Key::P => Some('p'),
        Key::Q => Some('q'),
        Key::R => Some('r'),
        Key::S => Some('s'),
        Key::T => Some('t'),
        Key::U => Some('u'),
        Key::V => Some('v'),
        Key::W => Some('w'),
        Key::X => Some('x'),
        Key::Y => Some('y'),
        Key::Z => Some('z'),
        Key::Key0 => Some('0'),
        Key::Key1 => Some('1'),
        Key::Key2 => Some('2'),
        Key::Key3 => Some('3'),
        Key::Key4 => Some('4'),
        Key::Key5 => Some('5'),
        Key::Key6 => Some('6'),
        Key::Key7 => Some('7'),
        Key::Key8 => Some('8'),
        Key::Key9 => Some('9'),
        Key::Return => None,
        Key::Escape => None,
        Key::Other => None,
    }
}

/// The pending guess after the released keys of one tick are folded over
/// `init`: the last key that maps to a character wins.
pub open spec fn chosen_after_keys(init: char, keys: Seq<Key>) -> char
    decreases keys.len(),
{
    if keys.len() == 0 {
        init
    } else {
        match spec_key_char(keys.last()) {
            Some(c) => c,
            None => chosen_after_keys(init, keys.drop_last()),
        }
    }
}

/// The pending guess after the button clicks of one tick: every click
/// chooses the letter displayed on that button, so the last click wins.
pub open spec fn chosen_after_clicks(init: char, clicks: Seq<usize>, choices: Seq<char>) -> char {
    if clicks.len() == 0 {
        init
    } else {
        choices[clicks.last() as int]
    }
}

/// One input tick of the game screen.  `events` are the keys released this
/// tick, in order; `clicks` are the choice buttons clicked this tick (0 or
/// 1), in order.  On a `Fine` outcome any released key leaves for the
/// ending screen; otherwise a released Escape leaves for the splash
/// screen; otherwise the released keys and the clicks are resolved into at
/// most one pending guess, the last one winning.
pub fn handle_input(game: &mut Game, events: &Vec<Key>, clicks: &Vec<usize>) -> (t: Option<
    GameState,
>)
    requires
        old(game)@.wf(),
        forall|i: int| 0 <= i < clicks@.len() ==> clicks@[i] < 2,
    ensures
        final(game)@.wf(),
        ({
            let fine_exit = old(game).info_type == InfoType::Fine && events@.len() > 0;
            let to_splash = !fine_exit && events@.contains(Key::Escape);
            &&& fine_exit ==> t == Some(GameState::Fine) && *final(game) == *old(game)
            &&& to_splash ==> t == Some(GameState::Splash) && *final(game) == *old(game)
            &&& !fine_exit && !to_splash ==> {
                &&& t is None
                &&& final(game)@ == old(game)@.with_chosen(
                    chosen_after_clicks(
                        chosen_after_keys(old(game).chosen_char, events@),
                        clicks@,
                        old(game)@.choices,
                    ),
                )
            }
        }),
{
    if game.info_type == InfoType::Fine && events.len() > 0 {
        return Some(GameState::Fine);
    }
    let mut i: usize = 0;
    while i < events.len()
        invariant
            i <= events@.len(),
            forall|k: int| 0 <= k < i ==> events@[k] != Key::Escape,
            *game == *old(game),
            old(game)@.wf(),
            !(old(game).info_type == InfoType::Fine && events@.len() > 0),
        decreases events@.len() - i,
    {
        if events[i] == Key::Escape {
            proof {
                assert(events@.contains(Key::Escape));
            }
            return Some(GameState::Splash);
        }
        i += 1;
    }
    proof {
        assert(!events@.contains(Key::Escape));
    }
    let mut cur = game.chosen_char;
    let mut j: usize = 0;
    while j < events.len()
        invariant
            j <= events@.len(),
            cur == chosen_after_keys(old(game).chosen_char, events@.take(j as int)),
            *game == *old(game),
            old(game)@.wf(),
        decreases events@.len() - j,
    {
        match key_char(events[j]) {
            Some(c) => {
                cur = c;
            },
            _ => {},
        }
        proof {
            let pre = events@.take(j as int);
            let post = events@.take(j + 1 as int);
            assert(post.drop_last() =~= pre);
            assert(post.last() == events@[j as int]);
        }
        j += 1;
    }
    proof {
        assert(events@.take(events@.len() as int) =~= events@);
    }
    let mut m: usize = 0;
    while m < clicks.len()
        invariant
            m <= clicks@.len(),
            old(game)@.wf(),
            *game == *old(game),
            forall|i: int| 0 <= i < clicks@.len() ==> clicks@[i] < 2,
            m > 0 ==> cur == old(game)@.choices[clicks@[m - 1] as int],
            m == 0 ==> cur == chosen_after_keys(old(game).chosen_char, events@),
        decreases clicks@.len() - m,
    {
        cur = game.choices[clicks[m]];
        m += 1;
    }
    game.chosen_char = cur;
    proof {
        assert(game@ =~~= old(game)@.with_chosen(
            chosen_after_clicks(
                chosen_after_keys(old(game).chosen_char, events@),
                clicks@,
                old(game)@.choices,
            ),
        ));
    }
    None
}

/// The status message the game screen shows for each outcome.
pub open spec fn spec_info_message(info: InfoType) -> Seq<char> {
    match info {
        InfoType::Fine => "Great. You have revealed the truth.\nPress any key to continue."@,
        InfoType::Tedious => "Wait...\nDo you think you've pressed\ntoo many letters?\nTry press Esc..."@,
        _ => "Press one of the following letter\nthen you might find the truth."@,
    }
}

/// The status message the game screen shows: a win message on `Fine`, a
/// warning on `Tedious`, and the default prompt otherwise.
pub fn info_message(info: &InfoType) -> (s: &'static str)
    ensures
        s@ == spec_info_message(*info),
{
    match info {
        InfoType::Fine => "Great. You have revealed the truth.\nPress any key to continue.",
        InfoType::Tedious => "Wait...\nDo you think you've pressed\ntoo many letters?\nTry press Esc...",
        _ => "Press one of the following letter\nthen you might find the truth.",
    }
}

} // verus!
