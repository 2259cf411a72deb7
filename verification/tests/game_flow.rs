use seeking::{
    fine_message, game_end, handle_choice, handle_input, new_game, resolve_choice, start_game,
    Game, GameState, GlobalData, InfoType, Key, CHAR_ENTRY, PHRASE_COUNT,
};

/// A fresh playthrough over two words given directly, as `new_game` builds
/// one over two phrases of the master list.
fn custom_game(w0: &str, w1: &str) -> Game {
    let d0: Vec<char> = w0.chars().collect();
    let d1: Vec<char> = w1.chars().collect();
    let c0 = d0[0].to_ascii_lowercase();
    let c1 = d1[0].to_ascii_lowercase();
    Game {
        active_choice_index: 0,
        active_data_index: 0,
        active_data_global_index: 0,
        active_data_len: 0,
        choices: vec![c0, c1],
        chosen_char: CHAR_ENTRY,
        datas: vec![d0, d1],
        info_type: InfoType::Open,
        init_data0_index: 0,
        init_data1_index: 1,
        input_text: Vec::new(),
        is_first_choice: true,
        seeking_index: 0,
    }
}

/// One tick guessing `c`, with the tick's random draws fixed: the random
/// letter `rl` lands in slot 0, so on an unblemished run the required
/// letter shows in slot 1.
fn tick(g: &mut Game, c: char, rl: char) {
    g.chosen_char = c;
    resolve_choice(g, rl, 0, rl);
}

#[test]
fn new_game_draws_from_list() {
    let g = new_game(0, 1);
    let want0: Vec<char> = "good luck".chars().collect();
    let want1: Vec<char> = "a merry heart".chars().collect();
    assert_eq!(g.datas, vec![want0, want1]);
    assert_eq!(g.choices, vec!['g', 'a']);
    assert!(g.is_first_choice);
    assert_eq!(g.info_type, InfoType::Open);
    assert_eq!(g.seeking_index, 0);
    assert_eq!(g.input_text, Vec::<char>::new());
    assert_eq!(g.chosen_char, CHAR_ENTRY);
}

#[test]
fn start_game_is_well_formed() {
    for _ in 0..50 {
        let g = start_game();
        assert!(g.init_data0_index < PHRASE_COUNT);
        assert!(g.init_data1_index < PHRASE_COUNT);
        assert_ne!(g.init_data0_index, g.init_data1_index);
        assert_eq!(g.choices[0], g.datas[0][0].to_ascii_lowercase());
        assert_eq!(g.choices[1], g.datas[1][0].to_ascii_lowercase());
        assert!(g.is_first_choice);
    }
}

#[test]
fn last_key_wins() {
    let mut g = custom_game("cat", "dog");
    let events = vec![Key::C, Key::X, Key::Return, Key::A];
    let t = handle_input(&mut g, &events, &Vec::new());
    assert_eq!(t, None);
    assert_eq!(g.chosen_char, 'a');
}

#[test]
fn click_overrides_keys() {
    let mut g = custom_game("cat", "dog");
    let events = vec![Key::X];
    let clicks = vec![1usize, 0usize];
    let t = handle_input(&mut g, &events, &clicks);
    assert_eq!(t, None);
    assert_eq!(g.chosen_char, 'c');
}

#[test]
fn no_input_leaves_mailbox() {
    let mut g = custom_game("cat", "dog");
    let t = handle_input(&mut g, &Vec::new(), &Vec::new());
    assert_eq!(t, None);
    assert_eq!(g.chosen_char, CHAR_ENTRY);
}

#[test]
fn escape_returns_to_splash() {
    let mut g = custom_game("cat", "dog");
    let events = vec![Key::A, Key::Escape, Key::B];
    let t = handle_input(&mut g, &events, &Vec::new());
    assert_eq!(t, Some(GameState::Splash));
    assert_eq!(g.chosen_char, CHAR_ENTRY);
}

#[test]
fn any_key_leaves_fine_screen() {
    let mut g = custom_game("cat", "dog");
    g.info_type = InfoType::Fine;
    g.is_first_choice = false;
    g.active_data_len = 3;
    g.seeking_index = 2;
    g.input_text = vec!['c', 'a', 't'];
    let events = vec![Key::Other];
    let t = handle_input(&mut g, &events, &Vec::new());
    assert_eq!(t, Some(GameState::Fine));
    assert_eq!(g.info_type, InfoType::Fine);
}

#[test]
fn clean_run_ends_fine_on_last_letter() {
    let mut g = custom_game("cat", "dog");
    tick(&mut g, 'c', 'x');
    assert_eq!(g.info_type, InfoType::Open);
    assert_eq!(g.active_data_index, 0);
    assert_eq!(g.choices[1], 'a');
    tick(&mut g, 'a', 'x');
    assert_eq!(g.info_type, InfoType::Open);
    assert_eq!(g.choices[1], 't');
    tick(&mut g, 't', 'x');
    assert_eq!(g.info_type, InfoType::Fine);
    assert_eq!(g.input_text, vec!['c', 'a', 't']);
    assert_eq!(g.chosen_char, CHAR_ENTRY);
}

#[test]
fn active_word_never_changes_once_fixed() {
    let mut g = custom_game("cat", "dog");
    tick(&mut g, 'c', 'x');
    assert!(!g.is_first_choice);
    assert_eq!(g.active_data_index, 0);
    assert_eq!(g.active_data_global_index, 0);
    assert_eq!(g.active_data_len, 3);
    for _ in 0..5 {
        let guess = g.choices[0];
        tick(&mut g, guess, 'x');
        assert!(!g.is_first_choice);
        assert_eq!(g.active_data_index, 0);
        assert_eq!(g.active_data_global_index, 0);
        assert_eq!(g.active_data_len, 3);
    }
}

#[test]
fn wrong_choice_turns_neverending() {
    let mut g = custom_game("cat", "dog");
    tick(&mut g, 'c', 'o');
    assert_eq!(g.info_type, InfoType::Open);
    // the choices now show the chaff letter 'o' and the required 'a'
    assert_eq!(g.choices, vec!['o', 'a']);
    tick(&mut g, 'o', 'p');
    assert_eq!(g.info_type, InfoType::Neverending);
    // and it remains so on further accepted guesses
    for _ in 0..3 {
        let guess = g.choices[0];
        tick(&mut g, guess, 'q');
        assert_eq!(g.info_type, InfoType::Neverending);
    }
}

#[test]
fn sustained_neverending_turns_tedious() {
    let mut g = custom_game("cat", "dog");
    tick(&mut g, 'c', 'o');
    tick(&mut g, 'o', 'p');
    assert_eq!(g.info_type, InfoType::Neverending);
    for _ in 0..10 {
        let guess = g.choices[0];
        tick(&mut g, guess, 'q');
    }
    assert_eq!(g.info_type, InfoType::Tedious);
}

#[test]
fn unmatched_guess_is_discarded() {
    let mut g = custom_game("cat", "dog");
    tick(&mut g, 'z', 'x');
    assert!(g.is_first_choice);
    assert_eq!(g.info_type, InfoType::Open);
    assert_eq!(g.seeking_index, 0);
    assert_eq!(g.input_text, Vec::<char>::new());
    assert_eq!(g.chosen_char, CHAR_ENTRY);
}

#[test]
fn untypable_characters_auto_append() {
    let mut g = custom_game("go on", "dog");
    tick(&mut g, 'g', 'x');
    tick(&mut g, 'o', 'x');
    // the space is appended on its own and the word advances to 'o'
    assert_eq!(g.input_text, vec!['g', 'o', ' ']);
    assert_eq!(g.seeking_index, 3);
    assert_eq!(g.choices[1], 'o');
    tick(&mut g, 'o', 'x');
    tick(&mut g, 'n', 'x');
    assert_eq!(g.info_type, InfoType::Fine);
    assert_eq!(g.input_text, vec!['g', 'o', ' ', 'o', 'n']);
}

#[test]
fn solved_word_round_trip() {
    // solve the phrase at master index 3 and return to the ending screen
    let mut g = new_game(3, 0);
    assert_eq!(g.choices[0], 'a');
    tick(&mut g, 'a', 'z');
    assert_eq!(g.active_data_global_index, 3);
    let mut guard = 0;
    while g.info_type != InfoType::Fine {
        let guess = g.choices[g.active_choice_index];
        tick(&mut g, guess, 'z');
        guard += 1;
        assert!(guard < 30);
    }
    let mut gd = GlobalData::default();
    game_end(&mut gd, &g);
    assert_eq!(gd.fine_index, 3);
    assert_eq!(fine_message(gd.fine_index), "Wish you a calm mind.");
}

#[test]
fn unsolved_game_records_nothing() {
    let mut g = custom_game("cat", "dog");
    tick(&mut g, 'c', 'o');
    tick(&mut g, 'o', 'p');
    let mut gd = GlobalData::default();
    gd.fine_index = 5;
    game_end(&mut gd, &g);
    assert_eq!(gd.fine_index, 5);
}

#[test]
fn tedious_never_turns_fine() {
    // a 12-letter word lets the match pointer sit on the last position
    // while the run is already Tedious
    let mut g = custom_game("abcdefghijkl", "zyx");
    tick(&mut g, 'a', 'q');
    assert_eq!(g.info_type, InfoType::Open);
    tick(&mut g, 'q', 'q');
    assert_eq!(g.info_type, InfoType::Neverending);
    for _ in 0..9 {
        tick(&mut g, 'q', 'q');
    }
    assert_eq!(g.info_type, InfoType::Tedious);
    assert_eq!(g.seeking_index, g.active_data_len - 1);
    // the guess matches the active slot at the word's last position,
    // yet a blemished run cannot end Fine
    let guess = g.choices[g.active_choice_index];
    tick(&mut g, guess, 'q');
    assert_eq!(g.info_type, InfoType::Tedious);
}

#[test]
fn single_letter_word_wins_at_once() {
    let mut g = custom_game("x", "dog");
    tick(&mut g, 'x', 'q');
    assert_eq!(g.info_type, InfoType::Fine);
    assert_eq!(g.input_text, vec!['x']);
    assert_eq!(g.active_data_index, 0);
}

#[test]
fn digits_are_guessable() {
    let mut g = custom_game("b2", "dog");
    tick(&mut g, 'b', 'q');
    assert_eq!(g.choices[1], '2');
    tick(&mut g, '2', 'q');
    assert_eq!(g.info_type, InfoType::Fine);
    assert_eq!(g.input_text, vec!['b', '2']);
}

#[test]
fn random_ticks_stay_well_formed() {
    for _ in 0..20 {
        let mut g = start_game();
        let first = g.choices[0];
        g.chosen_char = first;
        handle_choice(&mut g);
        assert_eq!(g.chosen_char, CHAR_ENTRY);
        assert!(!g.is_first_choice);
        for &c in g.choices.iter() {
            assert!(c.is_ascii_lowercase());
        }
    }
}
