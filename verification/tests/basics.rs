use seeking::{
    enter_game, fine_message, info_message, is_inputable_char, key_char, phrase, phrase_chars,
    to_lowercase, GameState, GlobalData, InfoType, Key, PHRASE_COUNT, WISH_COUNT,
};

#[test]
fn inputable_letters_and_digits() {
    assert!(is_inputable_char('a'));
    assert!(is_inputable_char('z'));
    assert!(is_inputable_char('0'));
    assert!(is_inputable_char('9'));
    assert!(!is_inputable_char('A'));
    assert!(!is_inputable_char(' '));
    assert!(!is_inputable_char('?'));
    assert!(!is_inputable_char('.'));
}

#[test]
fn lowercase_maps_ascii() {
    assert_eq!(to_lowercase('A'), 'a');
    assert_eq!(to_lowercase('Z'), 'z');
    assert_eq!(to_lowercase('c'), 'c');
    assert_eq!(to_lowercase('5'), '5');
    assert_eq!(to_lowercase(' '), ' ');
}

#[test]
fn phrase_list_shape() {
    assert_eq!(PHRASE_COUNT, 20);
    assert_eq!(WISH_COUNT, 7);
    for i in 0..PHRASE_COUNT {
        let p = phrase(i);
        assert!(!p.is_empty());
        let chars: Vec<char> = p.chars().collect();
        assert!(is_inputable_char(*chars.last().unwrap()));
        assert_eq!(phrase_chars(i), chars);
    }
}

#[test]
fn fine_message_wish_phrasing() {
    assert_eq!(fine_message(0), "Wish you good luck.");
    assert_eq!(fine_message(3), "Wish you a calm mind.");
    assert_eq!(fine_message(6), "Wish you quiet nights.");
}

#[test]
fn fine_message_standalone_phrasing() {
    assert_eq!(fine_message(7), "the truth is near.");
    assert_eq!(fine_message(19), "echoes fade away.");
}

#[test]
fn info_messages_by_outcome() {
    assert_eq!(
        info_message(&InfoType::Fine),
        "Great. You have revealed the truth.\nPress any key to continue."
    );
    assert_eq!(
        info_message(&InfoType::Tedious),
        "Wait...\nDo you think you've pressed\ntoo many letters?\nTry press Esc..."
    );
    assert_eq!(
        info_message(&InfoType::Open),
        "Press one of the following letter\nthen you might find the truth."
    );
    assert_eq!(
        info_message(&InfoType::Neverending),
        "Press one of the following letter\nthen you might find the truth."
    );
}

#[test]
fn key_mapping() {
    assert_eq!(key_char(Key::A), Some('a'));
    assert_eq!(key_char(Key::Z), Some('z'));
    assert_eq!(key_char(Key::Key0), Some('0'));
    assert_eq!(key_char(Key::Key9), Some('9'));
    assert_eq!(key_char(Key::Return), None);
    assert_eq!(key_char(Key::Escape), None);
    assert_eq!(key_char(Key::Other), None);
}

#[test]
fn enter_advances_to_game() {
    assert_eq!(enter_game(true), Some(GameState::Game));
    assert_eq!(enter_game(false), None);
}

#[test]
fn global_data_starts_at_zero() {
    let gd = GlobalData::default();
    assert_eq!(gd.fine_index, 0);
}
