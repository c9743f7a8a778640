use term_dashboard::app::App;
use term_dashboard::key::Key;
use term_dashboard::mode::InputMode;
use term_dashboard::text::{insert_char, padded, remove_char};

fn buffer(text: &str, cursor: usize) -> App {
    let mut app = App::default();
    app.input_mode = InputMode::Editing;
    app.input = String::from(text);
    app.cursor_position = cursor;
    assert!(app.is_well_formed());
    app
}

#[test]
fn insert_at_the_end_advances_the_cursor() {
    let mut app = buffer("", 0);
    app.enter_char('a');
    assert_eq!(app.input, "a");
    assert_eq!(app.cursor_position, 1);
    app.enter_char('b');
    assert_eq!(app.input, "ab");
    assert_eq!(app.cursor_position, 2);
}

#[test]
fn insert_in_the_middle_and_at_the_front() {
    let mut app = buffer("ac", 1);
    app.enter_char('b');
    assert_eq!(app.input, "abc");
    assert_eq!(app.cursor_position, 2);

    let mut app = buffer("bc", 0);
    app.enter_char('a');
    assert_eq!(app.input, "abc");
    assert_eq!(app.cursor_position, 1);
}

#[test]
fn backspace_deletes_left_of_the_cursor() {
    let mut app = buffer("abc", 2);
    app.delete_char();
    assert_eq!(app.input, "ac");
    assert_eq!(app.cursor_position, 1);
    app.delete_char();
    assert_eq!(app.input, "c");
    assert_eq!(app.cursor_position, 0);
}

#[test]
fn backspace_at_the_start_changes_nothing() {
    let mut app = buffer("abc", 0);
    app.delete_char();
    assert_eq!(app.input, "abc");
    assert_eq!(app.cursor_position, 0);
    app.handle_key(Key::Backspace);
    assert_eq!(app.input, "abc");
    assert_eq!(app.cursor_position, 0);
}

#[test]
fn backspace_at_the_end_deletes_the_last_character() {
    let mut app = buffer("abc", 3);
    app.delete_char();
    assert_eq!(app.input, "ab");
    assert_eq!(app.cursor_position, 2);
}

#[test]
fn cursor_moves_saturate_at_both_ends() {
    let mut app = buffer("ab", 1);
    app.move_cursor_left();
    assert_eq!(app.cursor_position, 0);
    app.move_cursor_left();
    assert_eq!(app.cursor_position, 0);
    app.move_cursor_right();
    app.move_cursor_right();
    assert_eq!(app.cursor_position, 2);
    app.move_cursor_right();
    assert_eq!(app.cursor_position, 2);
    assert_eq!(app.input, "ab");
}

#[test]
fn cursor_keys_move_the_cursor_while_editing() {
    let mut app = buffer("ab", 2);
    app.handle_key(Key::Left);
    assert_eq!(app.cursor_position, 1);
    app.handle_key(Key::Right);
    assert_eq!(app.cursor_position, 2);
    app.handle_key(Key::Right);
    assert_eq!(app.cursor_position, 2);
}

#[test]
fn clamp_cursor_limits_to_the_length() {
    let app = buffer("abc", 0);
    assert_eq!(app.clamp_cursor(0), 0);
    assert_eq!(app.clamp_cursor(2), 2);
    assert_eq!(app.clamp_cursor(3), 3);
    assert_eq!(app.clamp_cursor(4), 3);
    assert_eq!(app.clamp_cursor(usize::MAX), 3);
}

#[test]
fn the_cursor_counts_characters_not_bytes() {
    let mut app = buffer("", 0);
    app.enter_char('é');
    app.enter_char('→');
    app.enter_char('x');
    assert_eq!(app.input, "é→x");
    assert_eq!(app.cursor_position, 3);
    app.move_cursor_left();
    app.delete_char();
    assert_eq!(app.input, "éx");
    assert_eq!(app.cursor_position, 1);
    app.enter_char('ß');
    assert_eq!(app.input, "éßx");
    assert_eq!(app.cursor_position, 2);
    assert_eq!(app.clamp_cursor(9), 3);
}

#[test]
fn moves_bring_a_stray_cursor_back_into_the_text() {
    let mut app = App::default();
    app.input = String::from("ab");
    app.cursor_position = 7;
    assert!(!app.is_well_formed());
    app.move_cursor_left();
    assert_eq!(app.cursor_position, 2);
    assert!(app.is_well_formed());

    app.cursor_position = 7;
    app.move_cursor_right();
    assert_eq!(app.cursor_position, 2);

    app.cursor_position = 7;
    app.delete_char();
    assert_eq!(app.input, "ab");
    assert_eq!(app.cursor_position, 2);
    assert!(app.is_well_formed());
}

#[test]
fn is_well_formed_tells_whether_the_cursor_is_in_the_text() {
    let mut app = App::default();
    assert!(app.is_well_formed());
    app.input = String::from("éé");
    app.cursor_position = 2;
    assert!(app.is_well_formed());
    app.cursor_position = 3;
    assert!(!app.is_well_formed());
}

#[test]
fn insert_char_puts_the_character_at_the_index() {
    assert_eq!(insert_char("ac", 1, 'b'), "abc");
    assert_eq!(insert_char("", 0, 'x'), "x");
    assert_eq!(insert_char("ab", 2, 'c'), "abc");
    assert_eq!(insert_char("bc", 0, 'a'), "abc");
    assert_eq!(insert_char("é→", 1, 'x'), "éx→");
}

#[test]
fn remove_char_takes_the_character_at_the_index() {
    assert_eq!(remove_char("abc", 0), "bc");
    assert_eq!(remove_char("abc", 1), "ac");
    assert_eq!(remove_char("abc", 2), "ab");
    assert_eq!(remove_char("x", 0), "");
    assert_eq!(remove_char("é→x", 1), "éx");
}

#[test]
fn padded_puts_a_blank_on_either_side() {
    assert_eq!(padded("Quit"), " Quit ");
    assert_eq!(padded(""), "  ");
}
