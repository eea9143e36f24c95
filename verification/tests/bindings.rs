use shellwyze::action::Action;
use shellwyze::error::AppError;
use shellwyze::key::{KeyCode, KeyEvent};
use shellwyze::keymap::{parse_action_name, parse_bindings, parse_key_chord};

fn chars(s: &str) -> Vec<char> {
    s.chars().collect()
}

#[test]
fn chord_single_character_stands_for_itself() {
    assert_eq!(parse_key_chord("i"), Some(KeyEvent::plain(KeyCode::Char('i'))));
    assert_eq!(parse_key_chord("-"), Some(KeyEvent::plain(KeyCode::Char('-'))));
}

#[test]
fn chord_named_keys_parse() {
    assert_eq!(parse_key_chord("esc"), Some(KeyEvent::plain(KeyCode::Esc)));
    assert_eq!(parse_key_chord("enter"), Some(KeyEvent::plain(KeyCode::Enter)));
    assert_eq!(parse_key_chord("backspace"), Some(KeyEvent::plain(KeyCode::Backspace)));
    assert_eq!(parse_key_chord("up"), Some(KeyEvent::plain(KeyCode::Up)));
}

#[test]
fn chord_modifier_prefixes_parse_in_order() {
    assert_eq!(
        parse_key_chord("ctrl-c"),
        Some(KeyEvent { code: KeyCode::Char('c'), ctrl: true, alt: false })
    );
    assert_eq!(
        parse_key_chord("alt-x"),
        Some(KeyEvent { code: KeyCode::Char('x'), ctrl: false, alt: true })
    );
    assert_eq!(
        parse_key_chord("ctrl-alt-delete"),
        Some(KeyEvent { code: KeyCode::Delete, ctrl: true, alt: true })
    );
}

#[test]
fn malformed_chords_are_rejected() {
    assert_eq!(parse_key_chord(""), None);
    assert_eq!(parse_key_chord("ctl-c"), None);
    assert_eq!(parse_key_chord("escape"), None);
    assert_eq!(parse_key_chord("ctrl-"), None);
    assert_eq!(parse_key_chord("alt-ctrl-c"), None);
}

#[test]
fn action_names_parse() {
    assert_eq!(parse_action_name("quit"), Some(Action::Quit));
    assert_eq!(parse_action_name("enter_insert"), Some(Action::EnterInsert));
    assert_eq!(parse_action_name("clear_screen"), Some(Action::ClearScreen));
    assert_eq!(parse_action_name("tick"), Some(Action::Tick));
    assert_eq!(parse_action_name("explode"), None);
    assert_eq!(parse_action_name(""), None);
}

#[test]
fn well_formed_configuration_builds_the_table() {
    let pairs = vec![
        ("i".to_string(), "enter_insert".to_string()),
        ("q".to_string(), "quit".to_string()),
        ("ctrl-l".to_string(), "clear_screen".to_string()),
    ];
    let kb = parse_bindings(&pairs).expect("well-formed bindings");
    assert_eq!(kb.len(), 3);
    assert_eq!(kb.lookup(KeyEvent::plain(KeyCode::Char('q'))), Some(Action::Quit));
    assert_eq!(
        kb.lookup(KeyEvent { code: KeyCode::Char('l'), ctrl: true, alt: false }),
        Some(Action::ClearScreen)
    );
    assert_eq!(kb.lookup(KeyEvent::plain(KeyCode::Char('z'))), None);
}

#[test]
fn malformed_configuration_is_a_startup_error() {
    let pairs = vec![
        ("i".to_string(), "enter_insert".to_string()),
        ("escape".to_string(), "quit".to_string()),
    ];
    let err = parse_bindings(&pairs).expect_err("malformed chord");
    assert_eq!(err, AppError::Startup(chars("malformed key binding")));

    let pairs2 = vec![("i".to_string(), "launch".to_string())];
    assert!(parse_bindings(&pairs2).is_err());
}
