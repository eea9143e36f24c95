use shellwyze::action::Action;
use shellwyze::app::App;
use shellwyze::conversation::{Message, Role};
use shellwyze::error::AppError;
use shellwyze::event::Event;
use shellwyze::home::Home;
use shellwyze::key::{KeyCode, KeyEvent};
use shellwyze::keymap::KeyBindings;
use shellwyze::mode::Mode;

fn chars(s: &str) -> Vec<char> {
    s.chars().collect()
}

fn key(c: char) -> KeyEvent {
    KeyEvent::plain(KeyCode::Char(c))
}

fn app_with_insert_binding() -> App {
    let mut app = App::new();
    let mut bindings = KeyBindings::new();
    bindings.bind(key('i'), Action::EnterInsert);
    bindings.bind(key('q'), Action::Quit);
    app.home = Home::new().keymap(bindings);
    app
}

fn type_line(app: &mut App, line: &str) {
    for c in line.chars() {
        app.step(Event::Key(key(c)));
    }
}

#[test]
fn startup_enters_normal_mode_with_empty_conversation() {
    let app = App::new();
    assert_eq!(app.home.mode, Mode::Normal);
    assert_eq!(app.home.conversation.len(), 0);
    assert_eq!(app.home.input.value(), chars(""));
    assert!(!app.should_quit);
    assert!(app.last_error.is_none());
}

#[test]
fn unbound_keys_in_normal_mode_produce_no_action() {
    let mut home = Home::new();
    for c in ['x', 'y', 'z', '1', ' '] {
        let acts = home.handle_key_events(key(c));
        assert!(acts.is_empty());
        assert_eq!(home.mode, Mode::Normal);
    }
    let acts = home.handle_key_events(KeyEvent::plain(KeyCode::Esc));
    assert!(acts.is_empty());
    assert_eq!(home.mode, Mode::Normal);
    assert_eq!(home.conversation.len(), 0);
    assert_eq!(home.input.value(), chars(""));
}

#[test]
fn bound_key_in_normal_mode_emits_its_action() {
    let mut bindings = KeyBindings::new();
    bindings.bind(key('i'), Action::EnterInsert);
    let mut home = Home::new().keymap(bindings);
    let acts = home.handle_key_events(key('i'));
    assert_eq!(acts, vec![Action::EnterInsert]);
    // the mode itself changes only when the action is consumed
    assert_eq!(home.mode, Mode::Normal);
}

#[test]
fn keymap_lookup_returns_first_match() {
    let mut bindings = KeyBindings::new();
    bindings.bind(key('a'), Action::Quit);
    bindings.bind(key('a'), Action::Tick);
    assert_eq!(bindings.lookup(key('a')), Some(Action::Quit));
    assert_eq!(bindings.lookup(key('b')), None);
}

#[test]
fn submitting_clears_buffer_appends_user_entry_and_enters_processing() {
    let mut app = app_with_insert_binding();
    app.step(Event::Key(key('i')));
    assert_eq!(app.home.mode, Mode::Insert);
    type_line(&mut app, "hello");
    assert_eq!(app.home.input.value(), chars("hello"));
    app.step(Event::Key(KeyEvent::plain(KeyCode::Enter)));
    assert_eq!(app.home.input.value(), chars(""));
    assert_eq!(app.home.conversation.len(), 1);
    assert_eq!(app.home.conversation.history[0].role, Role::User);
    assert_eq!(app.home.conversation.history[0].content, chars("hello"));
    assert_eq!(app.home.mode, Mode::Processing);
    assert_eq!(app.take_pending_query(), Some(chars("hello")));
    assert_eq!(app.take_pending_query(), None);
}

#[test]
fn processing_mode_swallows_every_key() {
    let mut home = Home::new();
    home.update(Action::EnterProcessing);
    assert_eq!(home.mode, Mode::Processing);
    for k in [
        key('a'),
        KeyEvent::plain(KeyCode::Esc),
        KeyEvent::plain(KeyCode::Enter),
        KeyEvent::plain(KeyCode::Backspace),
    ] {
        let acts = home.handle_key_events(k);
        assert!(acts.is_empty());
        assert_eq!(home.mode, Mode::Processing);
    }
    assert_eq!(home.conversation.len(), 0);
    assert_eq!(home.input.value(), chars(""));
}

#[test]
fn remote_reply_is_appended_and_mode_returns_to_normal() {
    let mut app = app_with_insert_binding();
    app.step(Event::Key(key('i')));
    type_line(&mut app, "hello");
    app.step(Event::Key(KeyEvent::plain(KeyCode::Enter)));
    assert_eq!(app.home.mode, Mode::Processing);
    app.handle_remote_result(Ok(Message::new(Role::Assistant, chars("hi there"))));
    assert_eq!(app.home.conversation.len(), 2);
    assert_eq!(app.home.conversation.history[0].role, Role::User);
    assert_eq!(app.home.conversation.history[0].content, chars("hello"));
    assert_eq!(app.home.conversation.history[1].role, Role::Assistant);
    assert_eq!(app.home.conversation.history[1].content, chars("hi there"));
    assert_eq!(app.home.mode, Mode::Normal);
    assert!(app.last_error.is_none());
}

#[test]
fn remote_failure_leaves_conversation_unchanged_and_surfaces_error() {
    let mut app = app_with_insert_binding();
    app.step(Event::Key(key('i')));
    type_line(&mut app, "hello");
    app.step(Event::Key(KeyEvent::plain(KeyCode::Enter)));
    let before: Vec<Vec<char>> =
        app.home.conversation.history.iter().map(|m| m.content.clone()).collect();
    app.handle_remote_result(Err(AppError::Remote(chars("network error"))));
    let after: Vec<Vec<char>> =
        app.home.conversation.history.iter().map(|m| m.content.clone()).collect();
    assert_eq!(before, after);
    assert_eq!(app.last_error, Some(chars("network error")));
    assert_eq!(app.home.mode, Mode::Normal);
}

#[test]
fn resize_event_records_new_dimensions_and_forces_redraw() {
    let mut app = App::new();
    let r = app.step(Event::Resize(100, 40));
    assert_eq!(app.size, Some((100, 40)));
    assert!(r.needs_draw);
    let r2 = app.step(Event::Render);
    assert!(r2.needs_draw);
    assert_eq!(app.size, Some((100, 40)));
}

#[test]
fn quit_binding_arms_shutdown() {
    let mut app = app_with_insert_binding();
    assert!(!app.should_quit);
    app.step(Event::Key(key('q')));
    assert!(app.should_quit);
}

#[test]
fn tick_event_clears_recent_event_trace() {
    let mut app = App::new();
    app.step(Event::Key(key('x')));
    assert_eq!(app.home.last_events.len(), 1);
    app.step(Event::Tick);
    assert_eq!(app.home.last_events.len(), 0);
}

#[test]
fn escape_cancels_insert_mode_and_resets_buffer() {
    let mut app = app_with_insert_binding();
    app.step(Event::Key(key('i')));
    type_line(&mut app, "abc");
    assert_eq!(app.home.input.value(), chars("abc"));
    app.step(Event::Key(KeyEvent::plain(KeyCode::Esc)));
    assert_eq!(app.home.mode, Mode::Normal);
    assert_eq!(app.home.input.value(), chars(""));
    assert_eq!(app.home.conversation.len(), 0);
}

#[test]
fn error_event_is_recorded() {
    let mut app = App::new();
    app.step(Event::Error(chars("input stream failed")));
    assert_eq!(app.last_error, Some(chars("input stream failed")));
}

#[test]
fn update_action_transitions() {
    let mut home = Home::new();
    home.update(Action::EnterInsert);
    assert_eq!(home.mode, Mode::Insert);
    home.update(Action::EnterNormal);
    assert_eq!(home.mode, Mode::Normal);
    home.update(Action::EnterProcessing);
    assert_eq!(home.mode, Mode::Processing);
    home.update(Action::ExitProcessing);
    assert_eq!(home.mode, Mode::Normal);
    // unrecognized control actions are no-ops
    home.update(Action::Render);
    assert_eq!(home.mode, Mode::Normal);
    assert_eq!(home.conversation.len(), 0);
}

#[test]
fn send_query_action_appends_user_message() {
    let mut home = Home::new();
    home.update(Action::SendQuery(chars("direct")));
    assert_eq!(home.conversation.len(), 1);
    assert_eq!(home.conversation.history[0].role, Role::User);
    assert_eq!(home.conversation.history[0].content, chars("direct"));
}

#[test]
fn action_dup_preserves_value() {
    let a = Action::SendQuery(chars("abc"));
    assert_eq!(a.dup(), a);
    let b = Action::Resize(3, 4);
    assert_eq!(b.dup(), b);
    assert_eq!(Action::Quit.dup(), Action::Quit);
}

#[test]
fn channel_closed_error_has_fixed_message() {
    let e = AppError::ChannelClosed;
    assert_eq!(e.message(), chars("action channel closed"));
    let s = AppError::Startup(chars("missing credential"));
    assert_eq!(s.message(), chars("missing credential"));
}
