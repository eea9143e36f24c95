use shellwyze::conversation::{Conversation, Message, Role};
use shellwyze::input::InputBuffer;
use shellwyze::key::{KeyCode, KeyEvent};
use shellwyze::render::{cursor_column, input_width, render_line, transcript_lines};
use shellwyze::tui::{TermFlags, TerminalOp, Tui};

fn chars(s: &str) -> Vec<char> {
    s.chars().collect()
}

fn key(c: char) -> KeyEvent {
    KeyEvent::plain(KeyCode::Char(c))
}

fn cooked_flags() -> TermFlags {
    TermFlags {
        raw: false,
        alternate_screen: false,
        cursor_hidden: false,
        mouse_capture: false,
        bracketed_paste: false,
    }
}

fn apply(mut f: TermFlags, ops: &[TerminalOp]) -> TermFlags {
    for op in ops {
        match op {
            TerminalOp::EnableRaw => f.raw = true,
            TerminalOp::DisableRaw => f.raw = false,
            TerminalOp::EnterAlternateScreen => f.alternate_screen = true,
            TerminalOp::LeaveAlternateScreen => f.alternate_screen = false,
            TerminalOp::HideCursor => f.cursor_hidden = true,
            TerminalOp::ShowCursor => f.cursor_hidden = false,
            TerminalOp::EnableMouseCapture => f.mouse_capture = true,
            TerminalOp::DisableMouseCapture => f.mouse_capture = false,
            TerminalOp::EnableBracketedPaste => f.bracketed_paste = true,
            TerminalOp::DisableBracketedPaste => f.bracketed_paste = false,
        }
    }
    f
}

#[test]
fn editor_inserts_at_cursor_and_moves() {
    let mut b = InputBuffer::new();
    for c in "heLlo".chars() {
        b.handle_key(key(c));
    }
    assert_eq!(b.value(), chars("heLlo"));
    assert_eq!(b.cursor(), 5);
    b.handle_key(KeyEvent::plain(KeyCode::Left));
    b.handle_key(KeyEvent::plain(KeyCode::Left));
    b.handle_key(KeyEvent::plain(KeyCode::Left));
    b.handle_key(KeyEvent::plain(KeyCode::Backspace));
    assert_eq!(b.value(), chars("hLlo"));
    assert_eq!(b.cursor(), 1);
    b.handle_key(key('e'));
    assert_eq!(b.value(), chars("heLlo"));
    b.handle_key(KeyEvent::plain(KeyCode::Delete));
    assert_eq!(b.value(), chars("helo"));
    b.handle_key(KeyEvent::plain(KeyCode::End));
    assert_eq!(b.cursor(), 4);
    b.handle_key(KeyEvent::plain(KeyCode::Home));
    assert_eq!(b.cursor(), 0);
    // deleting before the start is a no-op
    b.handle_key(KeyEvent::plain(KeyCode::Backspace));
    assert_eq!(b.value(), chars("helo"));
}

#[test]
fn editor_ignores_modifier_chords() {
    let mut b = InputBuffer::new();
    b.handle_key(KeyEvent { code: KeyCode::Char('c'), ctrl: true, alt: false });
    assert_eq!(b.value(), chars(""));
    b.handle_key(KeyEvent { code: KeyCode::Char('c'), ctrl: false, alt: true });
    assert_eq!(b.value(), chars(""));
}

#[test]
fn visual_scroll_keeps_cursor_in_window() {
    let mut b = InputBuffer::new();
    for c in "0123456789".chars() {
        b.handle_key(key(c));
    }
    // cursor at 10; a window of 4 columns scrolls to 10 - 4 + 1
    assert_eq!(b.visual_scroll(4), 7);
    assert_eq!(b.visual_scroll(11), 0);
    assert_eq!(b.visual_scroll(10), 1);
    assert_eq!(b.visual_scroll(0), 10);
}

#[test]
fn transcript_line_shows_label_separator_text() {
    let m = Message::new(Role::User, chars("hello"));
    assert_eq!(render_line(&m), chars("User : hello"));
    let a = Message::new(Role::Assistant, chars("hi there"));
    assert_eq!(render_line(&a), chars("Assistant : hi there"));
    let s = Message::new(Role::System, chars(""));
    assert_eq!(render_line(&s), chars("System : "));
}

#[test]
fn transcript_lines_cover_whole_conversation() {
    let mut c = Conversation::new();
    c.push(Message::new(Role::User, chars("one")));
    c.push(Message::new(Role::Assistant, chars("two")));
    let lines = transcript_lines(&c);
    assert_eq!(lines.len(), 2);
    assert_eq!(lines[0], chars("User : one"));
    assert_eq!(lines[1], chars("Assistant : two"));
}

#[test]
fn input_box_width_keeps_borders_and_cursor_cell() {
    assert_eq!(input_width(80), 77);
    assert_eq!(input_width(3), 0);
    assert_eq!(input_width(2), 0);
    assert_eq!(input_width(0), 0);
}

#[test]
fn cursor_column_is_capped_at_the_right_border() {
    assert_eq!(cursor_column(0, 10, 3), 4);
    assert_eq!(cursor_column(0, 10, 20), 8);
    assert_eq!(cursor_column(5, 4, 0), 6);
    assert_eq!(cursor_column(5, 4, 99), 7);
}

#[test]
fn exit_twice_gives_the_same_terminal_state_as_once() {
    let mut t = Tui::new(true, true);
    let f0 = cooked_flags();
    let f1 = apply(f0, &t.enter());
    assert!(f1.raw && f1.alternate_screen && f1.cursor_hidden);
    let ops_once = t.exit();
    let after_once = apply(f1, &ops_once);
    let ops_twice = t.exit();
    assert!(ops_twice.is_empty());
    let after_twice = apply(after_once, &ops_twice);
    assert_eq!(after_once, after_twice);
    assert_eq!(after_once, f0);
}

#[test]
fn exit_sequence_reverses_enter_sequence() {
    let mut t = Tui::new(false, false);
    let enter_ops = t.enter();
    let exit_ops = t.exit();
    let mut reversed: Vec<TerminalOp> = Vec::new();
    for op in enter_ops.iter().rev() {
        reversed.push(match op {
            TerminalOp::EnableRaw => TerminalOp::DisableRaw,
            TerminalOp::EnterAlternateScreen => TerminalOp::LeaveAlternateScreen,
            TerminalOp::HideCursor => TerminalOp::ShowCursor,
            TerminalOp::EnableMouseCapture => TerminalOp::DisableMouseCapture,
            TerminalOp::EnableBracketedPaste => TerminalOp::DisableBracketedPaste,
            other => *other,
        });
    }
    assert_eq!(exit_ops, reversed);
}

#[test]
fn teardown_after_entry_restores_pre_entry_state_on_any_config() {
    for (mouse, paste) in [(false, false), (true, false), (false, true), (true, true)] {
        let mut t = Tui::new(mouse, paste);
        let f0 = cooked_flags();
        let f1 = apply(f0, &t.enter());
        // a crash between entry and exit runs the same teardown sequence
        let restored = apply(f1, &t.exit());
        assert_eq!(restored, f0);
    }
}

#[test]
fn entering_twice_asks_nothing_new() {
    let mut t = Tui::new(true, false);
    let first = t.enter();
    assert!(!first.is_empty());
    let second = t.enter();
    assert!(second.is_empty());
    assert!(t.entered);
}

#[test]
fn suspend_and_resume_hand_the_terminal_back_and_forth() {
    let mut t = Tui::new(false, true);
    let f0 = cooked_flags();
    let entered = apply(f0, &t.enter());
    let suspended = apply(entered, &t.suspend());
    assert_eq!(suspended, f0);
    assert!(!t.entered);
    let resumed = apply(suspended, &t.resume());
    assert_eq!(resumed, entered);
    assert!(t.entered);
}
