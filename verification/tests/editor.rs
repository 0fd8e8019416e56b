use ptrui::app::{App, AppAction};
use ptrui::keys::{Input, Key, KeyCode, KeyEvent, KeyEventKind};
use ptrui::textarea::{set_textarea_text, textarea_text};
use ptrui::vim::Mode;

fn press(code: KeyCode) -> KeyEvent {
    KeyEvent::press(code)
}

fn type_word(app: &mut App, word: &str) {
    for c in word.chars() {
        app.handle_key(press(KeyCode::Char(c)), 0);
    }
}

#[test]
fn insert_then_escape_returns_to_normal() {
    let mut app = App::new();
    app.handle_key(press(KeyCode::Char('i')), 0);
    assert_eq!(app.active_mode(), Mode::Insert);
    type_word(&mut app, "abc");
    app.handle_key(press(KeyCode::Esc), 0);
    assert_eq!(app.active_mode(), Mode::Normal);
    assert_eq!(app.left_vim.pending, Input { key: Key::Null, ctrl: false, alt: false, shift: false });
}

#[test]
fn doubled_delete_removes_current_line() {
    let mut app = App::new();
    set_textarea_text(&mut app.input, "alpha\nbeta");
    app.handle_key(press(KeyCode::Char('d')), 0);
    assert_eq!(app.active_mode(), Mode::Operator('d'));
    app.handle_key(press(KeyCode::Char('d')), 0);
    assert_eq!(textarea_text(&app.input), "beta");
    assert_eq!(app.active_mode(), Mode::Normal);
}

#[test]
fn doubled_yank_leaves_content_unchanged() {
    let mut app = App::new();
    set_textarea_text(&mut app.input, "alpha\nbeta");
    app.handle_key(press(KeyCode::Char('y')), 0);
    assert_eq!(app.active_mode(), Mode::Operator('y'));
    app.handle_key(press(KeyCode::Char('y')), 0);
    assert_eq!(textarea_text(&app.input), "alpha\nbeta");
    assert_eq!(app.active_mode(), Mode::Normal);
}

#[test]
fn doubled_delete_then_paste_restores_line() {
    let mut app = App::new();
    set_textarea_text(&mut app.input, "alpha\nbeta");
    app.handle_key(press(KeyCode::Char('d')), 0);
    app.handle_key(press(KeyCode::Char('d')), 0);
    assert_eq!(textarea_text(&app.input), "beta");
    app.handle_key(press(KeyCode::Char('p')), 0);
    assert_eq!(textarea_text(&app.input), "alpha\nbeta");
}

#[test]
fn delete_to_line_end_clears_rest_of_line() {
    let mut app = App::new();
    set_textarea_text(&mut app.input, "hello world");
    app.handle_key(press(KeyCode::Char('D')), 0);
    assert_eq!(textarea_text(&app.input), "");
    assert_eq!(app.active_mode(), Mode::Normal);
}

#[test]
fn visual_mode_enters_and_cancels() {
    let mut app = App::new();
    set_textarea_text(&mut app.input, "hello");
    app.handle_key(press(KeyCode::Char('v')), 0);
    assert_eq!(app.active_mode(), Mode::Visual);
    app.handle_key(press(KeyCode::Esc), 0);
    assert_eq!(app.active_mode(), Mode::Normal);
    assert_eq!(textarea_text(&app.input), "hello");
}

#[test]
fn visual_delete_cuts_selection() {
    let mut app = App::new();
    set_textarea_text(&mut app.input, "hello");
    app.handle_key(press(KeyCode::Char('v')), 0);
    app.handle_key(press(KeyCode::Char('l')), 0);
    app.handle_key(press(KeyCode::Char('d')), 0);
    assert_eq!(textarea_text(&app.input), "llo");
    assert_eq!(app.active_mode(), Mode::Normal);
}

#[test]
fn change_operator_enters_insert() {
    let mut app = App::new();
    set_textarea_text(&mut app.input, "hello");
    app.handle_key(press(KeyCode::Char('c')), 0);
    assert_eq!(app.active_mode(), Mode::Operator('c'));
    app.handle_key(press(KeyCode::Char('c')), 0);
    assert_eq!(app.active_mode(), Mode::Insert);
    assert_eq!(textarea_text(&app.input), "");
}

#[test]
fn undo_restores_deleted_text() {
    let mut app = App::new();
    set_textarea_text(&mut app.input, "hello");
    app.handle_key(press(KeyCode::Char('x')), 0);
    assert_eq!(textarea_text(&app.input), "ello");
    app.handle_key(press(KeyCode::Char('u')), 0);
    assert_eq!(textarea_text(&app.input), "hello");
}

#[test]
fn two_key_go_to_top_needs_pending_key() {
    let mut app = App::new();
    set_textarea_text(&mut app.input, "one\ntwo");
    // A single 'g' only records a pending key and moves nothing.
    app.handle_key(press(KeyCode::Char('g')), 0);
    assert_eq!(app.active_mode(), Mode::Normal);
    assert_eq!(app.left_vim.pending.key, Key::Char('g'));
    // The second 'g' completes the sequence; the buffer text is untouched.
    app.handle_key(press(KeyCode::Char('g')), 0);
    assert_eq!(textarea_text(&app.input), "one\ntwo");
    assert!(!app.pending_translation);
}

#[test]
fn unrecognized_key_is_silently_ignored() {
    let mut app = App::new();
    set_textarea_text(&mut app.input, "hello");
    let action = app.handle_key(press(KeyCode::Char('z')), 0);
    assert_eq!(action, AppAction::Idle);
    assert_eq!(textarea_text(&app.input), "hello");
    assert_eq!(app.active_mode(), Mode::Normal);
    assert!(!app.pending_translation);
}

#[test]
fn motions_do_not_schedule_translation() {
    let mut app = App::new();
    set_textarea_text(&mut app.input, "hello world");
    for c in ['l', 'l', 'w', 'h', 'k', 'j', '$', '^', 'G'] {
        app.handle_key(press(KeyCode::Char(c)), 0);
    }
    assert_eq!(textarea_text(&app.input), "hello world");
    assert!(!app.pending_translation);
}

#[test]
fn non_press_events_are_ignored() {
    let mut app = App::new();
    let release = KeyEvent {
        code: KeyCode::Tab,
        ctrl: false,
        alt: false,
        shift: false,
        kind: KeyEventKind::Release,
    };
    let action = app.handle_key(release, 0);
    assert_eq!(action, AppAction::Idle);
    assert_eq!(app.active, ptrui::app::ActiveSide::Left);
}

#[test]
fn set_textarea_text_normalizes_line_endings() {
    let mut app = App::new();
    set_textarea_text(&mut app.input, "a\nb");
    assert_eq!(textarea_text(&app.input), "a\nb");
    set_textarea_text(&mut app.input, "a\n");
    assert_eq!(textarea_text(&app.input), "a");
    set_textarea_text(&mut app.input, "a\r\nb");
    assert_eq!(textarea_text(&app.input), "a\nb");
}
