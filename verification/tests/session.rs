use ptrui::app::{ActiveSide, App, AppAction};
use ptrui::keys::{KeyCode, KeyEvent, KeyEventKind};
use ptrui::textarea::{set_textarea_text, textarea_text};

fn press(code: KeyCode) -> KeyEvent {
    KeyEvent::press(code)
}

fn ctrl(c: char) -> KeyEvent {
    KeyEvent { code: KeyCode::Char(c), ctrl: true, alt: false, shift: false, kind: KeyEventKind::Press }
}

fn type_word(app: &mut App, word: &str) {
    for c in word.chars() {
        app.handle_key(press(KeyCode::Char(c)), 0);
    }
}

#[test]
fn app_tab_switches_active_side() {
    let mut app = App::new();
    assert_eq!(app.active, ActiveSide::Left);
    app.handle_key(press(KeyCode::Tab), 0);
    assert_eq!(app.active, ActiveSide::Right);
}

#[test]
fn app_ctrl_c_requests_quit() {
    let mut app = App::new();
    let action = app.handle_key(ctrl('c'), 0);
    assert_eq!(action, AppAction::Quit);
}

#[test]
fn app_ctrl_r_clears_active_side() {
    let mut app = App::new();
    set_textarea_text(&mut app.input, "hello");
    app.handle_key(ctrl('r'), 0);
    assert_eq!(textarea_text(&app.input), "");
    assert!(app.pending_translation);
}

#[test]
fn app_typing_schedules_translation_left_to_right() {
    let mut app = App::new();
    app.handle_key(press(KeyCode::Char('i')), 0);
    type_word(&mut app, "hello");
    assert_eq!(textarea_text(&app.input), "hello");
    assert!(app.pending_translation);
}

#[test]
fn app_typing_schedules_translation_right_to_left() {
    let mut app = App::new();
    app.handle_key(press(KeyCode::Tab), 0);
    app.handle_key(press(KeyCode::Char('i')), 0);
    type_word(&mut app, "hola");
    assert_eq!(textarea_text(&app.output), "hola");
    assert!(app.pending_translation);
}

#[test]
fn app_backspace_schedules_translation() {
    let mut app = App::new();
    app.handle_key(press(KeyCode::Char('i')), 0);
    type_word(&mut app, "hello");
    app.handle_key(press(KeyCode::Backspace), 0);
    assert_eq!(textarea_text(&app.input), "hell");
    assert!(app.pending_translation);
}

#[test]
fn main_tab_switches_active_side() {
    let mut app = App::new();
    assert_eq!(app.active, ActiveSide::Left);
    app.handle_key(press(KeyCode::Tab), 0);
    assert_eq!(app.active, ActiveSide::Right);
}

#[test]
fn main_ctrl_c_requests_quit() {
    let mut app = App::new();
    let action = app.handle_key(ctrl('c'), 0);
    assert_eq!(action, AppAction::Quit);
}

#[test]
fn main_ctrl_r_clears_active_side() {
    let mut app = App::new();
    set_textarea_text(&mut app.input, "hello");
    app.handle_key(ctrl('r'), 0);
    assert_eq!(textarea_text(&app.input), "");
    assert!(app.pending_translation);
}

#[test]
fn main_typing_schedules_translation_left_to_right() {
    let mut app = App::new();
    app.handle_key(press(KeyCode::Char('i')), 0);
    type_word(&mut app, "hello");
    assert_eq!(textarea_text(&app.input), "hello");
    assert!(app.pending_translation);
}

#[test]
fn main_typing_schedules_translation_right_to_left() {
    let mut app = App::new();
    app.handle_key(press(KeyCode::Tab), 0);
    app.handle_key(press(KeyCode::Char('i')), 0);
    type_word(&mut app, "hola");
    assert_eq!(textarea_text(&app.output), "hola");
    assert!(app.pending_translation);
}

#[test]
fn main_backspace_schedules_translation() {
    let mut app = App::new();
    app.handle_key(press(KeyCode::Char('i')), 0);
    type_word(&mut app, "hello");
    app.handle_key(press(KeyCode::Backspace), 0);
    assert_eq!(textarea_text(&app.input), "hell");
    assert!(app.pending_translation);
}
