use ptrui::app::{
    apply_translation_result, maybe_translate, nativeize_both, nativize_requests,
    schedule_translation, ActiveSide, App,
};
use ptrui::keys::{KeyCode, KeyEvent};
use ptrui::textarea::{set_textarea_text, textarea_text};

#[test]
fn no_translation_before_quiet_period() {
    let mut app = App::new();
    set_textarea_text(&mut app.input, "hello");
    schedule_translation(&mut app, 1000);
    let req = maybe_translate(&mut app, 1300);
    assert!(req.is_none());
    assert!(app.pending_translation);
}

#[test]
fn no_translation_when_nothing_pending() {
    let mut app = App::new();
    set_textarea_text(&mut app.input, "hello");
    let req = maybe_translate(&mut app, 10_000);
    assert!(req.is_none());
}

#[test]
fn firing_snapshots_active_pane_and_direction() {
    let mut app = App::new();
    set_textarea_text(&mut app.input, "hello");
    schedule_translation(&mut app, 1000);
    let req = maybe_translate(&mut app, 1400).expect("quiet period elapsed");
    assert_eq!(req.text, "hello");
    assert_eq!(req.source_lang, "EN");
    assert_eq!(req.target_lang, "ES");
    assert_eq!(req.target, ActiveSide::Right);
    assert!(!app.pending_translation);
}

#[test]
fn whitespace_source_clears_target_without_calling_translator() {
    let mut app = App::new();
    set_textarea_text(&mut app.input, "   \n\t");
    set_textarea_text(&mut app.output, "stale");
    schedule_translation(&mut app, 1000);
    let req = maybe_translate(&mut app, 2000);
    assert!(req.is_none(), "the translator must never be invoked");
    assert_eq!(textarea_text(&app.output), "");
    assert!(!app.pending_translation);
}

#[test]
fn switching_sides_changes_direction_on_next_firing() {
    let mut app = App::new();
    set_textarea_text(&mut app.input, "hello");
    set_textarea_text(&mut app.output, "hola");
    schedule_translation(&mut app, 0);
    // The side switch happens before the quiet period elapses.
    app.handle_key(KeyEvent::press(KeyCode::Tab), 100);
    let req = maybe_translate(&mut app, 500).expect("quiet period elapsed");
    assert_eq!(req.text, "hola");
    assert_eq!(req.source_lang, "ES");
    assert_eq!(req.target_lang, "EN");
    assert_eq!(req.target, ActiveSide::Left);
}

#[test]
fn success_overwrites_target_and_clears_error() {
    let mut app = App::new();
    set_textarea_text(&mut app.input, "hello");
    app.error = Some("old error".to_string());
    apply_translation_result(&mut app, ActiveSide::Right, Ok("hola".to_string()));
    assert_eq!(textarea_text(&app.output), "hola");
    assert_eq!(textarea_text(&app.input), "hello");
    assert!(app.error.is_none());
}

#[test]
fn failure_keeps_target_and_records_error() {
    let mut app = App::new();
    set_textarea_text(&mut app.input, "hello");
    set_textarea_text(&mut app.output, "hola");
    apply_translation_result(&mut app, ActiveSide::Right, Err("boom".to_string()));
    assert_eq!(textarea_text(&app.output), "hola");
    assert_eq!(app.error.as_deref(), Some("boom"));
}

#[test]
fn nativize_requests_skip_blank_sides() {
    let mut app = App::new();
    set_textarea_text(&mut app.input, "hello");
    let (left, right) = nativize_requests(&app);
    let left = left.expect("left pane holds text");
    assert_eq!(left.text, "hello");
    assert_eq!(left.source_lang, "EN");
    assert_eq!(left.target_lang, "ES");
    assert_eq!(left.target, ActiveSide::Right);
    assert!(right.is_none());
}

#[test]
fn nativize_both_translates_left_into_right() {
    let mut app = App::new();
    set_textarea_text(&mut app.input, "hello");
    schedule_translation(&mut app, 50);
    nativeize_both(&mut app, Some(Ok("hola".to_string())), None);
    assert_eq!(textarea_text(&app.output), "hola");
    assert_eq!(textarea_text(&app.input), "hello");
    assert!(app.error.is_none());
    assert!(!app.pending_translation);
}

#[test]
fn nativize_both_runs_both_directions() {
    let mut app = App::new();
    set_textarea_text(&mut app.input, "good morning");
    set_textarea_text(&mut app.output, "buenas noches");
    nativeize_both(
        &mut app,
        Some(Ok("buenos dias".to_string())),
        Some(Ok("good night".to_string())),
    );
    assert_eq!(textarea_text(&app.input), "good night");
    assert_eq!(textarea_text(&app.output), "buenos dias");
    assert!(app.error.is_none());
}

#[test]
fn nativize_failure_on_one_side_does_not_block_the_other() {
    let mut app = App::new();
    set_textarea_text(&mut app.input, "hello");
    set_textarea_text(&mut app.output, "hola");
    nativeize_both(
        &mut app,
        Some(Err("left failed".to_string())),
        Some(Ok("good day".to_string())),
    );
    // The right pane keeps its text; the left pane still gets its result.
    assert_eq!(textarea_text(&app.output), "hola");
    assert_eq!(textarea_text(&app.input), "good day");
    assert_eq!(app.error.as_deref(), Some("left failed"));
}

#[test]
fn nativize_reports_first_failure_when_both_fail() {
    let mut app = App::new();
    set_textarea_text(&mut app.input, "hello");
    set_textarea_text(&mut app.output, "hola");
    nativeize_both(
        &mut app,
        Some(Err("first".to_string())),
        Some(Err("second".to_string())),
    );
    assert_eq!(app.error.as_deref(), Some("first"));
}

#[test]
fn nativize_is_a_no_op_when_both_panes_are_blank() {
    let mut app = App::new();
    schedule_translation(&mut app, 10);
    nativeize_both(&mut app, None, None);
    assert!(app.pending_translation, "a blank nativize changes nothing");
    assert_eq!(textarea_text(&app.input), "");
    assert_eq!(textarea_text(&app.output), "");
}
