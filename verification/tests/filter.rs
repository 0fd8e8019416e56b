use ptrui::app::{ActiveSide, App, AppAction};
use ptrui::keys::{KeyCode, KeyEvent, KeyEventKind};
use ptrui::languages::{filtered_language_indices, find_language_index, fuzzy_score, languages};

fn press(code: KeyCode) -> KeyEvent {
    KeyEvent::press(code)
}

fn ctrl(c: char) -> KeyEvent {
    KeyEvent { code: KeyCode::Char(c), ctrl: true, alt: false, shift: false, kind: KeyEventKind::Press }
}

#[test]
fn catalog_has_thirteen_entries() {
    let langs = languages();
    assert_eq!(langs.len(), 13);
    assert_eq!(langs[0].name, "English");
    assert_eq!(langs[0].code, "EN");
    assert_eq!(langs[3].name, "German");
    assert_eq!(langs[3].code, "DE");
}

#[test]
fn find_language_index_ignores_case() {
    assert_eq!(find_language_index("EN"), Some(0));
    assert_eq!(find_language_index("en"), Some(0));
    assert_eq!(find_language_index("De"), Some(3));
    assert_eq!(find_language_index("xx"), None);
}

#[test]
fn fuzzy_scores_count_skipped_characters() {
    // 'g', 'e', 'r' are found in sequence at the very front of "german de".
    assert_eq!(fuzzy_score("ger", "german de"), Some(0));
    // 'g' is immediate; 'd' skips "erman " (six characters).
    assert_eq!(fuzzy_score("gd", "german de"), Some(6));
    // The query is lowercased before matching.
    assert_eq!(fuzzy_score("GER", "german de"), Some(0));
    // A character that never occurs after the previous match fails.
    assert_eq!(fuzzy_score("gg", "german de"), None);
    assert_eq!(fuzzy_score("xyz", "german de"), None);
    // An empty query matches with score zero.
    assert_eq!(fuzzy_score("", "german de"), Some(0));
}

#[test]
fn querying_ger_matches_german() {
    let indices = filtered_language_indices("ger");
    assert_eq!(indices, vec![3]);
}

#[test]
fn empty_query_returns_whole_catalog_in_order() {
    let indices = filtered_language_indices("");
    assert_eq!(indices, (0..13).collect::<Vec<usize>>());
    // A whitespace-only query counts as empty.
    let indices = filtered_language_indices("  ");
    assert_eq!(indices, (0..13).collect::<Vec<usize>>());
}

#[test]
fn results_sort_by_score_then_name() {
    // "an" matches several entries; German ("german de", skip 4) ranks by
    // score, and equal scores order alphabetically by display name.
    let indices = filtered_language_indices("an");
    let langs = languages();
    let mut last_score = None;
    for &i in &indices {
        let name_lower = langs[i].name.to_ascii_lowercase();
        let candidate = format!("{} {}", name_lower, langs[i].code.to_ascii_lowercase());
        let score = fuzzy_score("an", &candidate).expect("listed entries must match");
        if let Some(prev) = last_score {
            assert!(prev <= score, "scores must be ascending");
        }
        last_score = Some(score);
    }
    // And every unlisted entry must not match.
    for i in 0..13 {
        if !indices.contains(&i) {
            let candidate = format!(
                "{} {}",
                langs[i].name.to_ascii_lowercase(),
                langs[i].code.to_ascii_lowercase()
            );
            assert_eq!(fuzzy_score("an", &candidate), None);
        }
    }
}

#[test]
fn picker_enter_on_empty_results_is_a_no_op() {
    let mut app = App::new();
    app.handle_key(ctrl('h'), 0);
    assert!(app.picker.is_some());
    for c in "zzz".chars() {
        app.handle_key(press(KeyCode::Char(c)), 0);
    }
    let action = app.handle_key(press(KeyCode::Enter), 0);
    assert_eq!(action, AppAction::Idle);
    assert!(app.picker.is_none());
    assert_eq!(app.left_language, 0);
    assert_eq!(app.right_language, 1);
    assert!(!app.pending_translation);
}

#[test]
fn picker_escape_closes_without_committing() {
    let mut app = App::new();
    app.handle_key(ctrl('l'), 0);
    app.handle_key(press(KeyCode::Down), 0);
    app.handle_key(press(KeyCode::Esc), 0);
    assert!(app.picker.is_none());
    assert_eq!(app.right_language, 1);
    assert!(!app.pending_translation);
}

#[test]
fn picker_commit_selects_language_and_rearms() {
    let mut app = App::new();
    app.handle_key(ctrl('l'), 0);
    // Empty query lists the catalog in order; move down twice to French.
    app.handle_key(press(KeyCode::Down), 5);
    app.handle_key(press(KeyCode::Down), 5);
    let action = app.handle_key(press(KeyCode::Enter), 9);
    assert_eq!(action, AppAction::Idle);
    assert!(app.picker.is_none());
    assert_eq!(app.right_language, 2);
    assert_eq!(app.left_language, 0);
    assert!(app.pending_translation);
}

#[test]
fn picker_query_edits_reset_selection() {
    let mut app = App::new();
    app.handle_key(ctrl('h'), 0);
    app.handle_key(press(KeyCode::Down), 0);
    assert_eq!(app.picker.as_ref().unwrap().selected, 1);
    app.handle_key(press(KeyCode::Char('g')), 0);
    let p = app.picker.as_ref().unwrap();
    assert_eq!(p.query, "g");
    assert_eq!(p.selected, 0);
    app.handle_key(press(KeyCode::Char('e')), 0);
    app.handle_key(press(KeyCode::Backspace), 0);
    let p = app.picker.as_ref().unwrap();
    assert_eq!(p.query, "g");
    assert_eq!(p.selected, 0);
}

#[test]
fn picker_up_and_down_stay_in_bounds() {
    let mut app = App::new();
    app.handle_key(ctrl('h'), 0);
    app.handle_key(press(KeyCode::Up), 0);
    assert_eq!(app.picker.as_ref().unwrap().selected, 0);
    for _ in 0..20 {
        app.handle_key(press(KeyCode::Down), 0);
    }
    assert_eq!(app.picker.as_ref().unwrap().selected, 12);
}

#[test]
fn picker_commit_with_query_picks_best_match() {
    let mut app = App::new();
    app.handle_key(ctrl('h'), 0);
    for c in "ger".chars() {
        app.handle_key(press(KeyCode::Char(c)), 0);
    }
    app.handle_key(press(KeyCode::Enter), 3);
    assert!(app.picker.is_none());
    assert_eq!(app.left_language, 3);
    assert!(app.pending_translation);
}

#[test]
fn ctrl_backspace_opens_left_picker() {
    let mut app = App::new();
    let key = KeyEvent {
        code: KeyCode::Backspace,
        ctrl: true,
        alt: false,
        shift: false,
        kind: KeyEventKind::Press,
    };
    app.handle_key(key, 0);
    let p = app.picker.as_ref().unwrap();
    assert_eq!(p.side, ActiveSide::Left);
    assert_eq!(p.query, "");
    assert_eq!(p.selected, 0);
}
