use vstd::prelude::*;

use crate::keys::{input_nil, key_to_input, Input, KeyCode, KeyEvent, KeyEventKind};
use crate::languages::{catalog, find_language_index, filtered_language_indices, lang_matches,
    matched_count};
use crate::text::{is_blank, is_ctl, char_is_control, lower_char, lower_seq, str_eq};
use crate::textarea::{normalize_text, set_textarea_text, text_of, textarea_new, textarea_text,
    TextBuffer};
use crate::vim::{apply_transition, key_preserves_text, spec_transition, vim_wf, Mode, Transition,
    Vim};

verus! {

/// The quiet period after the last edit before a translation fires, in
/// milliseconds.
pub const TRANSLATION_DEBOUNCE_MS: u64 = 350;

/// Which pane currently accepts keyboard input.
#[derive(Clone, Copy, PartialEq, Eq, Structural, Debug)]
pub enum ActiveSide {
    Left,
    Right,
}

/// The other pane.
pub open spec fn other_side(s: ActiveSide) -> ActiveSide {
    match s {
        ActiveSide::Left => ActiveSide::Right,
        ActiveSide::Right => ActiveSide::Left,
    }
}

/// Toggle which pane is active.
pub fn toggle_side(s: ActiveSide) -> (r: ActiveSide)
    ensures
        r == other_side(s),
{
    match s {
        ActiveSide::Left => ActiveSide::Right,
        ActiveSide::Right => ActiveSide::Left,
    }
}

/// What the surrounding event loop should do after a key was handled.
#[derive(Clone, Copy, PartialEq, Eq, Structural, Debug)]
pub enum AppAction {
    Idle,
    Quit,
    NativeizeBoth,
}

/// The transient language-picker state: which pane's language it selects,
/// the incremental query, and the selected row of the filtered list.
pub struct LanguagePicker {
    pub side: ActiveSide,
    pub query: String,
    pub selected: usize,
}

/// The number of entries the picker lists for a query.
pub open spec fn result_len(q: Seq<char>) -> int {
    if is_blank(q) {
        catalog().len() as int
    } else {
        matched_count(q, catalog().len() as int)
    }
}

/// The whole session: two panes (buffer + key interpreter + language),
/// the active side, the debounce state, the last error, and the picker.
pub struct App {
    pub active: ActiveSide,
    pub input: TextBuffer,
    pub output: TextBuffer,
    pub left_vim: Vim,
    pub right_vim: Vim,
    pub left_language: usize,
    pub right_language: usize,
    pub pending_translation: bool,
    pub last_edit: Option<u64>,
    pub error: Option<String>,
    pub picker: Option<LanguagePicker>,
}

impl App {
    /// The key interpreter bound to a side.
    pub open spec fn vim_of(self, side: ActiveSide) -> Vim {
        match side {
            ActiveSide::Left => self.left_vim,
            ActiveSide::Right => self.right_vim,
        }
    }

    /// The buffer bound to a side.
    pub open spec fn buf_of(self, side: ActiveSide) -> TextBuffer {
        match side {
            ActiveSide::Left => self.input,
            ActiveSide::Right => self.output,
        }
    }

    /// The selected language index of a side.
    pub open spec fn lang_of(self, side: ActiveSide) -> usize {
        match side {
            ActiveSide::Left => self.left_language,
            ActiveSide::Right => self.right_language,
        }
    }

    /// Session invariant: operator modes carry a known operator, a
    /// translation is pending exactly when an edit time is recorded, the
    /// language indices lie in the catalog, and the picker's selection is in
    /// range for its query.
    pub open spec fn wf(self) -> bool {
        &&& vim_wf(self.left_vim)
        &&& vim_wf(self.right_vim)
        &&& (self.pending_translation <==> self.last_edit is Some)
        &&& (self.left_language as int) < catalog().len()
        &&& (self.right_language as int) < catalog().len()
        &&& match self.picker {
            Option::Some(p) => p.selected == 0 || (p.selected as int) < result_len(p.query@),
            Option::None => true,
        }
    }
}

/// Everything a picker keystroke leaves alone: panes, interpreters, and the
/// active side.
pub open spec fn same_core(pre: App, post: App) -> bool {
    &&& post.active == pre.active
    &&& post.input == pre.input
    &&& post.output == pre.output
    &&& post.left_vim == pre.left_vim
    &&& post.right_vim == pre.right_vim
}

/// Both language selections are unchanged.
pub open spec fn same_langs(pre: App, post: App) -> bool {
    &&& post.left_language == pre.left_language
    &&& post.right_language == pre.right_language
}

/// The debounce state and the last error are unchanged.
pub open spec fn same_schedule(pre: App, post: App) -> bool {
    &&& post.pending_translation == pre.pending_translation
    &&& post.last_edit == pre.last_edit
    &&& post.error == pre.error
}

/// A translation cycle was just re-armed at time `now`.
pub open spec fn is_scheduled(post: App, now: u64) -> bool {
    &&& post.pending_translation
    &&& post.last_edit == Option::Some(now)
    &&& post.error is None
}

/// The picker is open with exactly this state.
pub open spec fn picker_is(post: App, side: ActiveSide, query: Seq<char>, selected: usize) -> bool {
    match post.picker {
        Option::Some(p) => p.side == side && p.query@ == query && p.selected == selected,
        Option::None => false,
    }
}

/// A picker was just opened for `side`.
pub open spec fn opened_picker(pre: App, post: App, side: ActiveSide) -> bool {
    &&& same_core(pre, post)
    &&& same_langs(pre, post)
    &&& same_schedule(pre, post)
    &&& picker_is(post, side, Seq::empty(), 0)
}

/// What one keystroke does while the picker is open, relating the state
/// before (`pre`, with picker state `p`) to the state after (`post`) and the
/// returned action.
pub open spec fn picker_step_ok(
    pre: App,
    p: LanguagePicker,
    post: App,
    key: KeyEvent,
    now: u64,
    r: AppAction,
) -> bool {
    if key.code == KeyCode::Char('c') && key.ctrl {
        &&& post == pre
        &&& r == AppAction::Quit
    } else {
        &&& r == AppAction::Idle
        &&& match key.code {
            KeyCode::Esc => {
                &&& same_core(pre, post)
                &&& same_langs(pre, post)
                &&& same_schedule(pre, post)
                &&& post.picker is None
            },
            KeyCode::Enter => {
                &&& same_core(pre, post)
                &&& post.picker is None
                &&& if (p.selected as int) < result_len(p.query@) {
                    let x = if p.side == ActiveSide::Left {
                        post.left_language
                    } else {
                        post.right_language
                    };
                    &&& is_scheduled(post, now)
                    &&& (x as int) < catalog().len()
                    &&& (is_blank(p.query@) ==> x == p.selected)
                    &&& (!is_blank(p.query@) ==> lang_matches(p.query@, x as int))
                    &&& (p.side == ActiveSide::Left ==> post.right_language == pre.right_language)
                    &&& (p.side == ActiveSide::Right ==> post.left_language == pre.left_language)
                } else {
                    &&& same_langs(pre, post)
                    &&& same_schedule(pre, post)
                }
            },
            KeyCode::Up => {
                &&& same_core(pre, post)
                &&& same_langs(pre, post)
                &&& same_schedule(pre, post)
                &&& picker_is(
                    post,
                    p.side,
                    p.query@,
                    if p.selected > 0 {
                        (p.selected - 1) as usize
                    } else {
                        0
                    },
                )
            },
            KeyCode::Down => {
                &&& same_core(pre, post)
                &&& same_langs(pre, post)
                &&& same_schedule(pre, post)
                &&& picker_is(
                    post,
                    p.side,
                    p.query@,
                    if (p.selected as int) + 1 < result_len(p.query@) {
                        (p.selected + 1) as usize
                    } else {
                        p.selected
                    },
                )
            },
            KeyCode::Backspace => {
                &&& same_core(pre, post)
                &&& same_langs(pre, post)
                &&& same_schedule(pre, post)
                &&& picker_is(
                    post,
                    p.side,
                    if p.query@.len() > 0 {
                        p.query@.drop_last()
                    } else {
                        p.query@
                    },
                    0,
                )
            },
            KeyCode::Char(c) => {
                &&& same_core(pre, post)
                &&& same_langs(pre, post)
                &&& same_schedule(pre, post)
                &&& if !is_ctl(c) && p.query@.len() < 32 {
                    picker_is(post, p.side, p.query@.push(c), 0)
                } else {
                    picker_is(post, p.side, p.query@, p.selected)
                }
            },
            _ => post == pre,
        }
    }
}

/// The active pane's key was handed to its interpreter: the interpreter
/// steps by the transition the key produces, the other pane is untouched,
/// and a translation is scheduled exactly when the text changed.
pub open spec fn vim_dispatch_ok(pre: App, post: App, key: KeyEvent, now: u64) -> bool {
    let side = pre.active;
    let input = key_to_input(key);
    let v = pre.vim_of(side);
    let t = spec_transition(v.mode, v.pending, input);
    &&& post.vim_of(side) == apply_transition(v, t)
    &&& post.vim_of(other_side(side)) == pre.vim_of(other_side(side))
    &&& post.buf_of(other_side(side)) == pre.buf_of(other_side(side))
    &&& post.active == pre.active
    &&& same_langs(pre, post)
    &&& post.picker == pre.picker
    &&& (key_preserves_text(v.mode, v.pending, input) ==> text_of(post.buf_of(side)) == text_of(
        pre.buf_of(side),
    ))
    &&& if text_of(post.buf_of(side)) != text_of(pre.buf_of(side)) {
        is_scheduled(post, now)
    } else {
        same_schedule(pre, post)
    }
}

/// What one keystroke does while no picker is open.
pub open spec fn base_key_ok(pre: App, post: App, key: KeyEvent, now: u64, r: AppAction) -> bool {
    if key.code == KeyCode::Char('c') && key.ctrl {
        post == pre && r == AppAction::Quit
    } else if key.code == KeyCode::Char('h') && key.ctrl {
        opened_picker(pre, post, ActiveSide::Left) && r == AppAction::Idle
    } else if key.code == KeyCode::Char('l') && key.ctrl {
        opened_picker(pre, post, ActiveSide::Right) && r == AppAction::Idle
    } else if key.code == KeyCode::Char('n') && key.ctrl {
        post == pre && r == AppAction::NativeizeBoth
    } else if key.code == KeyCode::Char('r') && key.ctrl {
        &&& r == AppAction::Idle
        &&& text_of(post.buf_of(pre.active)) == Seq::<char>::empty()
        &&& post.buf_of(other_side(pre.active)) == pre.buf_of(other_side(pre.active))
        &&& post.left_vim == pre.left_vim
        &&& post.right_vim == pre.right_vim
        &&& post.active == pre.active
        &&& same_langs(pre, post)
        &&& post.picker is None
        &&& is_scheduled(post, now)
    } else if key.code == KeyCode::Tab {
        &&& r == AppAction::Idle
        &&& post.active == other_side(pre.active)
        &&& post.input == pre.input
        &&& post.output == pre.output
        &&& post.left_vim == pre.left_vim
        &&& post.right_vim == pre.right_vim
        &&& same_langs(pre, post)
        &&& same_schedule(pre, post)
        &&& post.picker is None
    } else if key.code == KeyCode::Backspace && key.ctrl {
        opened_picker(pre, post, ActiveSide::Left) && r == AppAction::Idle
    } else {
        r == AppAction::Idle && vim_dispatch_ok(pre, post, key, now)
    }
}

/// Re-arm the translation cycle: mark the session dirty, remember when, and
/// clear any stale error.
pub fn schedule_translation(app: &mut App, now_ms: u64)
    ensures
        is_scheduled(*final(app), now_ms),
        same_core(*old(app), *final(app)),
        same_langs(*old(app), *final(app)),
        final(app).picker == old(app).picker,
{
    app.pending_translation = true;
    app.last_edit = Option::Some(now_ms);
    app.error = Option::None;
}

impl App {
    /// A fresh session: left pane in English, right pane in Spanish, both
    /// panes empty and in Normal mode, nothing pending.
    pub fn new() -> (r: App)
        ensures
            r.wf(),
            r.active == ActiveSide::Left,
            text_of(r.input) == Seq::<char>::empty(),
            text_of(r.output) == Seq::<char>::empty(),
            r.left_vim == (Vim { mode: Mode::Normal, pending: input_nil() }),
            r.right_vim == (Vim { mode: Mode::Normal, pending: input_nil() }),
            r.left_language == 0,
            r.right_language == 1,
            !r.pending_translation,
            r.last_edit is None,
            r.error is None,
            r.picker is None,
    {
        proof {
            reveal_strlit("EN");
            reveal_strlit("ES");
            assert(lower_seq(catalog()[0].1)[1] == lower_char('N'));
            assert(lower_seq("ES"@)[1] == lower_char('S'));
            assert(lower_seq(catalog()[0].1) != lower_seq("ES"@));
        }
        let left_language = match find_language_index("EN") {
            Option::Some(i) => i,
            Option::None => 0,
        };
        let right_language = match find_language_index("ES") {
            Option::Some(i) => i,
            Option::None => 1,
        };
        App {
            active: ActiveSide::Left,
            input: textarea_new(),
            output: textarea_new(),
            left_vim: Vim::new(Mode::Normal),
            right_vim: Vim::new(Mode::Normal),
            left_language,
            right_language,
            pending_translation: false,
            last_edit: Option::None,
            error: Option::None,
            picker: Option::None,
        }
    }

    /// Open the language picker for one side with an empty query.
    fn open_picker(&mut self, side: ActiveSide)
        ensures
            opened_picker(*old(self), *final(self), side),
    {
        self.picker = Option::Some(
            LanguagePicker { side, query: String::new(), selected: 0 },
        );
    }

    /// Record a transition on one side's interpreter: remember a pending
    /// key, or change mode and clear the pending key.
    fn update_vim_state(&mut self, side: ActiveSide, transition: Transition)
        ensures
            final(self).vim_of(side) == apply_transition(old(self).vim_of(side), transition),
            final(self).vim_of(other_side(side)) == old(self).vim_of(other_side(side)),
            final(self).active == old(self).active,
            final(self).input == old(self).input,
            final(self).output == old(self).output,
            same_langs(*old(self), *final(self)),
            same_schedule(*old(self), *final(self)),
            final(self).picker == old(self).picker,
    {
        match side {
            ActiveSide::Left => {
                match transition {
                    Transition::Nop => {},
                    Transition::Pending(input) => {
                        self.left_vim.pending = input;
                    },
                    Transition::Mode(mode) => {
                        self.left_vim.mode = mode;
                        self.left_vim.pending = Input::nil();
                    },
                }
            },
            ActiveSide::Right => {
                match transition {
                    Transition::Nop => {},
                    Transition::Pending(input) => {
                        self.right_vim.pending = input;
                    },
                    Transition::Mode(mode) => {
                        self.right_vim.mode = mode;
                        self.right_vim.pending = Input::nil();
                    },
                }
            },
        }
    }

    /// The mode of the pane that currently accepts input.
    pub fn active_mode(&self) -> (m: Mode)
        ensures
            m == self.vim_of(self.active).mode,
    {
        match self.active {
            ActiveSide::Left => self.left_vim.mode,
            ActiveSide::Right => self.right_vim.mode,
        }
    }

    /// Handle one keystroke while the picker is open.
    fn handle_picker_key(&mut self, key: KeyEvent, now_ms: u64) -> (r: AppAction)
        requires
            old(self).wf(),
            old(self).picker is Some,
        ensures
            final(self).wf(),
            old(self).picker matches Option::Some(p) ==> picker_step_ok(
                *old(self),
                p,
                *final(self),
                key,
                now_ms,
                r,
            ),
    {
        if key.code == KeyCode::Char('c') && key.ctrl {
            return AppAction::Quit;
        }
        let mut p_opt: Option<LanguagePicker> = Option::None;
        core::mem::swap(&mut self.picker, &mut p_opt);
        let mut p = match p_opt {
            Option::Some(p) => p,
            Option::None => {
                return AppAction::Idle;
            },
        };
        match key.code {
            KeyCode::Esc => {},
            KeyCode::Enter => {
                let indices = filtered_language_indices(p.query.as_str());
                if p.selected < indices.len() {
                    let chosen = indices[p.selected];
                    proof {
                        assert(indices@.contains(indices@[p.selected as int]));
                    }
                    match p.side {
                        ActiveSide::Left => {
                            self.left_language = chosen;
                        },
                        ActiveSide::Right => {
                            self.right_language = chosen;
                        },
                    }
                    schedule_translation(self, now_ms);
                }
            },
            KeyCode::Up => {
                if p.selected > 0 {
                    p.selected = p.selected - 1;
                }
                self.picker = Option::Some(p);
            },
            KeyCode::Down => {
                let indices = filtered_language_indices(p.query.as_str());
                if indices.len() > 0 && p.selected + 1 < indices.len() {
                    p.selected = p.selected + 1;
                }
                self.picker = Option::Some(p);
            },
            KeyCode::Backspace => {
                crate::text::string_pop(&mut p.query);
                p.selected = 0;
                self.picker = Option::Some(p);
            },
            KeyCode::Char(c) => {
                if !char_is_control(c) && p.query.as_str().unicode_len() < 32 {
                    crate::text::string_push(&mut p.query, c);
                    p.selected = 0;
                }
                self.picker = Option::Some(p);
            },
            _ => {
                self.picker = Option::Some(p);
            },
        }
        AppAction::Idle
    }

    /// Route one keyboard event: global shortcuts first (quit, pickers,
    /// nativize, clear, side switch), otherwise the key goes to the active
    /// pane's modal interpreter, and any text change re-arms the translation
    /// cycle at `now_ms`.
    pub fn handle_key(&mut self, key: KeyEvent, now_ms: u64) -> (r: AppAction)
        requires
            old(self).wf(),
        ensures
            final(self).wf(),
            key.kind != KeyEventKind::Press ==> *final(self) == *old(self) && r == AppAction::Idle,
            key.kind == KeyEventKind::Press ==> (old(self).picker matches Option::Some(p)
                ==> picker_step_ok(*old(self), p, *final(self), key, now_ms, r)),
            key.kind == KeyEventKind::Press && old(self).picker is None ==> base_key_ok(
                *old(self),
                *final(self),
                key,
                now_ms,
                r,
            ),
    {
        if key.kind != KeyEventKind::Press {
            return AppAction::Idle;
        }
        if self.picker.is_some() {
            return self.handle_picker_key(key, now_ms);
        }
        if key.code == KeyCode::Char('c') && key.ctrl {
            return AppAction::Quit;
        }
        if key.code == KeyCode::Char('h') && key.ctrl {
            self.open_picker(ActiveSide::Left);
            return AppAction::Idle;
        }
        if key.code == KeyCode::Char('l') && key.ctrl {
            self.open_picker(ActiveSide::Right);
            return AppAction::Idle;
        }
        if key.code == KeyCode::Char('n') && key.ctrl {
            return AppAction::NativeizeBoth;
        }
        if key.code == KeyCode::Char('r') && key.ctrl {
            match self.active {
                ActiveSide::Left => {
                    self.input = textarea_new();
                },
                ActiveSide::Right => {
                    self.output = textarea_new();
                },
            }
            schedule_translation(self, now_ms);
            return AppAction::Idle;
        }
        if key.code == KeyCode::Tab {
            self.active = toggle_side(self.active);
            return AppAction::Idle;
        }
        if key.code == KeyCode::Backspace && key.ctrl {
            self.open_picker(ActiveSide::Left);
            return AppAction::Idle;
        }
        let input = crate::keys::textarea_input_from_key(key);
        match self.active {
            ActiveSide::Left => {
                let before = textarea_text(&self.input);
                let v = self.left_vim;
                let transition = v.transition(input, &mut self.input);
                self.update_vim_state(ActiveSide::Left, transition);
                let after = textarea_text(&self.input);
                if !str_eq(before.as_str(), after.as_str()) {
                    schedule_translation(self, now_ms);
                }
            },
            ActiveSide::Right => {
                let before = textarea_text(&self.output);
                let v = self.right_vim;
                let transition = v.transition(input, &mut self.output);
                self.update_vim_state(ActiveSide::Right, transition);
                let after = textarea_text(&self.output);
                if !str_eq(before.as_str(), after.as_str()) {
                    schedule_translation(self, now_ms);
                }
            },
        }
        AppAction::Idle
    }
}

/// The language code at a catalog index, falling back to the first entry
/// when the index is out of range.
pub open spec fn code_of_index(i: usize) -> Seq<char> {
    if (i as int) < catalog().len() {
        catalog()[i as int].1
    } else {
        catalog()[0].1
    }
}

/// The language code selected by index `i`, falling back to the catalog's
/// first entry when out of range.
pub fn lang_code(i: usize) -> (r: &'static str)
    ensures
        r@ == code_of_index(i),
{
    let langs = crate::languages::languages();
    if i < langs.len() {
        langs[i].code
    } else {
        langs[0].code
    }
}

/// Whether the quiet period has passed since the last edit.
pub open spec fn debounce_elapsed(last: u64, now: u64) -> bool {
    now >= last && now - last >= TRANSLATION_DEBOUNCE_MS
}

/// Whether a poll at `now` fires a translation pass: one is pending and the
/// quiet period has elapsed.
pub open spec fn fire_cond(app: App, now: u64) -> bool {
    &&& app.pending_translation
    &&& match app.last_edit {
        Option::Some(t) => debounce_elapsed(t, now),
        Option::None => false,
    }
}

/// A translation request snapshot, captured at dispatch time: the source
/// text, the direction, and which pane receives the result.
pub struct TranslationRequest {
    pub text: String,
    pub source_lang: &'static str,
    pub target_lang: &'static str,
    pub target: ActiveSide,
}

/// The request snapshots `source`'s text, translates from `source`'s
/// language to the other pane's, and targets the other pane.
pub open spec fn request_ok(req: TranslationRequest, app: App, source: ActiveSide) -> bool {
    &&& req.text@ == text_of(app.buf_of(source))
    &&& req.source_lang@ == code_of_index(app.lang_of(source))
    &&& req.target_lang@ == code_of_index(app.lang_of(other_side(source)))
    &&& req.target == other_side(source)
}

/// One poll tick of the translation scheduler. Before the quiet period has
/// elapsed this is a no-op. When it fires: a whitespace-only source clears
/// the target pane and no request is made; otherwise the returned request
/// snapshots the active pane's text and direction. Either way the pending
/// cycle is consumed — at most one request per firing; the caller performs
/// the request and hands the outcome to `apply_translation_result`.
pub fn maybe_translate(app: &mut App, now_ms: u64) -> (r: Option<TranslationRequest>)
    requires
        old(app).wf(),
    ensures
        final(app).wf(),
        !fire_cond(*old(app), now_ms) ==> *final(app) == *old(app) && r is None,
        fire_cond(*old(app), now_ms) && is_blank(text_of(old(app).buf_of(old(app).active)))
            ==> ({
            &&& r is None
            &&& text_of(final(app).buf_of(other_side(old(app).active))) == Seq::<char>::empty()
            &&& final(app).buf_of(old(app).active) == old(app).buf_of(old(app).active)
            &&& !final(app).pending_translation
            &&& final(app).last_edit is None
            &&& final(app).error == old(app).error
            &&& final(app).active == old(app).active
            &&& final(app).left_vim == old(app).left_vim
            &&& final(app).right_vim == old(app).right_vim
            &&& same_langs(*old(app), *final(app))
            &&& final(app).picker == old(app).picker
        }),
        fire_cond(*old(app), now_ms) && !is_blank(text_of(old(app).buf_of(old(app).active)))
            ==> ({
            &&& r is Some
            &&& (r matches Option::Some(req) ==> request_ok(req, *old(app), old(app).active))
            &&& final(app).input == old(app).input
            &&& final(app).output == old(app).output
            &&& !final(app).pending_translation
            &&& final(app).last_edit is None
            &&& final(app).error == old(app).error
            &&& final(app).active == old(app).active
            &&& final(app).left_vim == old(app).left_vim
            &&& final(app).right_vim == old(app).right_vim
            &&& same_langs(*old(app), *final(app))
            &&& final(app).picker == old(app).picker
        }),
{
    if !app.pending_translation {
        return Option::None;
    }
    let last = match app.last_edit {
        Option::Some(t) => t,
        Option::None => {
            return Option::None;
        },
    };
    let elapsed = if now_ms >= last {
        now_ms - last
    } else {
        0
    };
    if elapsed < TRANSLATION_DEBOUNCE_MS {
        return Option::None;
    }
    let source_text = match app.active {
        ActiveSide::Left => textarea_text(&app.input),
        ActiveSide::Right => textarea_text(&app.output),
    };
    app.pending_translation = false;
    app.last_edit = Option::None;
    if crate::text::str_is_blank(source_text.as_str()) {
        proof {
            reveal_strlit("");
            assert(""@ =~= Seq::<char>::empty());
        }
        match app.active {
            ActiveSide::Left => set_textarea_text(&mut app.output, ""),
            ActiveSide::Right => set_textarea_text(&mut app.input, ""),
        }
        return Option::None;
    }
    let source_lang = lang_code(
        match app.active {
            ActiveSide::Left => app.left_language,
            ActiveSide::Right => app.right_language,
        },
    );
    let target_lang = lang_code(
        match app.active {
            ActiveSide::Left => app.right_language,
            ActiveSide::Right => app.left_language,
        },
    );
    let target = toggle_side(app.active);
    Option::Some(TranslationRequest { text: source_text, source_lang, target_lang, target })
}

/// Record the outcome of a dispatched request: a successful translation
/// overwrites the target pane and clears the error; a failure records the
/// error and leaves both panes exactly as they were.
pub fn apply_translation_result(app: &mut App, target: ActiveSide, result: Result<String, String>)
    ensures
        old(app).wf() ==> final(app).wf(),
        final(app).active == old(app).active,
        final(app).left_vim == old(app).left_vim,
        final(app).right_vim == old(app).right_vim,
        same_langs(*old(app), *final(app)),
        final(app).picker == old(app).picker,
        final(app).pending_translation == old(app).pending_translation,
        final(app).last_edit == old(app).last_edit,
        match result {
            Result::Ok(t) => {
                &&& text_of(final(app).buf_of(target)) == normalize_text(t@)
                &&& final(app).buf_of(other_side(target)) == old(app).buf_of(other_side(target))
                &&& final(app).error is None
            },
            Result::Err(e) => {
                &&& final(app).input == old(app).input
                &&& final(app).output == old(app).output
                &&& (final(app).error matches Option::Some(m) && m@ == e@)
            },
        },
{
    match result {
        Result::Ok(t) => {
            match target {
                ActiveSide::Left => set_textarea_text(&mut app.input, t.as_str()),
                ActiveSide::Right => set_textarea_text(&mut app.output, t.as_str()),
            }
            app.error = Option::None;
        },
        Result::Err(e) => {
            app.error = Option::Some(e);
        },
    }
}

/// The requests that an explicit "nativize both" pass makes: left pane to
/// the right pane's language and vice versa, skipping a side whose text is
/// whitespace-only.
pub fn nativize_requests(app: &App) -> (r: (
    Option<TranslationRequest>,
    Option<TranslationRequest>,
))
    ensures
        match r.0 {
            Option::Some(req) => !is_blank(text_of(app.input)) && request_ok(
                req,
                *app,
                ActiveSide::Left,
            ),
            Option::None => is_blank(text_of(app.input)),
        },
        match r.1 {
            Option::Some(req) => !is_blank(text_of(app.output)) && request_ok(
                req,
                *app,
                ActiveSide::Right,
            ),
            Option::None => is_blank(text_of(app.output)),
        },
{
    let left_source = textarea_text(&app.input);
    let right_source = textarea_text(&app.output);
    let left = if crate::text::str_is_blank(left_source.as_str()) {
        Option::None
    } else {
        Option::Some(
            TranslationRequest {
                text: left_source,
                source_lang: lang_code(app.left_language),
                target_lang: lang_code(app.right_language),
                target: ActiveSide::Right,
            },
        )
    };
    let right = if crate::text::str_is_blank(right_source.as_str()) {
        Option::None
    } else {
        Option::Some(
            TranslationRequest {
                text: right_source,
                source_lang: lang_code(app.right_language),
                target_lang: lang_code(app.left_language),
                target: ActiveSide::Left,
            },
        )
    };
    (left, right)
}

/// What one pane holds after a nativize pass: the translation when its
/// opposite side was used as a source and succeeded, otherwise its old text
/// (renormalized by the whole-buffer write).
pub open spec fn side_new_text(
    used: bool,
    res: Option<Result<String, String>>,
    old_text: Seq<char>,
) -> Seq<char> {
    if used {
        match res {
            Option::Some(Result::Ok(t)) => normalize_text(t@),
            _ => normalize_text(old_text),
        }
    } else {
        normalize_text(old_text)
    }
}

/// The error a used side contributes: the failure message, if it failed.
pub open spec fn outcome_err(used: bool, res: Option<Result<String, String>>) -> Option<
    Seq<char>,
> {
    if used {
        match res {
            Option::Some(Result::Err(e)) => Option::Some(e@),
            _ => Option::None,
        }
    } else {
        Option::None
    }
}

/// The first of two possible failure messages.
pub open spec fn first_err(a: Option<Seq<char>>, b: Option<Seq<char>>) -> Option<Seq<char>> {
    match a {
        Option::Some(x) => Option::Some(x),
        Option::None => b,
    }
}

/// Apply an explicit "nativize both" pass, given the outcome of each
/// direction's translation (`None` for a direction that was skipped). A
/// no-op when both panes are blank. Otherwise each pane receives its
/// translation (or keeps its text), the first failure — left direction
/// first — is recorded, and the pending cycle is cleared unconditionally.
pub fn nativeize_both(
    app: &mut App,
    left_to_right: Option<Result<String, String>>,
    right_to_left: Option<Result<String, String>>,
)
    ensures
        old(app).wf() ==> final(app).wf(),
        is_blank(text_of(old(app).input)) && is_blank(text_of(old(app).output)) ==> *final(app)
            == *old(app),
        !(is_blank(text_of(old(app).input)) && is_blank(text_of(old(app).output))) ==> ({
            let lb = is_blank(text_of(old(app).input));
            let rb = is_blank(text_of(old(app).output));
            &&& text_of(final(app).output) == side_new_text(
                !lb,
                left_to_right,
                text_of(old(app).output),
            )
            &&& text_of(final(app).input) == side_new_text(
                !rb,
                right_to_left,
                text_of(old(app).input),
            )
            &&& match first_err(
                outcome_err(!lb, left_to_right),
                outcome_err(!rb, right_to_left),
            ) {
                Option::Some(msg) => final(app).error matches Option::Some(m) && m@ == msg,
                Option::None => final(app).error is None,
            }
            &&& !final(app).pending_translation
            &&& final(app).last_edit is None
            &&& final(app).active == old(app).active
            &&& final(app).left_vim == old(app).left_vim
            &&& final(app).right_vim == old(app).right_vim
            &&& same_langs(*old(app), *final(app))
            &&& final(app).picker == old(app).picker
        }),
{
    let left_source = textarea_text(&app.input);
    let right_source = textarea_text(&app.output);
    let lb = crate::text::str_is_blank(left_source.as_str());
    let rb = crate::text::str_is_blank(right_source.as_str());
    if lb && rb {
        return ;
    }
    let mut error_message: Option<String> = Option::None;
    let mut new_left = left_source;
    let mut new_right = right_source;
    if !lb {
        match left_to_right {
            Option::Some(Result::Ok(t)) => {
                new_right = t;
            },
            Option::Some(Result::Err(e)) => {
                error_message = Option::Some(e);
            },
            Option::None => {},
        }
    }
    if !rb {
        match right_to_left {
            Option::Some(Result::Ok(t)) => {
                new_left = t;
            },
            Option::Some(Result::Err(e)) => {
                if error_message.is_none() {
                    error_message = Option::Some(e);
                }
            },
            Option::None => {},
        }
    }
    set_textarea_text(&mut app.input, new_left.as_str());
    set_textarea_text(&mut app.output, new_right.as_str());
    app.error = error_message;
    app.pending_translation = false;
    app.last_edit = Option::None;
}

/// Exiting Insert mode on the active pane through the cancel key always
/// lands in Normal mode with the pending key cleared.
pub proof fn lemma_insert_exit_via_cancel(pre: App, post: App, key: KeyEvent, now: u64)
    requires
        pre.picker is None,
        key.kind == KeyEventKind::Press,
        key.code == KeyCode::Esc,
        pre.vim_of(pre.active).mode == Mode::Insert,
        base_key_ok(pre, post, key, now, AppAction::Idle),
    ensures
        post.vim_of(post.active).mode == Mode::Normal,
        post.vim_of(post.active).pending == input_nil(),
{
    crate::vim::lemma_insert_cancel_returns_normal(pre.vim_of(pre.active), key_to_input(key));
}

/// The translation direction is decided at dispatch time from whichever side
/// is active then: after a side switch, any request the next firing builds
/// snapshots the newly active pane — the one that was inactive before the
/// switch — while the debounce state is untouched.
pub proof fn lemma_switch_side_changes_direction(pre: App, mid: App, key: KeyEvent, now: u64)
    requires
        pre.picker is None,
        key.kind == KeyEventKind::Press,
        key.code == KeyCode::Tab,
        base_key_ok(pre, mid, key, now, AppAction::Idle),
    ensures
        mid.active == other_side(pre.active),
        mid.pending_translation == pre.pending_translation,
        mid.last_edit == pre.last_edit,
        forall|req: TranslationRequest| #[trigger]
            request_ok(req, mid, mid.active) ==> req.text@ == text_of(
                pre.buf_of(other_side(pre.active)),
            ),
{
}

} // verus!
