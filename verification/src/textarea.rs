use vstd::prelude::*;

use crate::keys::{Input, Key};
use crate::text::find_char;
use tui_textarea::CursorMove;
use tui_textarea::Input as TuiInput;
use tui_textarea::Key as TuiKey;
use tui_textarea::Scrolling;
use tui_textarea::TextArea;

verus! {

/// A pane's text buffer: a terminal text-area widget held opaquely, read and
/// written only through the trusted operations below. The `widget` field is
/// what a renderer draws; verified code never looks inside it.
#[verifier::external_body]
pub struct TextBuffer {
    pub widget: TextArea<'static>,
}

/// The buffer's text: its lines joined by newlines.
pub uninterp spec fn text_of(t: TextBuffer) -> Seq<char>;

/// Whether a text selection is ongoing in the buffer.
pub uninterp spec fn has_selection(t: TextBuffer) -> bool;

/// Drop one trailing carriage return, as line splitting does.
pub open spec fn strip_cr(l: Seq<char>) -> Seq<char> {
    if l.len() > 0 && l[l.len() - 1] == '\r' {
        l.take(l.len() - 1)
    } else {
        l
    }
}

/// Split a text into lines the way `str::lines` does: lines end at a newline
/// (a carriage return directly before it is dropped), and a final line
/// ending is optional.
pub open spec fn split_lines(s: Seq<char>) -> Seq<Seq<char>>
    decreases s.len(),
    via split_lines_dec
{
    if s.len() == 0 {
        Seq::empty()
    } else {
        match find_char(s, '\n') {
            Option::None => seq![s],
            Option::Some(i) => seq![strip_cr(s.take(i))] + split_lines(s.skip(i + 1)),
        }
    }
}

#[via_fn]
proof fn split_lines_dec(s: Seq<char>) {
    if s.len() != 0 {
        crate::text::lemma_find_char(s, '\n');
    }
}

/// Join lines with single newlines.
pub open spec fn join_lines(ls: Seq<Seq<char>>) -> Seq<char>
    decreases ls.len(),
{
    if ls.len() == 0 {
        Seq::empty()
    } else if ls.len() == 1 {
        ls[0]
    } else {
        ls[0] + seq!['\n'] + join_lines(ls.skip(1))
    }
}

/// The text a buffer holds after being loaded from `s`: `s` split into lines
/// and joined back with newlines.
pub open spec fn normalize_text(s: Seq<char>) -> Seq<char> {
    join_lines(split_lines(s))
}

/// A nonempty text splits into at least one line.
proof fn lemma_split_nonempty(s: Seq<char>)
    requires
        s.len() > 0,
    ensures
        split_lines(s).len() >= 1,
{
}

/// A text without carriage returns and without a trailing newline survives a
/// split/join round trip unchanged.
pub proof fn lemma_normalize_identity(s: Seq<char>)
    requires
        forall|i: int| 0 <= i < s.len() ==> s[i] != '\r',
        s.len() > 0 ==> s[s.len() - 1] != '\n',
    ensures
        normalize_text(s) == s,
    decreases s.len(),
{
    if s.len() == 0 {
        assert(normalize_text(s) =~= s);
    } else {
        crate::text::lemma_find_char(s, '\n');
        match find_char(s, '\n') {
            Option::None => {
                assert(normalize_text(s) =~= s);
            },
            Option::Some(i) => {
                let first = s.take(i);
                let rest = s.skip(i + 1);
                assert(strip_cr(first) == first);
                assert(i < s.len() - 1) by {
                    if i == s.len() - 1 {
                        assert(s[s.len() - 1] == '\n');
                    }
                }
                assert(rest.len() > 0);
                assert(rest[rest.len() - 1] == s[s.len() - 1]);
                lemma_normalize_identity(rest);
                lemma_split_nonempty(rest);
                let parts = seq![first] + split_lines(rest);
                assert(parts.len() >= 2);
                assert(parts.skip(1) =~= split_lines(rest));
                assert(join_lines(parts) == first + seq!['\n'] + normalize_text(rest));
                assert(first + seq!['\n'] + rest =~= s);
            },
        }
    }
}

/// A single cursor motion of the underlying text area.
#[derive(Clone, Copy, PartialEq, Eq, Structural, Debug)]
pub enum Motion {
    Back,
    Forward,
    Up,
    Down,
    WordForward,
    WordEnd,
    WordBack,
    Head,
    End,
    Top,
    Bottom,
}

/// A viewport scrolling step of the underlying text area.
#[derive(Clone, Copy, PartialEq, Eq, Structural, Debug)]
pub enum ScrollStep {
    LineDown,
    LineUp,
    HalfPageDown,
    HalfPageUp,
    PageDown,
    PageUp,
}

/// Relies on `TextArea::default`: a fresh text area holds one empty line and
/// no selection.
#[verifier::external_body]
pub(crate) fn textarea_new() -> (t: TextBuffer)
    ensures
        text_of(t) == Seq::<char>::empty(),
        !has_selection(t),
{
    TextBuffer { widget: TextArea::default() }
}

/// Relies on `str::lines` and `TextArea::from`: the buffer afterwards holds
/// exactly the lines of `text`, with no selection.
#[verifier::external_body]
pub fn set_textarea_text(textarea: &mut TextBuffer, text: &str)
    ensures
        text_of(*final(textarea)) == normalize_text(text@),
        !has_selection(*final(textarea)),
{
    textarea.widget = TextArea::from(text.lines());
}

/// Relies on `TextArea::lines`: the buffer's lines, joined by newlines.
#[verifier::external_body]
pub fn textarea_text(textarea: &TextBuffer) -> (r: String)
    ensures
        r@ == text_of(*textarea),
{
    textarea.widget.lines().join("\n")
}

/// Relies on `TextArea::move_cursor`: it moves the cursor only; the text and
/// whether a selection is ongoing both stay as they were.
#[verifier::external_body]
pub(crate) fn ta_move_cursor(t: &mut TextBuffer, m: Motion)
    ensures
        text_of(*final(t)) == text_of(*old(t)),
        has_selection(*final(t)) == has_selection(*old(t)),
{
    let c = match m {
        Motion::Back => CursorMove::Back, Motion::Forward => CursorMove::Forward,
        Motion::Up => CursorMove::Up, Motion::Down => CursorMove::Down,
        Motion::WordForward => CursorMove::WordForward, Motion::WordEnd => CursorMove::WordEnd,
        Motion::WordBack => CursorMove::WordBack, Motion::Head => CursorMove::Head,
        Motion::End => CursorMove::End, Motion::Top => CursorMove::Top,
        Motion::Bottom => CursorMove::Bottom,
    };
    t.widget.move_cursor(c);
}

/// Relies on `TextArea::scroll`: it adjusts the viewport and cursor only; the
/// text and whether a selection is ongoing both stay as they were.
#[verifier::external_body]
pub(crate) fn ta_scroll(t: &mut TextBuffer, s: ScrollStep)
    ensures
        text_of(*final(t)) == text_of(*old(t)),
        has_selection(*final(t)) == has_selection(*old(t)),
{
    match s {
        ScrollStep::LineDown => t.widget.scroll((1, 0)),
        ScrollStep::LineUp => t.widget.scroll((-1, 0)),
        ScrollStep::HalfPageDown => t.widget.scroll(Scrolling::HalfPageDown),
        ScrollStep::HalfPageUp => t.widget.scroll(Scrolling::HalfPageUp),
        ScrollStep::PageDown => t.widget.scroll(Scrolling::PageDown),
        ScrollStep::PageUp => t.widget.scroll(Scrolling::PageUp),
    }
}

/// Relies on `TextArea::start_selection`: it anchors a selection at the
/// cursor and leaves the text alone.
#[verifier::external_body]
pub(crate) fn ta_start_selection(t: &mut TextBuffer)
    ensures
        text_of(*final(t)) == text_of(*old(t)),
        has_selection(*final(t)),
{
    t.widget.start_selection();
}

/// Relies on `TextArea::cancel_selection`: it drops the selection anchor and
/// leaves the text alone.
#[verifier::external_body]
pub(crate) fn ta_cancel_selection(t: &mut TextBuffer)
    ensures
        text_of(*final(t)) == text_of(*old(t)),
        !has_selection(*final(t)),
{
    t.widget.cancel_selection();
}

/// Relies on `TextArea::copy`: it yanks the selected span without changing
/// the text, and ends the selection.
#[verifier::external_body]
pub(crate) fn ta_copy(t: &mut TextBuffer)
    ensures
        text_of(*final(t)) == text_of(*old(t)),
        !has_selection(*final(t)),
{
    t.widget.copy();
}

/// Relies on `TextArea::cut`: it removes and yanks the selected span; the
/// selection ends.
#[verifier::external_body]
pub(crate) fn ta_cut(t: &mut TextBuffer) -> (modified: bool)
    ensures
        !has_selection(*final(t)),
{
    t.widget.cut()
}

/// Relies on `TextArea::paste`: it inserts the yanked text at the cursor.
#[verifier::external_body]
pub(crate) fn ta_paste(t: &mut TextBuffer) -> (modified: bool) {
    t.widget.paste()
}

/// Relies on `TextArea::undo`: it reverts the last recorded edit, if any.
#[verifier::external_body]
pub(crate) fn ta_undo(t: &mut TextBuffer) -> (modified: bool) {
    t.widget.undo()
}

/// Relies on `TextArea::redo`: it reapplies the last undone edit, if any.
#[verifier::external_body]
pub(crate) fn ta_redo(t: &mut TextBuffer) -> (modified: bool) {
    t.widget.redo()
}

/// Relies on `TextArea::delete_next_char`: it deletes the character under
/// the cursor.
#[verifier::external_body]
pub(crate) fn ta_delete_next_char(t: &mut TextBuffer) -> (modified: bool) {
    t.widget.delete_next_char()
}

/// Relies on `TextArea::delete_line_by_end`: it deletes from the cursor to
/// the end of the line.
#[verifier::external_body]
pub(crate) fn ta_delete_line_by_end(t: &mut TextBuffer) -> (modified: bool) {
    t.widget.delete_line_by_end()
}

/// Relies on `TextArea::insert_newline`: it inserts a line break at the
/// cursor.
#[verifier::external_body]
pub(crate) fn ta_insert_newline(t: &mut TextBuffer) {
    t.widget.insert_newline();
}

/// Relies on `TextArea::cursor`: the cursor's row and column.
#[verifier::external_body]
pub(crate) fn ta_cursor(t: &TextBuffer) -> (rc: (usize, usize)) {
    t.widget.cursor()
}

/// Relies on `TextArea::input`: it applies one key input with the widget's
/// default bindings (insertion, deletion, cursor motion).
#[verifier::external_body]
pub(crate) fn ta_input(t: &mut TextBuffer, i: Input) -> (modified: bool) {
    let key = match i.key {
        Key::Char(c) => TuiKey::Char(c), Key::F(n) => TuiKey::F(n),
        Key::Backspace => TuiKey::Backspace, Key::Enter => TuiKey::Enter,
        Key::Left => TuiKey::Left, Key::Right => TuiKey::Right,
        Key::Up => TuiKey::Up, Key::Down => TuiKey::Down,
        Key::Tab => TuiKey::Tab, Key::Delete => TuiKey::Delete,
        Key::Home => TuiKey::Home, Key::End => TuiKey::End,
        Key::PageUp => TuiKey::PageUp, Key::PageDown => TuiKey::PageDown,
        Key::Esc => TuiKey::Esc, Key::Null => TuiKey::Null,
    };
    t.widget.input(TuiInput { key, ctrl: i.ctrl, alt: i.alt, shift: i.shift })
}

} // verus!
