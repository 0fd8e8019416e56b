use vstd::prelude::*;

use crate::keys::{input_nil, Input, Key};
use crate::textarea::{
    has_selection, ta_cancel_selection, ta_copy, ta_cursor, ta_cut, ta_delete_line_by_end,
    ta_delete_next_char, ta_input, ta_insert_newline, ta_move_cursor, ta_paste, ta_redo,
    ta_scroll, ta_start_selection, ta_undo, text_of, Motion, ScrollStep, TextBuffer,
};

verus! {

/// The active interpretation regime for key input. `Operator(op)` awaits a
/// motion, or the operator key repeated, to pick the span that `op` (yank,
/// delete or change) applies to.
#[derive(Clone, Copy, PartialEq, Eq, Structural, Debug)]
pub enum Mode {
    Normal,
    Insert,
    Visual,
    Operator(char),
}

/// What one key did to the editor state: nothing, a mode change, or a key
/// remembered so the next key can complete a two-key sequence.
#[derive(Clone, Copy, PartialEq, Eq, Structural, Debug)]
pub enum Transition {
    Nop,
    Mode(Mode),
    Pending(Input),
}

/// A pane's modal-editing state: the mode and the last unconsumed key.
#[derive(Clone, Copy, PartialEq, Eq, Structural, Debug)]
pub struct Vim {
    pub mode: Mode,
    pub pending: Input,
}

/// The transition that the mandatory post-step produces when a key fell
/// through the motion table: a pending operator is applied and the mode
/// leaves operator-pending.
pub open spec fn finalize(mode: Mode) -> Transition {
    match mode {
        Mode::Operator(op) => if op == 'y' {
            Transition::Mode(Mode::Normal)
        } else if op == 'd' {
            Transition::Mode(Mode::Normal)
        } else if op == 'c' {
            Transition::Mode(Mode::Insert)
        } else {
            Transition::Nop
        },
        _ => Transition::Nop,
    }
}

/// Whether the post-step cuts text (a pending delete or change operator).
pub open spec fn op_cuts(mode: Mode) -> bool {
    mode == Mode::Operator('d') || mode == Mode::Operator('c')
}

/// One step of the shared Normal/Visual/Operator key table, in the table's
/// own precedence order. Yields the transition and whether the step is known
/// to leave the buffer text unchanged.
pub open spec fn nvo_step(mode: Mode, pending: Input, input: Input) -> (Transition, bool) {
    let ctrl = input.ctrl;
    let pend_g = pending.key == Key::Char('g') && !pending.ctrl;
    match input.key {
        Key::Char(c) => if c == 'h' || c == 'j' || c == 'k' || c == 'l' || c == 'w' {
            (finalize(mode), !op_cuts(mode))
        } else if c == 'e' && !ctrl {
            (finalize(mode), !op_cuts(mode))
        } else if c == 'b' && !ctrl {
            (finalize(mode), !op_cuts(mode))
        } else if c == '^' || c == '$' {
            (finalize(mode), !op_cuts(mode))
        } else if c == 'D' {
            (Transition::Mode(Mode::Normal), false)
        } else if c == 'C' {
            (Transition::Mode(Mode::Insert), false)
        } else if c == 'p' {
            (Transition::Mode(Mode::Normal), false)
        } else if c == 'u' && !ctrl {
            (Transition::Mode(Mode::Normal), false)
        } else if c == 'r' && ctrl {
            (Transition::Mode(Mode::Normal), false)
        } else if c == 'x' {
            (Transition::Mode(Mode::Normal), false)
        } else if c == 'i' {
            (Transition::Mode(Mode::Insert), true)
        } else if c == 'a' {
            (Transition::Mode(Mode::Insert), true)
        } else if c == 'A' {
            (Transition::Mode(Mode::Insert), true)
        } else if c == 'o' {
            (Transition::Mode(Mode::Insert), false)
        } else if c == 'O' {
            (Transition::Mode(Mode::Insert), false)
        } else if c == 'I' {
            (Transition::Mode(Mode::Insert), true)
        } else if (c == 'e' || c == 'y' || c == 'd' || c == 'u' || c == 'f' || c == 'b') && ctrl {
            (finalize(mode), !op_cuts(mode))
        } else if c == 'v' && !ctrl && mode == Mode::Normal {
            (Transition::Mode(Mode::Visual), true)
        } else if c == 'V' && !ctrl && mode == Mode::Normal {
            (Transition::Mode(Mode::Visual), true)
        } else if c == 'v' && !ctrl && mode == Mode::Visual {
            (Transition::Mode(Mode::Normal), true)
        } else if c == 'g' && !ctrl && pend_g {
            (finalize(mode), !op_cuts(mode))
        } else if c == 'G' && !ctrl {
            (finalize(mode), !op_cuts(mode))
        } else if !ctrl && mode == Mode::Operator(c) {
            (finalize(mode), !op_cuts(mode))
        } else if (c == 'y' || c == 'd' || c == 'c') && !ctrl && mode == Mode::Normal {
            (Transition::Mode(Mode::Operator(c)), true)
        } else if c == 'y' && !ctrl && mode == Mode::Visual {
            (Transition::Mode(Mode::Normal), true)
        } else if c == 'd' && !ctrl && mode == Mode::Visual {
            (Transition::Mode(Mode::Normal), false)
        } else if c == 'c' && !ctrl && mode == Mode::Visual {
            (Transition::Mode(Mode::Insert), false)
        } else {
            (Transition::Pending(input), true)
        },
        Key::Esc => if mode == Mode::Visual {
            (Transition::Mode(Mode::Normal), true)
        } else {
            (Transition::Pending(input), true)
        },
        _ => (Transition::Pending(input), true),
    }
}

/// The transition one key produces, given the current mode and pending key.
/// This is the whole modal-editing state machine.
pub open spec fn spec_transition(mode: Mode, pending: Input, input: Input) -> Transition {
    if input.key == Key::Null {
        Transition::Nop
    } else if mode == Mode::Insert {
        if input.key == Key::Esc || (input.key == Key::Char('c') && input.ctrl) {
            Transition::Mode(Mode::Normal)
        } else {
            Transition::Mode(Mode::Insert)
        }
    } else {
        nvo_step(mode, pending, input).0
    }
}

/// Whether a key is guaranteed to leave the buffer text unchanged (pure
/// motions, mode changes, scrolling, yanking).
pub open spec fn key_preserves_text(mode: Mode, pending: Input, input: Input) -> bool {
    if input.key == Key::Null {
        true
    } else if mode == Mode::Insert {
        input.key == Key::Esc || (input.key == Key::Char('c') && input.ctrl)
    } else {
        nvo_step(mode, pending, input).1
    }
}

/// The editor state after a transition is recorded: the pending key is
/// replaced by a remembered key, or cleared on every mode change.
pub open spec fn apply_transition(v: Vim, t: Transition) -> Vim {
    match t {
        Transition::Nop => v,
        Transition::Pending(i) => Vim { mode: v.mode, pending: i },
        Transition::Mode(m) => Vim { mode: m, pending: input_nil() },
    }
}

/// An interpreter state is well-formed when its operator, if one is pending,
/// is one of yank, delete, change.
pub open spec fn vim_wf(v: Vim) -> bool {
    match v.mode {
        Mode::Operator(op) => op == 'y' || op == 'd' || op == 'c',
        _ => true,
    }
}

impl Vim {
    /// A fresh key interpreter in the given mode with no pending key.
    pub fn new(mode: Mode) -> (r: Vim)
        ensures
            r == (Vim { mode, pending: input_nil() }),
    {
        Vim { mode, pending: Input::nil() }
    }

    /// Apply the pending operator if one is armed: copy for yank, cut for
    /// delete and change, then leave operator-pending mode.
    fn finalize_op(&self, textarea: &mut TextBuffer) -> (t: Transition)
        ensures
            t == finalize(self.mode),
            !op_cuts(self.mode) ==> text_of(*final(textarea)) == text_of(*old(textarea)),
    {
        match self.mode {
            Mode::Operator(op) => {
                if op == 'y' {
                    ta_copy(textarea);
                    Transition::Mode(Mode::Normal)
                } else if op == 'd' {
                    ta_cut(textarea);
                    Transition::Mode(Mode::Normal)
                } else if op == 'c' {
                    ta_cut(textarea);
                    Transition::Mode(Mode::Insert)
                } else {
                    Transition::Nop
                }
            },
            _ => Transition::Nop,
        }
    }

    /// Interpret one key: move the cursor or edit the buffer as the key
    /// demands, and report the mode change or pending key. After any key that
    /// fell through the shared table, a pending operator is applied to the
    /// span the key produced — that post-step is what makes both
    /// operator+motion and doubled-operator sequences work.
    pub fn transition(&self, input: Input, textarea: &mut TextBuffer) -> (t: Transition)
        ensures
            t == spec_transition(self.mode, self.pending, input),
            key_preserves_text(self.mode, self.pending, input) ==> text_of(*final(textarea))
                == text_of(*old(textarea)),
            (t matches Transition::Mode(m) && m matches Mode::Operator(_)) ==> has_selection(
                *final(textarea),
            ),
            t matches Transition::Pending(_) ==> *final(textarea) == *old(textarea),
    {
        if input.key == Key::Null {
            return Transition::Nop;
        }
        match self.mode {
            Mode::Insert => {
                if input.key == Key::Esc || (input.key == Key::Char('c') && input.ctrl) {
                    Transition::Mode(Mode::Normal)
                } else {
                    ta_input(textarea, input);
                    Transition::Mode(Mode::Insert)
                }
            },
            _ => self.nvo_transition(input, textarea),
        }
    }

    /// The shared Normal/Visual/Operator key table.
    fn nvo_transition(&self, input: Input, textarea: &mut TextBuffer) -> (t: Transition)
        requires
            self.mode != Mode::Insert,
            input.key != Key::Null,
        ensures
            t == nvo_step(self.mode, self.pending, input).0,
            nvo_step(self.mode, self.pending, input).1 ==> text_of(*final(textarea)) == text_of(
                *old(textarea),
            ),
            (t matches Transition::Mode(m) && m matches Mode::Operator(_)) ==> has_selection(
                *final(textarea),
            ),
            t matches Transition::Pending(_) ==> *final(textarea) == *old(textarea),
    {
        let ctrl = input.ctrl;
        let pend_g = self.pending.key == Key::Char('g') && !self.pending.ctrl;
        match input.key {
            Key::Char(c) => {
                if c == 'h' {
                    ta_move_cursor(textarea, Motion::Back);
                    self.finalize_op(textarea)
                } else if c == 'j' {
                    ta_move_cursor(textarea, Motion::Down);
                    self.finalize_op(textarea)
                } else if c == 'k' {
                    ta_move_cursor(textarea, Motion::Up);
                    self.finalize_op(textarea)
                } else if c == 'l' {
                    ta_move_cursor(textarea, Motion::Forward);
                    self.finalize_op(textarea)
                } else if c == 'w' {
                    ta_move_cursor(textarea, Motion::WordForward);
                    self.finalize_op(textarea)
                } else if c == 'e' && !ctrl {
                    ta_move_cursor(textarea, Motion::WordEnd);
                    if matches!(self.mode, Mode::Operator(_)) {
                        ta_move_cursor(textarea, Motion::Forward);
                    }
                    self.finalize_op(textarea)
                } else if c == 'b' && !ctrl {
                    ta_move_cursor(textarea, Motion::WordBack);
                    self.finalize_op(textarea)
                } else if c == '^' {
                    ta_move_cursor(textarea, Motion::Head);
                    self.finalize_op(textarea)
                } else if c == '$' {
                    ta_move_cursor(textarea, Motion::End);
                    self.finalize_op(textarea)
                } else if c == 'D' {
                    ta_delete_line_by_end(textarea);
                    Transition::Mode(Mode::Normal)
                } else if c == 'C' {
                    ta_delete_line_by_end(textarea);
                    ta_cancel_selection(textarea);
                    Transition::Mode(Mode::Insert)
                } else if c == 'p' {
                    ta_paste(textarea);
                    Transition::Mode(Mode::Normal)
                } else if c == 'u' && !ctrl {
                    ta_undo(textarea);
                    Transition::Mode(Mode::Normal)
                } else if c == 'r' && ctrl {
                    ta_redo(textarea);
                    Transition::Mode(Mode::Normal)
                } else if c == 'x' {
                    ta_delete_next_char(textarea);
                    Transition::Mode(Mode::Normal)
                } else if c == 'i' {
                    ta_cancel_selection(textarea);
                    Transition::Mode(Mode::Insert)
                } else if c == 'a' {
                    ta_cancel_selection(textarea);
                    ta_move_cursor(textarea, Motion::Forward);
                    Transition::Mode(Mode::Insert)
                } else if c == 'A' {
                    ta_cancel_selection(textarea);
                    ta_move_cursor(textarea, Motion::End);
                    Transition::Mode(Mode::Insert)
                } else if c == 'o' {
                    ta_move_cursor(textarea, Motion::End);
                    ta_insert_newline(textarea);
                    Transition::Mode(Mode::Insert)
                } else if c == 'O' {
                    ta_move_cursor(textarea, Motion::Head);
                    ta_insert_newline(textarea);
                    ta_move_cursor(textarea, Motion::Up);
                    Transition::Mode(Mode::Insert)
                } else if c == 'I' {
                    ta_cancel_selection(textarea);
                    ta_move_cursor(textarea, Motion::Head);
                    Transition::Mode(Mode::Insert)
                } else if c == 'e' && ctrl {
                    ta_scroll(textarea, ScrollStep::LineDown);
                    self.finalize_op(textarea)
                } else if c == 'y' && ctrl {
                    ta_scroll(textarea, ScrollStep::LineUp);
                    self.finalize_op(textarea)
                } else if c == 'd' && ctrl {
                    ta_scroll(textarea, ScrollStep::HalfPageDown);
                    self.finalize_op(textarea)
                } else if c == 'u' && ctrl {
                    ta_scroll(textarea, ScrollStep::HalfPageUp);
                    self.finalize_op(textarea)
                } else if c == 'f' && ctrl {
                    ta_scroll(textarea, ScrollStep::PageDown);
                    self.finalize_op(textarea)
                } else if c == 'b' && ctrl {
                    ta_scroll(textarea, ScrollStep::PageUp);
                    self.finalize_op(textarea)
                } else if c == 'v' && !ctrl && self.mode == Mode::Normal {
                    ta_start_selection(textarea);
                    Transition::Mode(Mode::Visual)
                } else if c == 'V' && !ctrl && self.mode == Mode::Normal {
                    ta_move_cursor(textarea, Motion::Head);
                    ta_start_selection(textarea);
                    ta_move_cursor(textarea, Motion::End);
                    Transition::Mode(Mode::Visual)
                } else if c == 'v' && !ctrl && self.mode == Mode::Visual {
                    ta_cancel_selection(textarea);
                    Transition::Mode(Mode::Normal)
                } else if c == 'g' && !ctrl && pend_g {
                    ta_move_cursor(textarea, Motion::Top);
                    self.finalize_op(textarea)
                } else if c == 'G' && !ctrl {
                    ta_move_cursor(textarea, Motion::Bottom);
                    self.finalize_op(textarea)
                } else if !ctrl && self.mode == Mode::Operator(c) {
                    // The doubled operator key selects the whole current line
                    // (down to the next line head, or to end of buffer on the
                    // last line).
                    ta_move_cursor(textarea, Motion::Head);
                    ta_start_selection(textarea);
                    let before = ta_cursor(textarea);
                    ta_move_cursor(textarea, Motion::Down);
                    let after = ta_cursor(textarea);
                    if before.0 == after.0 && before.1 == after.1 {
                        ta_move_cursor(textarea, Motion::End);
                    }
                    self.finalize_op(textarea)
                } else if (c == 'y' || c == 'd' || c == 'c') && !ctrl && self.mode == Mode::Normal {
                    ta_start_selection(textarea);
                    Transition::Mode(Mode::Operator(c))
                } else if c == 'y' && !ctrl && self.mode == Mode::Visual {
                    ta_move_cursor(textarea, Motion::Forward);
                    ta_copy(textarea);
                    Transition::Mode(Mode::Normal)
                } else if c == 'd' && !ctrl && self.mode == Mode::Visual {
                    ta_move_cursor(textarea, Motion::Forward);
                    ta_cut(textarea);
                    Transition::Mode(Mode::Normal)
                } else if c == 'c' && !ctrl && self.mode == Mode::Visual {
                    ta_move_cursor(textarea, Motion::Forward);
                    ta_cut(textarea);
                    Transition::Mode(Mode::Insert)
                } else {
                    Transition::Pending(input)
                }
            },
            Key::Esc => {
                if self.mode == Mode::Visual {
                    ta_cancel_selection(textarea);
                    Transition::Mode(Mode::Normal)
                } else {
                    Transition::Pending(input)
                }
            },
            _ => Transition::Pending(input),
        }
    }
}

/// Exiting Insert mode through a cancel key (escape, or control-c at the key
/// table) always lands in Normal mode with the pending key cleared.
pub proof fn lemma_insert_cancel_returns_normal(v: Vim, input: Input)
    requires
        v.mode == Mode::Insert,
        input.key == Key::Esc || (input.key == Key::Char('c') && input.ctrl),
    ensures
        apply_transition(v, spec_transition(v.mode, v.pending, input)) == (Vim {
            mode: Mode::Normal,
            pending: input_nil(),
        }),
{
}

/// The doubled-operator shortcut always leaves operator-pending mode: to
/// Normal for yank and delete, to Insert for change; and the doubled yank is
/// one of the keys that never change the text.
pub proof fn lemma_doubled_operator(v: Vim, input: Input, op: char)
    requires
        v.mode == Mode::Operator(op),
        op == 'y' || op == 'd' || op == 'c',
        input.key == Key::Char(op),
        !input.ctrl,
    ensures
        spec_transition(v.mode, v.pending, input) == Transition::Mode(
            if op == 'c' {
                Mode::Insert
            } else {
                Mode::Normal
            },
        ),
        op == 'y' ==> key_preserves_text(v.mode, v.pending, input),
{
}

} // verus!
