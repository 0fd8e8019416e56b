use vstd::prelude::*;

verus! {

/// A logical key identity, as the text-area widget understands it.
#[derive(Clone, Copy, PartialEq, Eq, Structural, Debug)]
pub enum Key {
    Char(char),
    F(u8),
    Backspace,
    Enter,
    Left,
    Right,
    Up,
    Down,
    Tab,
    Delete,
    Home,
    End,
    PageUp,
    PageDown,
    Esc,
    Null,
}

/// A normalized key input: key identity plus modifier flags.
#[derive(Clone, Copy, PartialEq, Eq, Structural, Debug)]
pub struct Input {
    pub key: Key,
    pub ctrl: bool,
    pub alt: bool,
    pub shift: bool,
}

/// The input value that stands for "no pending key".
pub open spec fn input_nil() -> Input {
    Input { key: Key::Null, ctrl: false, alt: false, shift: false }
}

impl Input {
    /// An input with no key and no modifiers.
    pub fn nil() -> (r: Input)
        ensures
            r == input_nil(),
    {
        Input { key: Key::Null, ctrl: false, alt: false, shift: false }
    }
}

/// A key identity as delivered by the terminal event source.
#[derive(Clone, Copy, PartialEq, Eq, Structural, Debug)]
pub enum KeyCode {
    Char(char),
    F(u8),
    Backspace,
    Enter,
    Left,
    Right,
    Up,
    Down,
    Tab,
    Delete,
    Home,
    End,
    PageUp,
    PageDown,
    Esc,
    Other,
}

/// Whether a key event reports a press, a release, or a repeat.
#[derive(Clone, Copy, PartialEq, Eq, Structural, Debug)]
pub enum KeyEventKind {
    Press,
    Release,
    Repeat,
}

/// A keyboard event: key identity, modifier flags, and press/release kind.
#[derive(Clone, Copy, PartialEq, Eq, Structural, Debug)]
pub struct KeyEvent {
    pub code: KeyCode,
    pub ctrl: bool,
    pub alt: bool,
    pub shift: bool,
    pub kind: KeyEventKind,
}

impl KeyEvent {
    /// A plain key press without modifiers.
    pub fn press(code: KeyCode) -> (r: KeyEvent)
        ensures
            r == (KeyEvent {
                code,
                ctrl: false,
                alt: false,
                shift: false,
                kind: KeyEventKind::Press,
            }),
    {
        KeyEvent { code, ctrl: false, alt: false, shift: false, kind: KeyEventKind::Press }
    }
}

/// The text-area input that a key event maps to.
pub open spec fn key_to_input(key: KeyEvent) -> Input {
    Input {
        key: match key.code {
            KeyCode::Char(c) => Key::Char(c),
            KeyCode::F(n) => Key::F(n),
            KeyCode::Backspace => Key::Backspace,
            KeyCode::Enter => Key::Enter,
            KeyCode::Left => Key::Left,
            KeyCode::Right => Key::Right,
            KeyCode::Up => Key::Up,
            KeyCode::Down => Key::Down,
            KeyCode::Tab => Key::Tab,
            KeyCode::Delete => Key::Delete,
            KeyCode::Home => Key::Home,
            KeyCode::End => Key::End,
            KeyCode::PageUp => Key::PageUp,
            KeyCode::PageDown => Key::PageDown,
            KeyCode::Esc => Key::Esc,
            KeyCode::Other => Key::Null,
        },
        ctrl: key.ctrl,
        alt: key.alt,
        shift: key.shift,
    }
}

/// Turn a keyboard event into the input fed to a pane's text area.
pub fn textarea_input_from_key(key: KeyEvent) -> (r: Input)
    ensures
        r == key_to_input(key),
{
    let code = match key.code {
        KeyCode::Char(c) => Key::Char(c),
        KeyCode::F(n) => Key::F(n),
        KeyCode::Backspace => Key::Backspace,
        KeyCode::Enter => Key::Enter,
        KeyCode::Left => Key::Left,
        KeyCode::Right => Key::Right,
        KeyCode::Up => Key::Up,
        KeyCode::Down => Key::Down,
        KeyCode::Tab => Key::Tab,
        KeyCode::Delete => Key::Delete,
        KeyCode::Home => Key::Home,
        KeyCode::End => Key::End,
        KeyCode::PageUp => Key::PageUp,
        KeyCode::PageDown => Key::PageDown,
        KeyCode::Esc => Key::Esc,
        KeyCode::Other => Key::Null,
    };
    Input { key: code, ctrl: key.ctrl, alt: key.alt, shift: key.shift }
}

} // verus!
