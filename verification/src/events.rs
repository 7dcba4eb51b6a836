//! The events that drive the pages: keys pressed, mouse, resize and ticks.

use vstd::prelude::*;

verus! {

/// The key of a key press.
#[derive(Debug, Clone, Copy, PartialEq, Eq, Structural)]
pub enum KeyCode {
    Char(char),
    Enter,
    Esc,
    Tab,
    BackTab,
    Backspace,
    Left,
    Right,
    Up,
    Down,
    F(u8),
    Other,
}

/// A key press, with whether the control key was held.
#[derive(Debug, Clone, Copy, PartialEq, Eq, Structural)]
pub struct KeyEvent {
    pub code: KeyCode,
    pub control: bool,
}

/// An event of the application.
#[derive(Debug, Clone, Copy, PartialEq, Eq, Structural)]
pub enum Event {
    /// A key was pressed.
    Key(KeyEvent),
    /// The mouse was used.
    Mouse,
    /// The terminal was resized to the given width and height.
    Resize(u16, u16),
    /// A second has passed.
    Tick,
    /// The user asked to quit.
    Quit,
}

impl KeyEvent {
    /// A key press without modifiers.
    pub fn plain(code: KeyCode) -> (k: KeyEvent)
        ensures
            k.code == code,
            !k.control,
    {
        KeyEvent { code, control: false }
    }
}

/// Whether an event is a press of `?` or of Esc: the keys that close a help panel.
pub open spec fn closes_help(e: Event) -> bool {
    match e {
        Event::Key(k) => k.code == KeyCode::Char('?') || k.code == KeyCode::Esc,
        _ => false,
    }
}

/// Whether an event closes the help panel.
pub fn is_help_close(e: &Event) -> (b: bool)
    ensures
        b == closes_help(*e),
{
    match e {
        Event::Key(k) => match k.code {
            KeyCode::Char(c) => c == '?',
            KeyCode::Esc => true,
            _ => false,
        },
        _ => false,
    }
}

/// What the terminal reports.
#[derive(Debug, Clone, Copy, PartialEq, Eq, Structural)]
pub enum TerminalInput {
    /// A key, pressed or else released or repeated.
    Key { key: KeyEvent, is_press: bool },
    /// The mouse was used.
    Mouse,
    /// The terminal was resized.
    Resize(u16, u16),
    /// Anything else, such as focus or paste.
    Other,
}

/// What becomes of an input of the terminal.
#[derive(Debug, Clone, Copy, PartialEq, Eq, Structural)]
pub enum InputOutcome {
    /// Nothing is sent.
    Ignore,
    /// The event is sent and listening goes on.
    Send(Event),
    /// The event is sent and listening stops.
    SendAndStop(Event),
}

/// Only presses count; Ctrl+C and Ctrl+Q quit and end the listening; the
/// mouse and resizes pass on; anything else is dropped.
pub open spec fn input_outcome(input: TerminalInput) -> InputOutcome {
    match input {
        TerminalInput::Key { key, is_press } => {
            if !is_press {
                InputOutcome::Ignore
            } else if key.control && (key.code == KeyCode::Char('c') || key.code == KeyCode::Char('q')) {
                InputOutcome::SendAndStop(Event::Quit)
            } else {
                InputOutcome::Send(Event::Key(key))
            }
        },
        TerminalInput::Mouse => InputOutcome::Send(Event::Mouse),
        TerminalInput::Resize(w, h) => InputOutcome::Send(Event::Resize(w, h)),
        TerminalInput::Other => InputOutcome::Ignore,
    }
}

/// What becomes of an input of the terminal.
pub fn translate_input(input: TerminalInput) -> (o: InputOutcome)
    ensures
        o == input_outcome(input),
{
    match input {
        TerminalInput::Key { key, is_press } => {
            if !is_press {
                InputOutcome::Ignore
            } else if key.control && (key.code == KeyCode::Char('c') || key.code == KeyCode::Char('q')) {
                InputOutcome::SendAndStop(Event::Quit)
            } else {
                InputOutcome::Send(Event::Key(key))
            }
        },
        TerminalInput::Mouse => InputOutcome::Send(Event::Mouse),
        TerminalInput::Resize(w, h) => InputOutcome::Send(Event::Resize(w, h)),
        TerminalInput::Other => InputOutcome::Ignore,
    }
}

/// The time between two ticks, in milliseconds.
pub const TICK_MILLIS: u128 = 1000;

/// The time to wait for input before looking at the clock, in milliseconds.
pub const POLL_MILLIS: u64 = 50;

/// Whether a tick is due, `elapsed` milliseconds after the last one.
pub fn tick_due(elapsed: u128) -> (b: bool)
    ensures
        b == (elapsed >= TICK_MILLIS),
{
    elapsed >= TICK_MILLIS
}

/// A key that is only released or repeated never reaches the pages, and
/// neither do Ctrl+C and Ctrl+Q, which quit.
pub proof fn lemma_only_presses_reach_pages(input: TerminalInput)
    ensures
        input_outcome(input) matches InputOutcome::Send(Event::Key(k)) ==> (input matches TerminalInput::Key { key, is_press }
            && is_press && key == k
            && !(k.control && (k.code == KeyCode::Char('c') || k.code == KeyCode::Char('q')))),
{
}

} // verus!
