//! Turns the byte stream of a serial console into key events, decoding the
//! ANSI escape sequences of the arrow keys (`ESC [ A..D`) and of the arrow
//! keys with Ctrl (`ESC [ 1 ; 5 A..D`).
use vstd::prelude::*;

use super::uart::Uart;

verus! {

/// The escape byte.
pub const ESC: u8 = 0x1B;

/// A key as the console reports it.
#[derive(Debug, Clone, Copy, PartialEq, Eq, Structural)]
pub enum Key {
    Char(u8),
    Enter,
    Backspace,
    Escape,
    Up,
    Down,
    Left,
    Right,
    Meta,
    Unknown,
}

/// A key press with its modifiers.
#[derive(Debug, Clone, Copy, PartialEq, Eq, Structural)]
pub struct KeyEvent {
    pub key: Key,
    pub meta: bool,
    pub ctrl: bool,
    pub shift: bool,
}

/// How much of an escape sequence has been read.
#[derive(Debug, Clone, Copy, PartialEq, Eq, Structural)]
pub enum EscapeSequence {
    /// Outside any sequence.
    Idle,
    /// After `ESC`.
    Escape,
    /// After `ESC [`.
    Bracket,
    /// After `ESC [ 1`.
    BracketOne,
    /// After `ESC [ 1 ;`.
    BracketOneColon,
    /// After `ESC [ 1 ; 5` (the Ctrl modifier).
    BracketOneColonFive,
}

/// The console decoder.
pub struct Keyboard {
    pub uart: Uart,
    pub meta_pressed: bool,
    pub escape_sequence: EscapeSequence,
}

/// The arrow key that final byte `c` of a sequence names.
pub open spec fn arrow(c: u8) -> Key {
    if c == 0x41 {
        Key::Up
    } else if c == 0x42 {
        Key::Down
    } else if c == 0x43 {
        Key::Right
    } else if c == 0x44 {
        Key::Left
    } else {
        Key::Unknown
    }
}

/// The event for a byte read outside an escape sequence: line feed and
/// carriage return are Enter, backspace is Backspace, other control bytes
/// are Ctrl with their character, and the rest are characters, with Shift
/// for capitals.
pub open spec fn plain_event(c: u8, meta: bool) -> KeyEvent {
    if c < 0x20 {
        if c == 0x0A || c == 0x0D {
            KeyEvent { key: Key::Enter, meta: false, ctrl: false, shift: false }
        } else if c == 0x08 {
            KeyEvent { key: Key::Backspace, meta: false, ctrl: false, shift: false }
        } else {
            KeyEvent { key: Key::Char(c), meta: false, ctrl: true, shift: false }
        }
    } else {
        KeyEvent { key: Key::Char(c), meta, ctrl: false, shift: 0x41 <= c <= 0x5A }
    }
}

/// The decoder's next state and event after byte `c` in state `st`.
pub open spec fn step(st: EscapeSequence, meta: bool, c: u8) -> (EscapeSequence, Option<KeyEvent>) {
    match st {
        EscapeSequence::Idle => if c == ESC {
            (EscapeSequence::Escape, None)
        } else {
            (EscapeSequence::Idle, Some(plain_event(c, meta)))
        },
        EscapeSequence::Escape => if c == 0x5B {
            (EscapeSequence::Bracket, None)
        } else {
            (
                EscapeSequence::Idle,
                Some(KeyEvent { key: Key::Escape, meta: false, ctrl: false, shift: false }),
            )
        },
        EscapeSequence::Bracket => if c == 0x31 {
            (EscapeSequence::BracketOne, None)
        } else {
            (
                EscapeSequence::Idle,
                Some(KeyEvent { key: arrow(c), meta, ctrl: false, shift: false }),
            )
        },
        EscapeSequence::BracketOne => if c == 0x3B {
            (EscapeSequence::BracketOneColon, None)
        } else {
            (EscapeSequence::Idle, Some(plain_event(c, meta)))
        },
        EscapeSequence::BracketOneColon => if c == 0x35 {
            (EscapeSequence::BracketOneColonFive, None)
        } else {
            (EscapeSequence::Idle, Some(plain_event(c, meta)))
        },
        EscapeSequence::BracketOneColonFive => (
            EscapeSequence::Idle,
            Some(KeyEvent { key: arrow(c), meta, ctrl: true, shift: false }),
        ),
    }
}

fn arrow_key(c: u8) -> (r: Key)
    ensures
        r == arrow(c),
{
    if c == 0x41 {
        Key::Up
    } else if c == 0x42 {
        Key::Down
    } else if c == 0x43 {
        Key::Right
    } else if c == 0x44 {
        Key::Left
    } else {
        Key::Unknown
    }
}

impl Keyboard {
    pub fn new(uart: Uart) -> (r: Keyboard)
        ensures
            r.uart == uart,
            !r.meta_pressed,
            r.escape_sequence == EscapeSequence::Idle,
    {
        Keyboard { uart, meta_pressed: false, escape_sequence: EscapeSequence::Idle }
    }

    /// Feeds the byte read from the console, if any, to the decoder and
    /// returns the key event it completes.
    pub fn poll(&mut self, input: Option<u8>) -> (r: Option<KeyEvent>)
        ensures
            final(self).uart == old(self).uart,
            final(self).meta_pressed == old(self).meta_pressed,
            input is None ==> r is None && final(self).escape_sequence == old(self).escape_sequence,
            input matches Some(c) ==> (final(self).escape_sequence, r) == step(
                old(self).escape_sequence,
                old(self).meta_pressed,
                c,
            ),
    {
        let c = match input {
            Some(c) => c,
            None => {
                return None;
            },
        };
        match self.escape_sequence {
            EscapeSequence::Idle => {
                if c == ESC {
                    self.escape_sequence = EscapeSequence::Escape;
                    return None;
                }
                self.process_char(c)
            },
            EscapeSequence::Escape => {
                if c == 0x5B {
                    self.escape_sequence = EscapeSequence::Bracket;
                    None
                } else {
                    self.escape_sequence = EscapeSequence::Idle;
                    Some(KeyEvent { key: Key::Escape, meta: false, ctrl: false, shift: false })
                }
            },
            EscapeSequence::Bracket => {
                if c == 0x31 {
                    self.escape_sequence = EscapeSequence::BracketOne;
                    return None;
                }
                self.escape_sequence = EscapeSequence::Idle;
                let key = arrow_key(c);
                Some(KeyEvent { key, meta: self.meta_pressed, ctrl: false, shift: false })
            },
            EscapeSequence::BracketOne => {
                if c == 0x3B {
                    self.escape_sequence = EscapeSequence::BracketOneColon;
                    None
                } else {
                    self.escape_sequence = EscapeSequence::Idle;
                    self.process_char(c)
                }
            },
            EscapeSequence::BracketOneColon => {
                if c == 0x35 {
                    self.escape_sequence = EscapeSequence::BracketOneColonFive;
                    None
                } else {
                    self.escape_sequence = EscapeSequence::Idle;
                    self.process_char(c)
                }
            },
            EscapeSequence::BracketOneColonFive => {
                self.escape_sequence = EscapeSequence::Idle;
                let key = arrow_key(c);
                Some(KeyEvent { key, meta: self.meta_pressed, ctrl: true, shift: false })
            },
        }
    }

    /// The event for a byte read outside an escape sequence.
    fn process_char(&mut self, c: u8) -> (r: Option<KeyEvent>)
        ensures
            *final(self) == *old(self),
            r == Some(plain_event(c, old(self).meta_pressed)),
    {
        if c < 0x20 {
            if c == 0x0A || c == 0x0D {
                return Some(KeyEvent { key: Key::Enter, meta: false, ctrl: false, shift: false });
            } else if c == 0x08 {
                return Some(KeyEvent { key: Key::Backspace, meta: false, ctrl: false, shift: false });
            } else {
                return Some(KeyEvent { key: Key::Char(c), meta: false, ctrl: true, shift: false });
            }
        }
        Some(
            KeyEvent {
                key: Key::Char(c),
                meta: self.meta_pressed,
                ctrl: false,
                shift: c >= 0x41 && c <= 0x5A,
            },
        )
    }
}

} // verus!
