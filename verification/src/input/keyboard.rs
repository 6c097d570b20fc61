//! Keys: the table from a key and its modifiers to the bytes a terminal program
//! expects, and the keys that act on the overlay instead of being sent.

use vstd::prelude::*;
use crate::geometry::Overlay;
use crate::input::wire::{push_utf8, utf8, Action, Effect, Outcome};
use crate::lease::Lease;
use crate::screen::MAX_COLS;

verus! {

/// A key of the keyboard.
#[derive(Clone, Copy, Debug, PartialEq, Eq, Structural)]
pub enum KeyCode {
    Backspace,
    Enter,
    Left,
    Right,
    Up,
    Down,
    Home,
    End,
    PageUp,
    PageDown,
    Tab,
    BackTab,
    Delete,
    Insert,
    /// A function key, by its number.
    F(u8),
    /// A key that types a character.
    Char(char),
    Null,
    Esc,
    CapsLock,
    ScrollLock,
    NumLock,
    PrintScreen,
    Pause,
    Menu,
    KeypadBegin,
    /// A media key.
    Media,
    /// A modifier key pressed on its own.
    Modifier,
}

/// The modifier keys held while a key is pressed.
#[derive(Clone, Copy, Debug, PartialEq, Eq, Structural)]
pub struct KeyModifiers {
    pub shift: bool,
    pub control: bool,
    pub alt: bool,
}

/// A key press.
#[derive(Clone, Copy, Debug, PartialEq, Eq, Structural)]
pub struct KeyEvent {
    pub code: KeyCode,
    pub modifiers: KeyModifiers,
}

pub const ESC: u8 = 27;

/// The final byte of the sequence of an arrow key; `None` for any other key.
pub open spec fn arrow_letter(code: KeyCode) -> Option<u8> {
    match code {
        KeyCode::Up => Some(65u8),
        KeyCode::Down => Some(66u8),
        KeyCode::Right => Some(67u8),
        KeyCode::Left => Some(68u8),
        _ => None,
    }
}

/// The sequence of function key `n`: `ESC O P` to `ESC O S` for F1 to F4, and
/// `ESC [ code ~` with the VT code of the key for F5 to F12. Other numbers have none.
pub open spec fn function_key_sequence(n: u8) -> Option<Seq<u8>> {
    if 1 <= n <= 4 {
        Some(seq![ESC, 79u8, (79 + n) as u8])
    } else if 5 <= n <= 12 {
        let code: int = if n == 5 {
            15
        } else if n <= 10 {
            n + 11
        } else {
            n + 12
        };
        Some(seq![ESC, 91u8, (48 + code / 10) as u8, (48 + code % 10) as u8, 126u8])
    } else {
        None
    }
}

/// The byte that a character key sends with Control held: the low five bits of the
/// character's number.
pub open spec fn control_byte(c: char) -> u8 {
    ((c as u32) & 0x1F) as u8
}

/// The byte that a character key sends after `ESC` with Alt held: the low eight bits
/// of the character's number.
pub open spec fn low_byte(c: char) -> u8 {
    ((c as u32) & 0xFF) as u8
}

/// The bytes that a key sends to a session, `None` for a key that sends nothing.
///
/// An arrow key sends `ESC [ 1 ; 2 x` with Shift, `ESC [ 1 ; 5 x` with Control (Shift
/// wins where both are held) and `ESC [ x` otherwise. A character sends its control
/// byte with Control, `ESC` and its low byte with Alt (Control wins), and its UTF-8
/// encoding otherwise. Home is never sent: it shows and hides the overlay.
pub open spec fn key_sequence(code: KeyCode, modifiers: KeyModifiers) -> Option<Seq<u8>> {
    match arrow_letter(code) {
        Some(letter) => Some(
            if modifiers.shift {
                seq![ESC, 91u8, 49u8, 59u8, 50u8, letter]
            } else if modifiers.control {
                seq![ESC, 91u8, 49u8, 59u8, 53u8, letter]
            } else {
                seq![ESC, 91u8, letter]
            },
        ),
        None => match code {
            KeyCode::Char(c) => Some(
                if modifiers.control {
                    seq![control_byte(c)]
                } else if modifiers.alt {
                    seq![ESC, low_byte(c)]
                } else {
                    utf8(c)
                },
            ),
            KeyCode::Enter => Some(seq![13u8]),
            KeyCode::Backspace => Some(seq![8u8]),
            KeyCode::Tab => Some(seq![9u8]),
            KeyCode::Esc => Some(seq![ESC]),
            KeyCode::BackTab => Some(seq![ESC, 91u8, 90u8]),
            KeyCode::End => Some(seq![ESC, 91u8, 70u8]),
            KeyCode::Delete => Some(seq![ESC, 91u8, 51u8, 126u8]),
            KeyCode::PageUp => Some(seq![ESC, 91u8, 53u8, 126u8]),
            KeyCode::PageDown => Some(seq![ESC, 91u8, 54u8, 126u8]),
            KeyCode::F(n) => function_key_sequence(n),
            _ => None,
        },
    }
}

/// Encodes a key as the bytes it sends to a session.
pub fn encode_key(code: KeyCode, modifiers: KeyModifiers) -> (bytes: Option<Vec<u8>>)
    ensures
        match key_sequence(code, modifiers) {
            Some(sequence) => bytes matches Some(b) && b@ == sequence,
            None => bytes is None,
        },
{
    let letter: u8 = match code {
        KeyCode::Up => 65,
        KeyCode::Down => 66,
        KeyCode::Right => 67,
        KeyCode::Left => 68,
        _ => 0,
    };
    if letter != 0 {
        let bytes = if modifiers.shift {
            vec![ESC, 91, 49, 59, 50, letter]
        } else if modifiers.control {
            vec![ESC, 91, 49, 59, 53, letter]
        } else {
            vec![ESC, 91, letter]
        };
        return Some(bytes);
    }
    match code {
        KeyCode::Char(c) => {
            let v: u32 = c as u32;
            if modifiers.control {
                Some(vec![(v & 0x1F) as u8])
            } else if modifiers.alt {
                Some(vec![ESC, (v & 0xFF) as u8])
            } else {
                let mut bytes: Vec<u8> = Vec::new();
                push_utf8(&mut bytes, c);
                Some(bytes)
            }
        },
        KeyCode::Enter => Some(vec![13]),
        KeyCode::Backspace => Some(vec![8]),
        KeyCode::Tab => Some(vec![9]),
        KeyCode::Esc => Some(vec![ESC]),
        KeyCode::BackTab => Some(vec![ESC, 91, 90]),
        KeyCode::End => Some(vec![ESC, 91, 70]),
        KeyCode::Delete => Some(vec![ESC, 91, 51, 126]),
        KeyCode::PageUp => Some(vec![ESC, 91, 53, 126]),
        KeyCode::PageDown => Some(vec![ESC, 91, 54, 126]),
        KeyCode::F(n) => match n {
            1 => Some(vec![ESC, 79, 80]),
            2 => Some(vec![ESC, 79, 81]),
            3 => Some(vec![ESC, 79, 82]),
            4 => Some(vec![ESC, 79, 83]),
            5 => Some(vec![ESC, 91, 49, 53, 126]),
            6 => Some(vec![ESC, 91, 49, 55, 126]),
            7 => Some(vec![ESC, 91, 49, 56, 126]),
            8 => Some(vec![ESC, 91, 49, 57, 126]),
            9 => Some(vec![ESC, 91, 50, 48, 126]),
            10 => Some(vec![ESC, 91, 50, 49, 126]),
            11 => Some(vec![ESC, 91, 50, 51, 126]),
            12 => Some(vec![ESC, 91, 50, 52, 126]),
            _ => None,
        },
        _ => None,
    }
}

/// The overlay that a key asks for while the overlay shows; `None` for a key that
/// leaves the geometry alone.
///
/// Shift and an arrow ask for a window one cell narrower, wider, shorter or taller.
/// Control and an arrow ask for the window one cell to the left, right, up or down.
/// Shift wins where both are held.
pub open spec fn key_reshape(overlay: Overlay, key: KeyEvent, bounds: (u16, u16)) -> Option<Overlay> {
    let r = overlay.rect;
    if key.modifiers.shift {
        match key.code {
            KeyCode::Left => Some(
                overlay.after_resize(r.x, r.y, r.width.saturating_sub(1), r.height, bounds),
            ),
            KeyCode::Right => Some(
                overlay.after_resize(r.x, r.y, r.width.saturating_add(1), r.height, bounds),
            ),
            KeyCode::Up => Some(
                overlay.after_resize(r.x, r.y, r.width, r.height.saturating_sub(1), bounds),
            ),
            KeyCode::Down => Some(
                overlay.after_resize(r.x, r.y, r.width, r.height.saturating_add(1), bounds),
            ),
            _ => None,
        }
    } else if key.modifiers.control {
        match key.code {
            KeyCode::Left => Some(overlay.after_move(r.x.saturating_sub(1), r.y, bounds)),
            KeyCode::Right => Some(overlay.after_move(r.x.saturating_add(1), r.y, bounds)),
            KeyCode::Up => Some(overlay.after_move(r.x, r.y.saturating_sub(1), bounds)),
            KeyCode::Down => Some(overlay.after_move(r.x, r.y.saturating_add(1), bounds)),
            _ => None,
        }
    } else {
        None
    }
}

/// What a key press does to a lease on a terminal of `bounds`.
///
/// Home shows or hides the overlay and sends nothing. While the overlay shows, a key
/// of [`key_reshape`] changes the window and sends nothing; where that changes the
/// window's extent, the new extent is pushed to the tenant. Every other key is sent to
/// the session that has the input, as the bytes of [`key_sequence`].
pub open spec fn key_outcome(lease: Lease, key: KeyEvent, bounds: (u16, u16)) -> Outcome {
    if key.code == KeyCode::Home {
        Outcome {
            tenant: lease.tenant,
            visible: lease.after_toggle().tenant_visible,
            effect: Effect::Nothing,
        }
    } else if lease.tenant_visible && key_reshape(lease.tenant, key, bounds) is Some {
        let tenant = key_reshape(lease.tenant, key, bounds)->0;
        Outcome {
            tenant,
            visible: true,
            effect: if tenant.rect.width != lease.tenant.rect.width || tenant.rect.height
                != lease.tenant.rect.height {
                Effect::Resize(tenant.rect.height, tenant.rect.width)
            } else {
                Effect::Nothing
            },
        }
    } else {
        Outcome {
            tenant: lease.tenant,
            visible: lease.tenant_visible,
            effect: match key_sequence(key.code, key.modifiers) {
                Some(sequence) => Effect::Forward(sequence),
                None => Effect::Nothing,
            },
        }
    }
}

/// Handles one key press on a terminal of `term_size` = (columns, rows): acts on the
/// overlay where the key is meant for it, and returns what is left to do. The terminal
/// is no wider than a screen can be.
pub fn handle_keyboard_input(lease: &mut Lease, key_event: KeyEvent, term_size: (u16, u16)) -> (action:
    Action)
    requires
        old(lease).wf(),
        term_size.0 <= MAX_COLS,
    ensures
        final(lease).wf(),
        final(lease).session == old(lease).session,
        final(lease).tenant == key_outcome(*old(lease), key_event, term_size).tenant,
        final(lease).tenant_visible == key_outcome(*old(lease), key_event, term_size).visible,
        action@ == key_outcome(*old(lease), key_event, term_size).effect,
        !(action@ is Resize) ==> final(lease).tenant_parser == old(lease).tenant_parser,
        action@ matches Effect::Resize(rows, cols) ==> final(lease).tenant_parser.text() == old(lease).tenant_parser.text_after_resize(rows, cols),
{
    if let KeyCode::Home = key_event.code {
        lease.toggle_visibility();
        return Action::Nothing;
    }
    if lease.tenant_visible {
        let rect = lease.tenant.rect;
        if key_event.modifiers.shift {
            let ask: Option<(u16, u16)> = match key_event.code {
                KeyCode::Left => Some((rect.width.saturating_sub(1), rect.height)),
                KeyCode::Right => Some((rect.width.saturating_add(1), rect.height)),
                KeyCode::Up => Some((rect.width, rect.height.saturating_sub(1))),
                KeyCode::Down => Some((rect.width, rect.height.saturating_add(1))),
                _ => None,
            };
            if let Some((width, height)) = ask {
                lease.tenant.resize_to(rect.x, rect.y, width, height, term_size);
                return Action::resize(lease.sync_screen());
            }
        } else if key_event.modifiers.control {
            let ask: Option<(u16, u16)> = match key_event.code {
                KeyCode::Left => Some((rect.x.saturating_sub(1), rect.y)),
                KeyCode::Right => Some((rect.x.saturating_add(1), rect.y)),
                KeyCode::Up => Some((rect.x, rect.y.saturating_sub(1))),
                KeyCode::Down => Some((rect.x, rect.y.saturating_add(1))),
                _ => None,
            };
            if let Some((x, y)) = ask {
                lease.tenant.move_to(x, y, term_size);
                return Action::Nothing;
            }
        }
    }
    match encode_key(key_event.code, key_event.modifiers) {
        Some(bytes) => Action::forward(bytes),
        None => Action::Nothing,
    }
}

} // verus!
