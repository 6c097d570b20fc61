//! The pointer: gestures on the overlay while it shows, and the SGR report that an
//! event becomes when it is sent on to a session.

use vstd::prelude::*;
use crate::geometry::Rect;
use crate::input::keyboard::ESC;
use crate::input::wire::{decimal, push_decimal, Action, Effect, Outcome};
use crate::lease::Lease;
use crate::screen::MAX_COLS;

verus! {

/// A button of the pointer.
#[derive(Clone, Copy, Debug, PartialEq, Eq, Structural)]
pub enum MouseButton {
    Left,
    Right,
    Middle,
}

/// What the pointer did.
#[derive(Clone, Copy, Debug, PartialEq, Eq, Structural)]
pub enum MouseEventKind {
    Down(MouseButton),
    Up(MouseButton),
    Drag(MouseButton),
    Moved,
    ScrollDown,
    ScrollUp,
    ScrollLeft,
    ScrollRight,
}

/// A pointer event at a cell of the terminal, counted from 0.
#[derive(Clone, Copy, Debug, PartialEq, Eq, Structural)]
pub struct MouseEvent {
    pub kind: MouseEventKind,
    pub column: u16,
    pub row: u16,
}

/// Says whether the event's cell lies in `r`.
pub fn is_within_overlay(m: MouseEvent, r: Rect) -> (inside: bool)
    ensures
        inside == r.contains(m.column, m.row),
{
    let x = m.column as u32;
    let y = m.row as u32;
    x >= r.x as u32 && x < r.x as u32 + r.width as u32 && y >= r.y as u32 && y < r.y as u32
        + r.height as u32
}

/// The number of a button in a report: left 0, middle 1, right 2.
pub open spec fn button_number(button: MouseButton) -> nat {
    match button {
        MouseButton::Left => 0,
        MouseButton::Middle => 1,
        MouseButton::Right => 2,
    }
}

/// The button code and the final byte of the report of an event; `None` for an event
/// that is not reported. A press reports the button's number, a drag adds 32, and both
/// end in `M`; a release reports the number and ends in `m`; the wheel reports 64 up
/// and 65 down, ending in `M`.
pub open spec fn report_code(kind: MouseEventKind) -> Option<(nat, u8)> {
    match kind {
        MouseEventKind::Down(button) => Some((button_number(button), 77u8)),
        MouseEventKind::Up(button) => Some((button_number(button), 109u8)),
        MouseEventKind::Drag(button) => Some((32 + button_number(button), 77u8)),
        MouseEventKind::ScrollUp => Some((64nat, 77u8)),
        MouseEventKind::ScrollDown => Some((65nat, 77u8)),
        _ => None,
    }
}

/// The SGR report of an event: `ESC [ < code ; column ; row` and the final byte, with
/// column and row counted from 1.
pub open spec fn mouse_report(m: MouseEvent) -> Option<Seq<u8>> {
    match report_code(m.kind) {
        Some((code, last)) => Some(
            seq![ESC, 91u8, 60u8] + decimal(code) + seq![59u8] + decimal((m.column + 1) as nat)
                + seq![59u8] + decimal((m.row + 1) as nat) + seq![last],
        ),
        None => None,
    }
}

/// Encodes an event as the SGR report to send to a session.
pub fn encode_mouse(m: MouseEvent) -> (bytes: Option<Vec<u8>>)
    ensures
        match mouse_report(m) {
            Some(report) => bytes matches Some(b) && b@ == report,
            None => bytes is None,
        },
{
    let (code, last): (u32, u8) = match m.kind {
        MouseEventKind::Down(button) => (button_code(button), 77),
        MouseEventKind::Up(button) => (button_code(button), 109),
        MouseEventKind::Drag(button) => (32 + button_code(button), 77),
        MouseEventKind::ScrollUp => (64, 77),
        MouseEventKind::ScrollDown => (65, 77),
        _ => {
            return None;
        },
    };
    let mut bytes: Vec<u8> = vec![ESC, 91, 60];
    push_decimal(&mut bytes, code);
    bytes.push(59);
    push_decimal(&mut bytes, m.column as u32 + 1);
    bytes.push(59);
    push_decimal(&mut bytes, m.row as u32 + 1);
    bytes.push(last);
    assert(bytes@ =~= mouse_report(m)->0);
    Some(bytes)
}

fn button_code(button: MouseButton) -> (code: u32)
    ensures
        code == button_number(button),
{
    match button {
        MouseButton::Left => 0,
        MouseButton::Middle => 1,
        MouseButton::Right => 2,
    }
}

/// What a pointer event does to a lease on a terminal of `bounds`.
///
/// A left press on the overlay starts a gesture; a left press beside it hides the
/// overlay; either only while the overlay shows. A left drag carries the gesture on,
/// and where that changes the window's extent, the new extent is pushed to the tenant.
/// A left release ends the gesture. Nothing else has any effect.
pub open spec fn mouse_outcome(lease: Lease, m: MouseEvent, bounds: (u16, u16)) -> Outcome {
    let idle = Outcome {
        tenant: lease.tenant,
        visible: lease.tenant_visible,
        effect: Effect::Nothing,
    };
    match m.kind {
        MouseEventKind::Down(MouseButton::Left) => if !lease.tenant_visible {
            idle
        } else if lease.tenant.rect.contains(m.column, m.row) {
            Outcome { tenant: lease.tenant.after_press(m.column, m.row), ..idle }
        } else {
            Outcome { visible: false, ..idle }
        },
        MouseEventKind::Drag(MouseButton::Left) => {
            let tenant = lease.tenant.after_drag(m.column, m.row, bounds);
            Outcome {
                tenant,
                visible: lease.tenant_visible,
                effect: if tenant.rect.width != lease.tenant.rect.width || tenant.rect.height
                    != lease.tenant.rect.height {
                    Effect::Resize(tenant.rect.height, tenant.rect.width)
                } else {
                    Effect::Nothing
                },
            }
        },
        MouseEventKind::Up(MouseButton::Left) => Outcome {
            tenant: lease.tenant.after_release(),
            ..idle
        },
        _ => idle,
    }
}

/// Handles one pointer event for the overlay on a terminal of `bounds` = (columns,
/// rows), and returns what is left to do. The terminal is no wider than a screen can
/// be.
pub fn handle_mouse(lease: &mut Lease, m: MouseEvent, bounds: (u16, u16)) -> (action: Action)
    requires
        old(lease).wf(),
        bounds.0 <= MAX_COLS,
    ensures
        final(lease).wf(),
        final(lease).session == old(lease).session,
        final(lease).tenant == mouse_outcome(*old(lease), m, bounds).tenant,
        final(lease).tenant_visible == mouse_outcome(*old(lease), m, bounds).visible,
        action@ == mouse_outcome(*old(lease), m, bounds).effect,
        !(action@ is Resize) ==> final(lease).tenant_parser == old(lease).tenant_parser,
        action@ matches Effect::Resize(rows, cols) ==> final(lease).tenant_parser.text() == old(lease).tenant_parser.text_after_resize(rows, cols),
{
    match m.kind {
        MouseEventKind::Down(MouseButton::Left) => {
            if is_within_overlay(m, lease.tenant.rect) {
                if lease.tenant_visible {
                    lease.tenant.begin_gesture(m.column, m.row);
                }
            } else {
                if lease.tenant_visible {
                    lease.tenant_visible = false;
                }
            }
            Action::Nothing
        },
        MouseEventKind::Drag(MouseButton::Left) => {
            lease.tenant.update_gesture(m.column, m.row, bounds);
            Action::resize(lease.sync_screen())
        },
        MouseEventKind::Up(MouseButton::Left) => {
            lease.tenant.end_gesture();
            Action::Nothing
        },
        _ => Action::Nothing,
    }
}

} // verus!
