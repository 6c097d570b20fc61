//! The owner's side: the primary session's screen, the lease on the overlay, and the
//! decisions of the event loop that drives both.

use vstd::prelude::*;
use crate::constants::{DEFAULT_HEIGHT, DEFAULT_WIDTH};
use crate::geometry::{Overlay, Rect, Size};
use crate::input::keyboard::{handle_keyboard_input, key_outcome, KeyEvent};
use crate::input::mouse::{encode_mouse, handle_mouse, mouse_outcome, mouse_report, MouseEvent};
use crate::input::wire::{Action, Effect, Outcome};
use crate::lease::{next_session, Lease};
use crate::screen::{is_usable_size, usable_size, ScreenModel, MAX_COLS};
use crate::session::{
    absorb_output, absorb_owner_output, flag_after_output, reader_step, text_after_output,
    ReadOutcome, ReaderStep, SessionEvent,
};

verus! {

/// One of the two sessions.
#[derive(Clone, Copy, Debug, PartialEq, Eq, Structural)]
pub enum Target {
    Owner,
    Tenant,
}

/// What is left to do after an event, and the session that had the input when the
/// event came: bytes to forward go to that session.
#[derive(Debug)]
pub struct Routed {
    pub target: Target,
    pub action: Action,
}

/// The session that has the input: the tenant while the overlay shows and its tenant
/// lives, the owner otherwise.
pub open spec fn input_holder(lease: Lease) -> Target {
    if lease.tenant_visible && !lease.dead() {
        Target::Tenant
    } else {
        Target::Owner
    }
}

/// The lease once an overlay without a live tenant has been taken out of view.
pub open spec fn settled(lease: Lease) -> Lease {
    lease.after_expired()
}

/// What a pointer event does, given the lease and the mouse-mode flag.
///
/// While the overlay is hidden the event is for the owner: with the flag set it is
/// forwarded as its report, with the flag clear it is dropped. While the overlay shows
/// the event is a gesture on the overlay.
pub open spec fn mouse_routing(lease: Lease, flag: bool, m: MouseEvent, bounds: (u16, u16)) -> Outcome {
    if !lease.tenant_visible {
        Outcome {
            tenant: lease.tenant,
            visible: false,
            effect: match mouse_report(m) {
                Some(report) => if flag {
                    Effect::Forward(report)
                } else {
                    Effect::Nothing
                },
                None => Effect::Nothing,
            },
        }
    } else {
        mouse_outcome(lease, m, bounds)
    }
}

/// The owner session's view of the world.
pub struct Container {
    /// The whole terminal.
    pub rect: Rect,
    pub size: Size,
    /// The screen of the owner's session.
    pub parser: ScreenModel,
    pub lease: Lease,
    /// Whether the owner's program has asked for mouse reports, as far as its output
    /// tells.
    pub mouse_mode_enabled: bool,
}

impl Container {
    /// The lease is well formed, and the owner's screen and `rect` both have the size
    /// of the terminal.
    pub open spec fn wf(&self) -> bool {
        &&& self.lease.wf()
        &&& self.parser.wf()
        &&& self.parser.rows() == self.size.rows
        &&& self.parser.cols() == self.size.cols
        &&& self.rect == (Rect { x: 0, y: 0, width: self.size.cols, height: self.size.rows })
    }

    /// The terminal's size as (columns, rows).
    pub open spec fn bounds(&self) -> (u16, u16) {
        (self.size.cols, self.size.rows)
    }

    /// Says whether the container is well formed.
    pub fn is_well_formed(&self) -> (ok: bool)
        ensures
            ok == self.wf(),
    {
        let (rows, cols) = self.parser.size();
        self.lease.is_well_formed() && is_usable_size(rows, cols) && rows == self.size.rows && cols
            == self.size.cols && self.rect.x == 0 && self.rect.y == 0 && self.rect.width
            == self.size.cols && self.rect.height == self.size.rows
    }

    /// A container for a terminal of `term_size` = (columns, rows), or of the default
    /// size where the terminal's size is not known, with both screens blank. The
    /// terminal must be of a size that a screen can have.
    pub fn new(term_size: Option<(u16, u16)>) -> (container: Self)
        requires
            term_size matches Some((cols, rows)) ==> usable_size(rows, cols),
        ensures
            container.wf(),
            container.bounds() == (match term_size {
                Some(size) => size,
                None => (DEFAULT_WIDTH, DEFAULT_HEIGHT),
            }),
            container.parser.text() == Seq::<char>::empty(),
            container.lease.tenant == Overlay::fresh(),
            container.lease.tenant_parser.text() == Seq::<char>::empty(),
            !container.lease.tenant_visible,
            container.lease.session == 0,
            !container.mouse_mode_enabled,
    {
        let (cols, rows) = match term_size {
            Some(size) => size,
            None => (DEFAULT_WIDTH, DEFAULT_HEIGHT),
        };
        Container {
            rect: Rect { x: 0, y: 0, width: cols, height: rows },
            size: Size { cols, rows },
            parser: ScreenModel::new(rows, cols),
            lease: Lease::new(),
            mouse_mode_enabled: false,
        }
    }

    /// Says whether a tenant lives behind the lease.
    pub fn tenant_running(&self) -> (running: bool)
        ensures
            running == !self.lease.dead(),
    {
        !self.lease.tenant.is_dead
    }

    /// Says which session has the input, and takes an overlay without a live tenant
    /// out of view.
    pub fn input_target(&mut self) -> (target: Target)
        ensures
            target == input_holder(old(self).lease),
            *final(self) == (Container { lease: settled(old(self).lease), ..*old(self) }),
            old(self).wf() ==> final(self).wf(),
    {
        if self.lease.tenant_visible {
            if self.tenant_running() {
                return Target::Tenant;
            }
            self.lease.tenant_visible = false;
        }
        Target::Owner
    }

    /// Handles a key press on a terminal of `term_size` = (columns, rows).
    pub fn on_key(&mut self, key_event: KeyEvent, term_size: (u16, u16)) -> (routed: Routed)
        requires
            old(self).wf(),
            term_size.0 <= MAX_COLS,
        ensures
            final(self).wf(),
            routed.target == input_holder(old(self).lease),
            routed.action@ == key_outcome(settled(old(self).lease), key_event, term_size).effect,
            final(self).lease.tenant == key_outcome(
                settled(old(self).lease),
                key_event,
                term_size,
            ).tenant,
            final(self).lease.tenant_visible == key_outcome(
                settled(old(self).lease),
                key_event,
                term_size,
            ).visible,
            final(self).lease.session == old(self).lease.session,
            !(routed.action@ is Resize) ==> final(self).lease.tenant_parser == old(self).lease.tenant_parser,
            routed.action@ matches Effect::Resize(rows, cols) ==> final(self).lease.tenant_parser.text() == old(self).lease.tenant_parser.text_after_resize(
                rows,
                cols,
            ),
            final(self).rect == old(self).rect,
            final(self).size == old(self).size,
            final(self).parser == old(self).parser,
            final(self).mouse_mode_enabled == old(self).mouse_mode_enabled,
    {
        let target = self.input_target();
        let action = handle_keyboard_input(&mut self.lease, key_event, term_size);
        Routed { target, action }
    }

    /// Handles a pointer event on a terminal of `term_size` = (columns, rows).
    ///
    /// With the overlay hidden and the mouse-mode flag clear, nothing is forwarded and
    /// nothing changes, whatever the event.
    pub fn on_mouse(&mut self, m: MouseEvent, term_size: (u16, u16)) -> (routed: Routed)
        requires
            old(self).wf(),
            term_size.0 <= MAX_COLS,
        ensures
            final(self).wf(),
            routed.target == input_holder(old(self).lease),
            routed.action@ == mouse_routing(
                settled(old(self).lease),
                old(self).mouse_mode_enabled,
                m,
                term_size,
            ).effect,
            final(self).lease.tenant == mouse_routing(
                settled(old(self).lease),
                old(self).mouse_mode_enabled,
                m,
                term_size,
            ).tenant,
            final(self).lease.tenant_visible == mouse_routing(
                settled(old(self).lease),
                old(self).mouse_mode_enabled,
                m,
                term_size,
            ).visible,
            final(self).lease.session == old(self).lease.session,
            !(routed.action@ is Resize) ==> final(self).lease.tenant_parser == old(self).lease.tenant_parser,
            routed.action@ matches Effect::Resize(rows, cols) ==> final(self).lease.tenant_parser.text() == old(self).lease.tenant_parser.text_after_resize(
                rows,
                cols,
            ),
            final(self).rect == old(self).rect,
            final(self).size == old(self).size,
            final(self).parser == old(self).parser,
            final(self).mouse_mode_enabled == old(self).mouse_mode_enabled,
            !old(self).lease.tenant_visible && !old(self).mouse_mode_enabled ==> {
                &&& routed.action@ is Nothing
                &&& *final(self) == *old(self)
            },
    {
        let target = self.input_target();
        let action = if !self.lease.tenant_visible {
            if self.mouse_mode_enabled {
                match encode_mouse(m) {
                    Some(report) => Action::forward(report),
                    None => Action::Nothing,
                }
            } else {
                Action::Nothing
            }
        } else {
            handle_mouse(&mut self.lease, m, term_size)
        };
        Routed { target, action }
    }

    /// Handles a change of the terminal's size to `cols` x `rows`. The owner's screen
    /// follows, unless no screen can have that size. While the overlay shows, its size
    /// is pushed to the tenant once more.
    pub fn on_resize(&mut self, cols: u16, rows: u16) -> (action: Action)
        requires
            old(self).wf(),
        ensures
            final(self).wf(),
            final(self).bounds() == (if usable_size(rows, cols) {
                (cols, rows)
            } else {
                old(self).bounds()
            }),
            final(self).parser.text() == old(self).parser.text_after_resize(rows, cols),
            final(self).lease.tenant_parser.text() == (if old(self).lease.tenant_visible {
                old(self).lease.tenant_parser.text_after_resize(
                    old(self).lease.tenant.rect.height,
                    old(self).lease.tenant.rect.width,
                )
            } else {
                old(self).lease.tenant_parser.text()
            }),
            final(self).lease.tenant == old(self).lease.tenant,
            final(self).lease.tenant_visible == old(self).lease.tenant_visible,
            final(self).lease.session == old(self).lease.session,
            final(self).mouse_mode_enabled == old(self).mouse_mode_enabled,
            action@ == (if old(self).lease.tenant_visible {
                Effect::Resize(old(self).lease.tenant.rect.height, old(self).lease.tenant.rect.width)
            } else {
                Effect::Nothing
            }),
    {
        if is_usable_size(rows, cols) {
            self.parser.resize(rows, cols);
            self.size = Size { cols, rows };
            self.rect = Rect { x: 0, y: 0, width: cols, height: rows };
        }
        if self.lease.tenant_visible {
            let rows = self.lease.tenant.rect.height;
            let cols = self.lease.tenant.rect.width;
            Action::resize(self.lease.resize_screen(rows, cols))
        } else {
            Action::Nothing
        }
    }

    /// One turn of the owner's reader: output goes to the owner's screen, and the
    /// mouse-mode flag follows what the output asks for.
    pub fn absorb_owner(&mut self, pending: &mut Vec<u8>, term: &[u8], outcome: ReadOutcome) -> (step:
        ReaderStep)
        requires
            old(self).wf(),
        ensures
            final(self).wf(),
            step == reader_step(outcome),
            final(self).mouse_mode_enabled == flag_after_output(
                old(self).mouse_mode_enabled,
                old(pending)@,
                outcome,
                term@,
            ),
            final(self).parser.text() == text_after_output(
                old(self).parser,
                old(pending)@,
                outcome,
            ),
            final(self).rect == old(self).rect,
            final(self).size == old(self).size,
            final(self).lease == old(self).lease,
            step is Continue ==> final(pending)@.len() == 0,
            step is Stop ==> *final(pending) == *old(pending) && *final(self) == *old(self),
    {
        let (step, flag) = absorb_owner_output(
            pending,
            &mut self.parser,
            self.mouse_mode_enabled,
            term,
            outcome,
        );
        self.mouse_mode_enabled = flag;
        step
    }

    /// One turn of the reader of tenant session `session`: output goes to the tenant's
    /// screen. The output of a session that the lease no longer stands for is at its
    /// end as far as the lease goes: it touches nothing.
    pub fn absorb_tenant(&mut self, session: u64, pending: &mut Vec<u8>, outcome: ReadOutcome) -> (step:
        ReaderStep)
        requires
            old(self).wf(),
        ensures
            final(self).wf(),
            step == (if session == old(self).lease.session {
                reader_step(outcome)
            } else {
                ReaderStep::Stop(SessionEvent::OutputClosed)
            }),
            final(self).rect == old(self).rect,
            final(self).size == old(self).size,
            final(self).parser == old(self).parser,
            final(self).mouse_mode_enabled == old(self).mouse_mode_enabled,
            final(self).lease.tenant_parser.text() == (if session == old(self).lease.session {
                text_after_output(old(self).lease.tenant_parser, old(pending)@, outcome)
            } else {
                old(self).lease.tenant_parser.text()
            }),
            final(self).lease.tenant == old(self).lease.tenant,
            final(self).lease.tenant_visible == old(self).lease.tenant_visible,
            final(self).lease.session == old(self).lease.session,
            step is Continue ==> final(pending)@.len() == 0,
            step is Stop ==> *final(pending) == *old(pending) && *final(self) == *old(self),
    {
        if session == self.lease.session {
            absorb_output(pending, &mut self.lease.tenant_parser, outcome)
        } else {
            ReaderStep::Stop(SessionEvent::OutputClosed)
        }
    }

    /// Says whether what came over the owner's liveness signal ends the program: the
    /// owner's death does.
    pub fn owner_gone(signal: Option<bool>) -> (gone: bool)
        ensures
            gone == (signal == Some(true)),
    {
        match signal {
            Some(true) => true,
            _ => false,
        }
    }

    /// Takes note of what came over the liveness signal of tenant session `session`: on
    /// the death of the tenant that the lease stands for, the lease dies and the
    /// overlay goes out of view. The signal of any other session changes nothing.
    pub fn note_tenant_signal(&mut self, session: u64, signal: Option<bool>)
        ensures
            *final(self) == (Container {
                lease: if signal == Some(true) && session == old(self).lease.session {
                    old(self).lease.after_exit()
                } else {
                    old(self).lease
                },
                ..*old(self)
            }),
            old(self).wf() ==> final(self).wf(),
    {
        if let Some(true) = signal {
            if session == self.lease.session {
                self.lease.tenant_exited();
            }
        }
    }

    /// Replaces a dead lease by the lease that follows it, and hands back the dead one
    /// for its cleanup. A lease that lives is left alone.
    pub fn renew_if_expired(&mut self) -> (dead: Option<Lease>)
        requires
            old(self).wf(),
        ensures
            final(self).wf(),
            final(self).rect == old(self).rect,
            final(self).size == old(self).size,
            final(self).parser == old(self).parser,
            final(self).mouse_mode_enabled == old(self).mouse_mode_enabled,
            match dead {
                Some(lease) => {
                    &&& old(self).lease.dead()
                    &&& lease == old(self).lease.after_expired()
                    &&& final(self).lease.tenant == Overlay::fresh()
                    &&& final(self).lease.tenant_parser.text() == Seq::<char>::empty()
                    &&& !final(self).lease.tenant_visible
                    &&& final(self).lease.session == next_session(old(self).lease.session)
                    &&& final(self).lease.session != old(self).lease.session
                },
                None => !old(self).lease.dead() && *final(self) == *old(self),
            },
    {
        if self.lease.expired() {
            let mut fresh = self.lease.renew();
            core::mem::swap(&mut self.lease, &mut fresh);
            Some(fresh)
        } else {
            None
        }
    }
}

} // verus!
