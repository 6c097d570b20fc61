//! The lease: the tenant's window, its screen and its liveness, held together for as
//! long as one tenant session lives and replaced as a whole when it has died.

use vstd::prelude::*;
use crate::constants::{DEFAULT_HEIGHT, DEFAULT_WIDTH};
use crate::geometry::Overlay;
use crate::screen::{is_usable_size, usable_size, ScreenModel, MAX_COLS};

verus! {

/// The number of the session that follows session `id`. It differs from `id`.
pub open spec fn next_session(id: u64) -> u64 {
    if id == u64::MAX {
        0
    } else {
        (id + 1) as u64
    }
}

/// One tenancy of the overlay.
///
/// A lease starts out dead: it has a window and a screen, but no tenant yet. It is
/// alive from [`Lease::tenant_started`] to [`Lease::tenant_exited`], and never comes
/// back to life after that: [`Lease::renew`] makes the next one.
pub struct Lease {
    pub tenant: Overlay,
    pub tenant_parser: ScreenModel,
    pub tenant_visible: bool,
    /// The number of the tenant session that this lease stands for.
    pub session: u64,
}

impl Lease {
    /// The window is well formed and the screen has exactly the window's size.
    pub open spec fn wf(&self) -> bool {
        &&& self.tenant.wf()
        &&& self.tenant_parser.wf()
        &&& self.tenant_parser.rows() == self.tenant.rect.height
        &&& self.tenant_parser.cols() == self.tenant.rect.width
    }

    /// The tenant is dead, or was never started.
    pub open spec fn dead(&self) -> bool {
        self.tenant.is_dead
    }

    /// The size that the screen has yet to take to be in step with the window, as
    /// (rows, columns); `None` where the two agree.
    pub open spec fn screen_lag(&self) -> Option<(u16, u16)> {
        if self.tenant_parser.rows() != self.tenant.rect.height || self.tenant_parser.cols()
            != self.tenant.rect.width {
            Some((self.tenant.rect.height, self.tenant.rect.width))
        } else {
            None
        }
    }

    /// This lease once its tenant has been started.
    pub open spec fn after_start(self) -> Lease {
        Lease { tenant: Overlay { is_dead: false, ..self.tenant }, ..self }
    }

    /// This lease once its tenant's death has been noticed: dead and out of view.
    pub open spec fn after_exit(self) -> Lease {
        Lease { tenant: Overlay { is_dead: true, ..self.tenant }, tenant_visible: false, ..self }
    }

    /// This lease after a request to show or hide the overlay. A dead lease has
    /// nothing to show and stays as it is.
    pub open spec fn after_toggle(self) -> Lease {
        if self.dead() {
            self
        } else {
            Lease { tenant_visible: !self.tenant_visible, ..self }
        }
    }

    /// This lease after [`Lease::expired`] has looked at it: a dead lease is taken out
    /// of view whatever its flag said.
    pub open spec fn after_expired(self) -> Lease {
        if self.dead() {
            Lease { tenant_visible: false, ..self }
        } else {
            self
        }
    }

    /// Says whether the lease is well formed.
    pub fn is_well_formed(&self) -> (ok: bool)
        ensures
            ok == self.wf(),
    {
        let (rows, cols) = self.tenant_parser.size();
        self.tenant.is_well_formed() && is_usable_size(rows, cols) && rows
            == self.tenant.rect.height && cols == self.tenant.rect.width
    }

    /// A first lease: the default window, a blank screen of the window's size, out of
    /// view, and no tenant yet.
    pub fn new() -> (lease: Self)
        ensures
            lease.wf(),
            lease.tenant == Overlay::fresh(),
            lease.tenant_parser.text() == Seq::<char>::empty(),
            !lease.tenant_visible,
            lease.dead(),
            lease.session == 0,
    {
        Lease {
            tenant: Overlay::new(),
            tenant_parser: ScreenModel::new(DEFAULT_HEIGHT, DEFAULT_WIDTH),
            tenant_visible: false,
            session: 0,
        }
    }

    /// Says whether the tenant is dead, and takes a dead lease out of view.
    pub fn expired(&mut self) -> (gone: bool)
        ensures
            gone == old(self).dead(),
            *final(self) == old(self).after_expired(),
            gone ==> !final(self).tenant_visible,
            old(self).wf() ==> final(self).wf(),
    {
        if self.tenant.is_dead {
            self.tenant_visible = false;
            true
        } else {
            false
        }
    }

    /// Makes the lease that follows this one: a new session number, the default
    /// window, a blank screen, out of view, and no tenant yet. This lease is left as
    /// it is, for its cleanup to run against.
    pub fn renew(&mut self) -> (fresh: Self)
        ensures
            *final(self) == *old(self),
            fresh.wf(),
            fresh.tenant == Overlay::fresh(),
            fresh.tenant_parser.text() == Seq::<char>::empty(),
            !fresh.tenant_visible,
            fresh.dead(),
            fresh.session == next_session(old(self).session),
            fresh.session != old(self).session,
    {
        let session = if self.session == u64::MAX {
            0
        } else {
            self.session + 1
        };
        Lease {
            tenant: Overlay::new(),
            tenant_parser: ScreenModel::new(DEFAULT_HEIGHT, DEFAULT_WIDTH),
            tenant_visible: false,
            session,
        }
    }

    /// Gives the tenant's screen the size `rows` x `cols` and returns the size to push
    /// to the tenant's session. Only a size that no screen can have is dropped: the
    /// screen then stays as it is and nothing is to be pushed.
    pub fn resize_screen(&mut self, rows: u16, cols: u16) -> (push: Option<(u16, u16)>)
        requires
            old(self).tenant_parser.wf(),
        ensures
            final(self).tenant_parser.wf(),
            final(self).tenant == old(self).tenant,
            final(self).tenant_visible == old(self).tenant_visible,
            final(self).session == old(self).session,
            final(self).tenant_parser.text() == old(self).tenant_parser.text_after_resize(
                rows,
                cols,
            ),
            usable_size(rows, cols) ==> {
                &&& push == Some((rows, cols))
                &&& final(self).tenant_parser.rows() == rows
                &&& final(self).tenant_parser.cols() == cols
            },
            !usable_size(rows, cols) ==> {
                &&& push is None
                &&& *final(self) == *old(self)
            },
    {
        if is_usable_size(rows, cols) {
            self.tenant_parser.resize(rows, cols);
            Some((rows, cols))
        } else {
            None
        }
    }

    /// Brings the screen in step with the window after a change of geometry. Where the
    /// screen's size differs from the window's, the screen takes the window's size,
    /// which is returned for pushing to the tenant's session; else nothing is done.
    pub fn sync_screen(&mut self) -> (push: Option<(u16, u16)>)
        requires
            old(self).tenant.wf(),
            old(self).tenant.rect.width <= MAX_COLS,
            old(self).tenant_parser.wf(),
        ensures
            final(self).wf(),
            final(self).tenant == old(self).tenant,
            final(self).tenant_visible == old(self).tenant_visible,
            final(self).session == old(self).session,
            push == old(self).screen_lag(),
            push is None ==> *final(self) == *old(self),
            push matches Some((rows, cols)) ==> final(self).tenant_parser.text() == old(self).tenant_parser.text_after_resize(rows, cols),
    {
        let (rows, cols) = self.tenant_parser.size();
        if rows != self.tenant.rect.height || cols != self.tenant.rect.width {
            self.resize_screen(self.tenant.rect.height, self.tenant.rect.width)
        } else {
            None
        }
    }

    /// Records that a tenant has been started behind this lease.
    pub fn tenant_started(&mut self)
        ensures
            *final(self) == old(self).after_start(),
            !final(self).dead(),
            old(self).wf() ==> final(self).wf(),
    {
        self.tenant.is_dead = false;
    }

    /// Records the tenant's death and takes the overlay out of view. Returns whether
    /// this was news: a signal that comes again after the first changes nothing.
    pub fn tenant_exited(&mut self) -> (first: bool)
        ensures
            first == !old(self).dead(),
            *final(self) == old(self).after_exit(),
            final(self).dead(),
            !final(self).tenant_visible,
            old(self).wf() ==> final(self).wf(),
    {
        let first = !self.tenant.is_dead;
        self.tenant_visible = false;
        self.tenant.is_dead = true;
        first
    }

    /// Shows a hidden overlay or hides a shown one. On a dead lease nothing happens.
    pub fn toggle_visibility(&mut self)
        ensures
            *final(self) == old(self).after_toggle(),
            old(self).wf() ==> final(self).wf(),
    {
        if !self.tenant.is_dead {
            self.tenant_visible = !self.tenant_visible;
        }
    }
}

/// Death is final. Once a tenant's death is recorded the lease is dead and out of view;
/// a second signal changes nothing; no request brings the overlay back into view; and
/// whatever the visibility flag has been set to behind the lease's back, `expired`
/// reports the death and clears it.
pub proof fn lemma_dead_lease_stays_out_of_view(lease: Lease, stale: bool)
    ensures
        lease.after_exit().dead(),
        !lease.after_exit().tenant_visible,
        lease.after_exit().after_exit() == lease.after_exit(),
        lease.after_exit().after_toggle() == lease.after_exit(),
        ({
            let tampered = Lease { tenant_visible: stale, ..lease.after_exit() };
            tampered.dead() && tampered.after_expired() == lease.after_exit()
        }),
{
}

/// A renewed lease never stands for the session of the lease before it.
pub proof fn lemma_next_session_differs(id: u64)
    ensures
        next_session(id) != id,
{
}

} // verus!
