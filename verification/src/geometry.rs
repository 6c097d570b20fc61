//! The overlay window: where it stands, how large it is, and the pointer gestures that
//! move and resize it.
//!
//! Every operation is stated over [`Rect`] values by a spec function, and the executable
//! code is proved to compute exactly that rectangle.

use vstd::prelude::*;
use crate::constants::{
    ResizeDirection, DEFAULT_HEIGHT, DEFAULT_WIDTH, DEFAULT_X, DEFAULT_Y, MIN_HEIGHT, MIN_WIDTH,
};

verus! {

/// A rectangle of terminal cells: the cell of its top-left corner and its extent.
#[derive(Clone, Copy, Debug, PartialEq, Eq, Structural)]
pub struct Rect {
    pub x: u16,
    pub y: u16,
    pub width: u16,
    pub height: u16,
}

/// A size in terminal cells.
#[derive(Clone, Copy, Debug, PartialEq, Eq, Structural)]
pub struct Size {
    pub cols: u16,
    pub rows: u16,
}

impl Rect {
    /// The column just past the right edge.
    pub open spec fn right(self) -> int {
        self.x + self.width
    }

    /// The row just past the bottom edge.
    pub open spec fn bottom(self) -> int {
        self.y + self.height
    }

    /// The rectangle is at least as large as the overlay's minimum.
    pub open spec fn has_min_size(self) -> bool {
        self.width >= MIN_WIDTH && self.height >= MIN_HEIGHT
    }

    /// The rectangle lies wholly inside a screen of `bounds` = (columns, rows).
    pub open spec fn inside(self, bounds: (u16, u16)) -> bool {
        self.right() <= bounds.0 && self.bottom() <= bounds.1
    }

    /// The cell at (`column`, `row`) lies in the rectangle.
    pub open spec fn contains(self, column: u16, row: u16) -> bool {
        self.x <= column && column < self.right() && self.y <= row && row < self.bottom()
    }
}

/// Where a span lands on one axis of a screen.
///
/// The span is asked for at `pos` with `len` cells, on an axis of `bound` cells, and may
/// not be shorter than `min_len`. If the shortest span fits at `pos`, the span starts
/// there and is cut to the cells that remain. Otherwise it has the shortest length and
/// is pushed back until it ends at the far edge, or starts at 0 where the axis is
/// shorter than `min_len`.
pub open spec fn fit_span(pos: int, len: int, bound: int, min_len: int) -> (int, int) {
    if pos + min_len <= bound {
        (pos, if len <= bound - pos { len } else { bound - pos })
    } else if min_len <= bound {
        (bound - min_len, min_len)
    } else {
        (0, min_len)
    }
}

/// The rectangle that a resize request leaves behind.
///
/// A request below the minimum size leaves `r` as it is. Any other request is fitted
/// into `bounds` axis by axis, see [`fit_span`].
pub open spec fn resized(r: Rect, x: u16, y: u16, width: u16, height: u16, bounds: (u16, u16)) -> Rect {
    if width < MIN_WIDTH || height < MIN_HEIGHT {
        r
    } else {
        let h = fit_span(x as int, width as int, bounds.0 as int, MIN_WIDTH as int);
        let v = fit_span(y as int, height as int, bounds.1 as int, MIN_HEIGHT as int);
        Rect { x: h.0 as u16, y: v.0 as u16, width: h.1 as u16, height: v.1 as u16 }
    }
}

/// The origin closest to `target` at which a span of `len` cells still ends inside an
/// axis of `bound` cells; 0 where the span is longer than the axis.
pub open spec fn clamp_origin(target: int, len: int, bound: int) -> int {
    if len > bound {
        0
    } else if target + len > bound {
        bound - len
    } else {
        target
    }
}

/// The rectangle that a move request leaves behind: the size of `r` at the origin
/// closest to the target that keeps it on a screen of `bounds`.
pub open spec fn moved(r: Rect, target_x: u16, target_y: u16, bounds: (u16, u16)) -> Rect {
    Rect {
        x: clamp_origin(target_x as int, r.width as int, bounds.0 as int) as u16,
        y: clamp_origin(target_y as int, r.height as int, bounds.1 as int) as u16,
        width: r.width,
        height: r.height,
    }
}

/// The pointer is within one cell of the near edge of a span that starts at `pos`.
pub open spec fn near_start(pos: u16, pointer: u16) -> bool {
    pointer <= pos + 1
}

/// The pointer is within one cell of the far edge of a span of `len` cells at `pos`.
pub open spec fn near_end(pos: u16, len: u16, pointer: u16) -> bool {
    pointer >= pos + len.saturating_sub(2)
}

/// The corner of `r` that a press at (`column`, `row`) grabs, if any. A corner is
/// grabbed when the pointer is near both edges that meet in it; where several corners
/// qualify, the first of top-left, top-right, bottom-left, bottom-right wins.
pub open spec fn grabbed_corner(r: Rect, column: u16, row: u16) -> Option<ResizeDirection> {
    let left = near_start(r.x, column);
    let right = near_end(r.x, r.width, column);
    let top = near_start(r.y, row);
    let bottom = near_end(r.y, r.height, row);
    if left && top {
        Some(ResizeDirection::TopLeft)
    } else if right && top {
        Some(ResizeDirection::TopRight)
    } else if left && bottom {
        Some(ResizeDirection::BottomLeft)
    } else if right && bottom {
        Some(ResizeDirection::BottomRight)
    } else {
        None
    }
}

/// A span whose near edge follows the pointer while its far edge stays where it is.
/// The near edge stops `min_len` cells before the far edge.
pub open spec fn pull_start(pos: u16, len: u16, pointer: u16, min_len: u16) -> (int, int) {
    let far = pos + len;
    let start = if pointer <= far - min_len { pointer as int } else { far - min_len };
    (start, far - start)
}

/// A span whose far edge follows the pointer while its near edge stays where it is.
/// The span does not get shorter than `min_len`.
pub open spec fn pull_end(pos: u16, pointer: u16, min_len: u16) -> (int, int) {
    let reach = if pointer >= pos { pointer - pos } else { 0 };
    (pos as int, if reach >= min_len { reach } else { min_len as int })
}

/// The rectangle that a resize gesture asks for when the pointer has pulled the corner
/// `direction` of `r` to (`column`, `row`): the opposite corner stays fixed.
pub open spec fn corner_pull(r: Rect, direction: ResizeDirection, column: u16, row: u16) -> Rect {
    let h = match direction {
        ResizeDirection::TopLeft | ResizeDirection::BottomLeft => pull_start(
            r.x,
            r.width,
            column,
            MIN_WIDTH,
        ),
        ResizeDirection::TopRight | ResizeDirection::BottomRight => pull_end(r.x, column, MIN_WIDTH),
    };
    let v = match direction {
        ResizeDirection::TopLeft | ResizeDirection::TopRight => pull_start(
            r.y,
            r.height,
            row,
            MIN_HEIGHT,
        ),
        ResizeDirection::BottomLeft | ResizeDirection::BottomRight => pull_end(
            r.y,
            row,
            MIN_HEIGHT,
        ),
    };
    Rect { x: h.0 as u16, y: v.0 as u16, width: h.1 as u16, height: v.1 as u16 }
}

/// The tenant's window: its rectangle, the gesture in progress, and whether the tenant
/// behind it is dead.
#[derive(Clone, Copy, Debug)]
pub struct Overlay {
    pub rect: Rect,
    pub dragging: bool,
    pub drag_offset: (u16, u16),
    pub resizing: bool,
    pub resize_direction: Option<ResizeDirection>,
    pub size: Size,
    pub is_dead: bool,
}

impl Overlay {
    /// The rectangle is no smaller than the minimum, its far edges are columns and rows
    /// that a `u16` can name, and `size` repeats its extent.
    pub open spec fn wf(&self) -> bool {
        &&& self.rect.has_min_size()
        &&& self.rect.right() <= u16::MAX
        &&& self.rect.bottom() <= u16::MAX
        &&& self.size.cols == self.rect.width
        &&& self.size.rows == self.rect.height
    }

    /// This overlay after a resize request: untouched where the request is below the
    /// minimum size, else with the rectangle of [`resized`] and `size` following it.
    pub open spec fn after_resize(
        self,
        x: u16,
        y: u16,
        width: u16,
        height: u16,
        bounds: (u16, u16),
    ) -> Overlay {
        if width < MIN_WIDTH || height < MIN_HEIGHT {
            self
        } else {
            let rect = resized(self.rect, x, y, width, height, bounds);
            Overlay { rect, size: Size { cols: rect.width, rows: rect.height }, ..self }
        }
    }

    /// This overlay after a move request: only the rectangle's origin changes.
    pub open spec fn after_move(self, target_x: u16, target_y: u16, bounds: (u16, u16)) -> Overlay {
        Overlay { rect: moved(self.rect, target_x, target_y, bounds), ..self }
    }

    /// This overlay after the pointer is pressed at (`column`, `row`): a resize from the
    /// grabbed corner, else a drag that remembers how far the pointer is from the origin.
    pub open spec fn after_press(self, column: u16, row: u16) -> Overlay {
        match grabbed_corner(self.rect, column, row) {
            Some(direction) => Overlay {
                resizing: true,
                resize_direction: Some(direction),
                ..self
            },
            None => Overlay {
                dragging: true,
                drag_offset: (
                    column.saturating_sub(self.rect.x),
                    row.saturating_sub(self.rect.y),
                ),
                ..self
            },
        }
    }

    /// This overlay after the pressed pointer has moved to (`column`, `row`).
    ///
    /// While resizing, the rectangle of [`corner_pull`] is asked for as a resize
    /// request. Otherwise, while dragging, the origin follows the pointer at the
    /// remembered offset as a move request. With no gesture in progress nothing changes.
    pub open spec fn after_drag(self, column: u16, row: u16, bounds: (u16, u16)) -> Overlay {
        if self.resizing {
            match self.resize_direction {
                Some(direction) => {
                    let ask = corner_pull(self.rect, direction, column, row);
                    self.after_resize(ask.x, ask.y, ask.width, ask.height, bounds)
                },
                None => self,
            }
        } else if self.dragging {
            self.after_move(
                column.saturating_sub(self.drag_offset.0),
                row.saturating_sub(self.drag_offset.1),
                bounds,
            )
        } else {
            self
        }
    }

    /// This overlay after the pointer is released.
    pub open spec fn after_release(self) -> Overlay {
        Overlay { dragging: false, resizing: false, resize_direction: None, ..self }
    }

    /// No gesture is in progress.
    pub open spec fn idle(&self) -> bool {
        !self.dragging && !self.resizing && self.resize_direction is None
    }

    /// The overlay that [`Overlay::new`] makes.
    pub open spec fn fresh() -> Overlay {
        Overlay {
            rect: Rect { x: DEFAULT_X, y: DEFAULT_Y, width: DEFAULT_WIDTH, height: DEFAULT_HEIGHT },
            dragging: false,
            drag_offset: (0, 0),
            resizing: false,
            resize_direction: None,
            size: Size { cols: DEFAULT_WIDTH, rows: DEFAULT_HEIGHT },
            is_dead: true,
        }
    }

    /// Says whether the overlay is well formed.
    pub fn is_well_formed(&self) -> (ok: bool)
        ensures
            ok == self.wf(),
    {
        self.rect.width >= MIN_WIDTH && self.rect.height >= MIN_HEIGHT && self.rect.width
            <= u16::MAX - self.rect.x && self.rect.height <= u16::MAX - self.rect.y
            && self.size.cols == self.rect.width && self.size.rows == self.rect.height
    }

    /// An overlay at the default place and size, with no gesture in progress and no
    /// live tenant behind it yet.
    pub fn new() -> (overlay: Self)
        ensures
            overlay == Overlay::fresh(),
            overlay.wf(),
            overlay.idle(),
    {
        Overlay {
            rect: Rect { x: DEFAULT_X, y: DEFAULT_Y, width: DEFAULT_WIDTH, height: DEFAULT_HEIGHT },
            dragging: false,
            drag_offset: (0, 0),
            resizing: false,
            resize_direction: None,
            size: Size { cols: DEFAULT_WIDTH, rows: DEFAULT_HEIGHT },
            is_dead: true,
        }
    }

    /// Asks for the rectangle (`x`, `y`, `width`, `height`) on a screen of `bounds`.
    ///
    /// A request below the minimum size is dropped. Otherwise the origin is clamped
    /// onto the screen, the extent is cut to what remains from there but not below the
    /// minimum, and the origin is clamped once more against the final extent.
    pub fn resize_to(&mut self, x: u16, y: u16, width: u16, height: u16, bounds: (u16, u16))
        ensures
            *final(self) == old(self).after_resize(x, y, width, height, bounds),
            (width < MIN_WIDTH || height < MIN_HEIGHT) ==> *final(self) == *old(self),
            old(self).wf() ==> final(self).wf(),
            (width >= MIN_WIDTH && height >= MIN_HEIGHT) ==> {
                &&& final(self).rect.has_min_size()
                &&& bounds.0 >= MIN_WIDTH ==> final(self).rect.right() <= bounds.0
                &&& bounds.1 >= MIN_HEIGHT ==> final(self).rect.bottom() <= bounds.1
            },
    {
        if width < MIN_WIDTH || height < MIN_HEIGHT {
            return ;
        }
        let (x, width) = fit_axis(x, width, bounds.0, MIN_WIDTH);
        let (y, height) = fit_axis(y, height, bounds.1, MIN_HEIGHT);
        self.rect.x = x;
        self.rect.y = y;
        self.rect.width = width;
        self.rect.height = height;
        self.size.cols = width;
        self.size.rows = height;
    }

    /// Moves the rectangle towards (`target_x`, `target_y`) as far as a screen of
    /// `bounds` allows. The size stays as it is.
    pub fn move_to(&mut self, target_x: u16, target_y: u16, bounds: (u16, u16))
        ensures
            *final(self) == old(self).after_move(target_x, target_y, bounds),
            final(self).rect.width == old(self).rect.width,
            final(self).rect.height == old(self).rect.height,
            old(self).wf() ==> final(self).wf(),
            old(self).rect.width <= bounds.0 ==> final(self).rect.right() <= bounds.0,
            old(self).rect.height <= bounds.1 ==> final(self).rect.bottom() <= bounds.1,
    {
        self.rect.x = clamp_origin_exec(target_x, self.rect.width, bounds.0);
        self.rect.y = clamp_origin_exec(target_y, self.rect.height, bounds.1);
    }

    /// Starts a gesture for a press at (`column`, `row`): a resize where the pointer is
    /// near a corner, a drag anywhere else.
    pub fn begin_gesture(&mut self, column: u16, row: u16)
        requires
            old(self).wf(),
        ensures
            *final(self) == old(self).after_press(column, row),
            final(self).rect == old(self).rect,
            final(self).wf(),
    {
        let rect = self.rect;
        let near_left = column <= rect.x + 1;
        let near_right = column >= rect.x + rect.width.saturating_sub(2);
        let near_top = row <= rect.y + 1;
        let near_bottom = row >= rect.y + rect.height.saturating_sub(2);
        if near_left && near_top {
            self.resizing = true;
            self.resize_direction = Some(ResizeDirection::TopLeft);
        } else if near_right && near_top {
            self.resizing = true;
            self.resize_direction = Some(ResizeDirection::TopRight);
        } else if near_left && near_bottom {
            self.resizing = true;
            self.resize_direction = Some(ResizeDirection::BottomLeft);
        } else if near_right && near_bottom {
            self.resizing = true;
            self.resize_direction = Some(ResizeDirection::BottomRight);
        } else {
            self.dragging = true;
            self.drag_offset = (column.saturating_sub(rect.x), row.saturating_sub(rect.y));
        }
    }

    /// Follows the pressed pointer to (`column`, `row`) on a screen of `bounds`: resizes
    /// from the grabbed corner, or drags the window along.
    pub fn update_gesture(&mut self, column: u16, row: u16, bounds: (u16, u16))
        requires
            old(self).wf(),
        ensures
            *final(self) == old(self).after_drag(column, row, bounds),
            final(self).wf(),
            final(self).dragging == old(self).dragging,
            final(self).drag_offset == old(self).drag_offset,
            final(self).resizing == old(self).resizing,
            final(self).resize_direction == old(self).resize_direction,
            final(self).is_dead == old(self).is_dead,
    {
        if self.resizing {
            if let Some(direction) = self.resize_direction {
                let rect = self.rect;
                let (new_x, new_width) = match direction {
                    ResizeDirection::TopLeft | ResizeDirection::BottomLeft => pull_start_exec(
                        rect.x,
                        rect.width,
                        column,
                        MIN_WIDTH,
                    ),
                    ResizeDirection::TopRight | ResizeDirection::BottomRight => pull_end_exec(
                        rect.x,
                        column,
                        MIN_WIDTH,
                    ),
                };
                let (new_y, new_height) = match direction {
                    ResizeDirection::TopLeft | ResizeDirection::TopRight => pull_start_exec(
                        rect.y,
                        rect.height,
                        row,
                        MIN_HEIGHT,
                    ),
                    ResizeDirection::BottomLeft | ResizeDirection::BottomRight => pull_end_exec(
                        rect.y,
                        row,
                        MIN_HEIGHT,
                    ),
                };
                if new_width >= MIN_WIDTH && new_height >= MIN_HEIGHT {
                    self.resize_to(new_x, new_y, new_width, new_height, bounds);
                }
            }
        } else if self.dragging {
            let target_x = column.saturating_sub(self.drag_offset.0);
            let target_y = row.saturating_sub(self.drag_offset.1);
            self.move_to(target_x, target_y, bounds);
        }
    }

    /// Ends whatever gesture is in progress.
    pub fn end_gesture(&mut self)
        ensures
            *final(self) == old(self).after_release(),
            final(self).idle(),
            final(self).rect == old(self).rect,
            old(self).wf() ==> final(self).wf(),
    {
        self.dragging = false;
        self.resizing = false;
        self.resize_direction = None;
    }
}

/// One axis of a resize gesture whose near edge is dragged.
fn pull_start_exec(pos: u16, len: u16, pointer: u16, min_len: u16) -> (out: (u16, u16))
    requires
        min_len <= len,
        pos + len <= u16::MAX,
    ensures
        (out.0 as int, out.1 as int) == pull_start(pos, len, pointer, min_len),
        out.1 >= min_len,
{
    let far = pos + len;
    let limit = far - min_len;
    let start = if pointer < limit { pointer } else { limit };
    (start, far - start)
}

/// One axis of a resize gesture whose far edge is dragged.
fn pull_end_exec(pos: u16, pointer: u16, min_len: u16) -> (out: (u16, u16))
    ensures
        (out.0 as int, out.1 as int) == pull_end(pos, pointer, min_len),
        out.1 >= min_len,
{
    let reach = pointer.saturating_sub(pos);
    (pos, if reach > min_len { reach } else { min_len })
}

/// A resize request of at least the minimum size leaves a rectangle of at least the
/// minimum size that lies inside the screen, on every screen that has room for a
/// rectangle of the minimum size.
pub proof fn lemma_resized_fits(r: Rect, x: u16, y: u16, width: u16, height: u16, bounds: (u16, u16))
    requires
        width >= MIN_WIDTH,
        height >= MIN_HEIGHT,
        bounds.0 >= MIN_WIDTH,
        bounds.1 >= MIN_HEIGHT,
    ensures
        resized(r, x, y, width, height, bounds).has_min_size(),
        resized(r, x, y, width, height, bounds).inside(bounds),
{
}

/// A move changes neither width nor height, and leaves the rectangle inside the
/// screen, on every screen that the rectangle fits on.
pub proof fn lemma_moved_fits(r: Rect, target_x: u16, target_y: u16, bounds: (u16, u16))
    requires
        r.width <= bounds.0,
        r.height <= bounds.1,
    ensures
        moved(r, target_x, target_y, bounds).width == r.width,
        moved(r, target_x, target_y, bounds).height == r.height,
        moved(r, target_x, target_y, bounds).inside(bounds),
{
}

/// Pulling a corner to where the pointer already is changes nothing: a second drag
/// update at the same pointer position leaves the overlay that the first one made.
pub proof fn lemma_drag_update_idempotent(o: Overlay, column: u16, row: u16, bounds: (u16, u16))
    requires
        o.wf(),
    ensures
        o.after_drag(column, row, bounds).after_drag(column, row, bounds) == o.after_drag(
            column,
            row,
            bounds,
        ),
{
}

/// One axis of [`Overlay::resize_to`]: clamp the origin, derive the space that remains,
/// clamp the length, clamp the origin again.
fn fit_axis(pos: u16, len: u16, bound: u16, min_len: u16) -> (out: (u16, u16))
    requires
        2 <= min_len <= len,
    ensures
        (out.0 as int, out.1 as int) == fit_span(pos as int, len as int, bound as int, min_len as int),
        out.1 >= min_len,
        out.0 + out.1 <= (if bound >= min_len { bound } else { min_len }),
{
    let last = bound.saturating_sub(1);
    let start = if pos < last { pos } else { last };
    let room = bound.saturating_sub(start);
    let cut = if len < room { len } else { room };
    let span = if cut > min_len { cut } else { min_len };
    let limit = bound.saturating_sub(span);
    if start > limit {
        (limit, span)
    } else {
        (start, span)
    }
}

/// One axis of [`Overlay::move_to`].
fn clamp_origin_exec(target: u16, len: u16, bound: u16) -> (origin: u16)
    ensures
        origin as int == clamp_origin(target as int, len as int, bound as int),
        origin <= target,
        origin + len <= (if bound >= len { bound } else { len }),
{
    let limit = bound.saturating_sub(len);
    if target < limit {
        target
    } else {
        limit
    }
}

} // verus!
