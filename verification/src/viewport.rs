use vstd::prelude::*;

verus! {

/// Smallest allowed zoom factor, in hundredths (a quarter of full size).
pub const MIN_ZOOM: u32 = 25;

/// Largest allowed zoom factor, in hundredths (four times full size).
pub const MAX_ZOOM: u32 = 400;

/// Amount added or removed by one zoom step, in hundredths.
pub const ZOOM_STEP: u32 = 25;

/// Zoom factor of a freshly opened document, in hundredths (full size).
pub const DEFAULT_ZOOM: u32 = 100;

/// Per-document view state: current page, zoom factor and pan offset.
///
/// `page_count` is fixed at creation. The zoom factor is carried in
/// hundredths of the nominal size, so the allowed range `[MIN_ZOOM,
/// MAX_ZOOM]` stands for a quarter of full size up to four times full size.
/// The pan offset accumulates without bounds checking of its own; it
/// saturates only at the extremes of its integer carrier.
#[derive(Clone, Copy, Debug)]
pub struct Viewport {
    pub current_page: usize,
    pub page_count: usize,
    pub zoom: u32,
    pub pan_x: i64,
    pub pan_y: i64,
}

/// One navigation, zoom or pan command, as the UI issues them.
#[derive(Clone, Copy, Debug)]
pub enum ViewportCommand {
    SetPage(usize),
    NextPage,
    PreviousPage,
    ZoomIn,
    ZoomOut,
    ResetZoom,
    SetZoom(u32),
    Pan(i64, i64),
}

/// A zoom factor forced into the allowed range.
pub open spec fn clamp_zoom(z: u32) -> u32 {
    if z < MIN_ZOOM {
        MIN_ZOOM
    } else if z > MAX_ZOOM {
        MAX_ZOOM
    } else {
        z
    }
}

/// Addition on the pan carrier that saturates instead of wrapping.
pub open spec fn sat_add_i64(a: i64, b: i64) -> i64 {
    if a + b > i64::MAX {
        i64::MAX
    } else if a + b < i64::MIN {
        i64::MIN
    } else {
        (a + b) as i64
    }
}

/// Saturating addition for pan offsets.
fn add_sat(a: i64, b: i64) -> (r: i64)
    ensures
        r == sat_add_i64(a, b),
{
    let s: i128 = a as i128 + b as i128;
    if s > i64::MAX as i128 {
        i64::MAX
    } else if s < i64::MIN as i128 {
        i64::MIN
    } else {
        s as i64
    }
}

impl Viewport {
    /// Validity: the current page is inside the document (or pinned to 0
    /// when the document has no pages) and the zoom factor is in range.
    pub open spec fn wf(self) -> bool {
        &&& if self.page_count == 0 {
            self.current_page == 0
        } else {
            self.current_page < self.page_count
        }
        &&& MIN_ZOOM <= self.zoom <= MAX_ZOOM
    }

    /// State after `set_page(page)`: out-of-range requests are ignored;
    /// in-range requests move to the page and reset the pan offset.
    pub open spec fn spec_set_page(self, page: usize) -> Viewport {
        if page < self.page_count {
            Viewport { current_page: page, pan_x: 0, pan_y: 0, ..self }
        } else {
            self
        }
    }

    /// State after `next_page()`: one page forward when not on the last
    /// page, with the pan offset reset; otherwise unchanged.
    pub open spec fn spec_next_page(self) -> Viewport {
        if self.current_page + 1 < self.page_count {
            Viewport {
                current_page: (self.current_page + 1) as usize,
                pan_x: 0,
                pan_y: 0,
                ..self
            }
        } else {
            self
        }
    }

    /// State after `previous_page()`: one page back when not on page 0,
    /// with the pan offset reset; otherwise unchanged.
    pub open spec fn spec_previous_page(self) -> Viewport {
        if self.current_page > 0 {
            Viewport {
                current_page: (self.current_page - 1) as usize,
                pan_x: 0,
                pan_y: 0,
                ..self
            }
        } else {
            self
        }
    }

    /// State after `zoom_in()`: one step closer, clamped at `MAX_ZOOM`.
    pub open spec fn spec_zoom_in(self) -> Viewport {
        Viewport {
            zoom: if self.zoom + ZOOM_STEP > MAX_ZOOM {
                MAX_ZOOM
            } else {
                (self.zoom + ZOOM_STEP) as u32
            },
            ..self
        }
    }

    /// State after `zoom_out()`: one step further away, clamped at
    /// `MIN_ZOOM`.
    pub open spec fn spec_zoom_out(self) -> Viewport {
        Viewport {
            zoom: if self.zoom < MIN_ZOOM + ZOOM_STEP {
                MIN_ZOOM
            } else {
                (self.zoom - ZOOM_STEP) as u32
            },
            ..self
        }
    }

    /// State after `reset_zoom()`: default zoom, pan offset cleared.
    pub open spec fn spec_reset_zoom(self) -> Viewport {
        Viewport { zoom: DEFAULT_ZOOM, pan_x: 0, pan_y: 0, ..self }
    }

    /// State after `set_zoom(z)`: the requested factor, clamped into range.
    pub open spec fn spec_set_zoom(self, z: u32) -> Viewport {
        Viewport { zoom: clamp_zoom(z), ..self }
    }

    /// State after `pan(dx, dy)`: the offsets accumulate.
    pub open spec fn spec_pan(self, dx: i64, dy: i64) -> Viewport {
        Viewport {
            pan_x: sat_add_i64(self.pan_x, dx),
            pan_y: sat_add_i64(self.pan_y, dy),
            ..self
        }
    }

    /// State after one command.
    pub open spec fn spec_step(self, c: ViewportCommand) -> Viewport {
        match c {
            ViewportCommand::SetPage(n) => self.spec_set_page(n),
            ViewportCommand::NextPage => self.spec_next_page(),
            ViewportCommand::PreviousPage => self.spec_previous_page(),
            ViewportCommand::ZoomIn => self.spec_zoom_in(),
            ViewportCommand::ZoomOut => self.spec_zoom_out(),
            ViewportCommand::ResetZoom => self.spec_reset_zoom(),
            ViewportCommand::SetZoom(z) => self.spec_set_zoom(z),
            ViewportCommand::Pan(dx, dy) => self.spec_pan(dx, dy),
        }
    }

    /// State after a whole sequence of commands, applied left to right.
    pub open spec fn spec_apply(self, cmds: Seq<ViewportCommand>) -> Viewport
        decreases cmds.len(),
    {
        if cmds.len() == 0 {
            self
        } else {
            self.spec_step(cmds[0]).spec_apply(cmds.skip(1))
        }
    }

    /// A fresh viewport: page 0, default zoom, no pan offset.
    pub fn new(page_count: usize) -> (v: Viewport)
        ensures
            v.page_count == page_count,
            v.current_page == 0,
            v.zoom == DEFAULT_ZOOM,
            v.pan_x == 0,
            v.pan_y == 0,
            v.wf(),
    {
        Viewport { current_page: 0, page_count, zoom: DEFAULT_ZOOM, pan_x: 0, pan_y: 0 }
    }

    pub fn current_page(&self) -> (p: usize)
        ensures
            p == self.current_page,
    {
        self.current_page
    }

    pub fn zoom(&self) -> (z: u32)
        ensures
            z == self.zoom,
    {
        self.zoom
    }

    pub fn pan_position(&self) -> (p: (i64, i64))
        ensures
            p.0 == self.pan_x,
            p.1 == self.pan_y,
    {
        (self.pan_x, self.pan_y)
    }

    /// Jump to a page. Out-of-range requests are ignored, not errors;
    /// an accepted jump resets the pan offset.
    pub fn set_page(&mut self, page: usize)
        requires
            old(self).wf(),
        ensures
            *final(self) == old(self).spec_set_page(page),
            final(self).wf(),
    {
        if page < self.page_count {
            self.current_page = page;
            self.pan_x = 0;
            self.pan_y = 0;
        }
    }

    /// Move one page forward; reports whether movement occurred.
    pub fn next_page(&mut self) -> (moved: bool)
        requires
            old(self).wf(),
        ensures
            *final(self) == old(self).spec_next_page(),
            final(self).wf(),
            moved == (old(self).current_page + 1 < old(self).page_count),
    {
        if self.current_page + 1 < self.page_count {
            self.current_page = self.current_page + 1;
            self.pan_x = 0;
            self.pan_y = 0;
            true
        } else {
            false
        }
    }

    /// Move one page back; reports whether movement occurred.
    pub fn previous_page(&mut self) -> (moved: bool)
        requires
            old(self).wf(),
        ensures
            *final(self) == old(self).spec_previous_page(),
            final(self).wf(),
            moved == (old(self).current_page > 0),
    {
        if self.current_page > 0 {
            self.current_page = self.current_page - 1;
            self.pan_x = 0;
            self.pan_y = 0;
            true
        } else {
            false
        }
    }

    /// Zoom one step closer, clamped at `MAX_ZOOM`. Clamping, never
    /// failure, at the boundary.
    pub fn zoom_in(&mut self)
        requires
            old(self).wf(),
        ensures
            *final(self) == old(self).spec_zoom_in(),
            final(self).wf(),
    {
        self.zoom = if self.zoom + ZOOM_STEP > MAX_ZOOM {
            MAX_ZOOM
        } else {
            self.zoom + ZOOM_STEP
        };
    }

    /// Zoom one step further away, clamped at `MIN_ZOOM`.
    pub fn zoom_out(&mut self)
        requires
            old(self).wf(),
        ensures
            *final(self) == old(self).spec_zoom_out(),
            final(self).wf(),
    {
        self.zoom = if self.zoom < MIN_ZOOM + ZOOM_STEP {
            MIN_ZOOM
        } else {
            self.zoom - ZOOM_STEP
        };
    }

    /// Back to the default zoom; also clears the pan offset.
    pub fn reset_zoom(&mut self)
        requires
            old(self).wf(),
        ensures
            *final(self) == old(self).spec_reset_zoom(),
            final(self).wf(),
    {
        self.zoom = DEFAULT_ZOOM;
        self.pan_x = 0;
        self.pan_y = 0;
    }

    /// Set the zoom factor directly; out-of-range values are clamped,
    /// never rejected.
    pub fn set_zoom(&mut self, z: u32)
        requires
            old(self).wf(),
        ensures
            *final(self) == old(self).spec_set_zoom(z),
            final(self).wf(),
    {
        self.zoom = if z < MIN_ZOOM {
            MIN_ZOOM
        } else if z > MAX_ZOOM {
            MAX_ZOOM
        } else {
            z
        };
    }

    /// Shift the pan offset. The accumulation is unbounded by design
    /// (content-edge limits are a UI concern); it saturates only at the
    /// extremes of the integer carrier.
    pub fn pan(&mut self, dx: i64, dy: i64)
        requires
            old(self).wf(),
        ensures
            *final(self) == old(self).spec_pan(dx, dy),
            final(self).wf(),
    {
        self.pan_x = add_sat(self.pan_x, dx);
        self.pan_y = add_sat(self.pan_y, dy);
    }
}

/// Law: no command changes the page count, and none drives a valid
/// viewport out of validity.
pub proof fn lemma_step_preserves_wf(v: Viewport, c: ViewportCommand)
    requires
        v.wf(),
    ensures
        v.spec_step(c).wf(),
        v.spec_step(c).page_count == v.page_count,
{
}

/// Law: over any sequence of commands, the current page stays inside
/// `[0, page_count)` and the zoom factor stays inside
/// `[MIN_ZOOM, MAX_ZOOM]` (both are part of `wf`), and the page count
/// never changes.
pub proof fn lemma_apply_preserves_bounds(v: Viewport, cmds: Seq<ViewportCommand>)
    requires
        v.wf(),
    ensures
        v.spec_apply(cmds).wf(),
        v.spec_apply(cmds).page_count == v.page_count,
    decreases cmds.len(),
{
    if cmds.len() > 0 {
        lemma_step_preserves_wf(v, cmds[0]);
        lemma_apply_preserves_bounds(v.spec_step(cmds[0]), cmds.skip(1));
    }
}

/// Law: repeated `zoom_in` from the largest zoom stays at the largest zoom.
pub proof fn lemma_zoom_in_saturates(v: Viewport, cmds: Seq<ViewportCommand>)
    requires
        v.zoom == MAX_ZOOM,
        forall|i: int| 0 <= i < cmds.len() ==> cmds[i] is ZoomIn,
    ensures
        v.spec_apply(cmds).zoom == MAX_ZOOM,
    decreases cmds.len(),
{
    if cmds.len() > 0 {
        lemma_zoom_in_saturates(v.spec_step(cmds[0]), cmds.skip(1));
    }
}

/// Law: repeated `zoom_out` from the smallest zoom stays at the smallest
/// zoom.
pub proof fn lemma_zoom_out_saturates(v: Viewport, cmds: Seq<ViewportCommand>)
    requires
        v.zoom == MIN_ZOOM,
        forall|i: int| 0 <= i < cmds.len() ==> cmds[i] is ZoomOut,
    ensures
        v.spec_apply(cmds).zoom == MIN_ZOOM,
    decreases cmds.len(),
{
    if cmds.len() > 0 {
        lemma_zoom_out_saturates(v.spec_step(cmds[0]), cmds.skip(1));
    }
}

/// Law: whenever a command changes the current page, the pan offset of the
/// resulting state is `(0, 0)`, whatever it was before.
pub proof fn lemma_pan_reset_on_page_change(v: Viewport, c: ViewportCommand)
    ensures
        v.spec_step(c).current_page != v.current_page ==> v.spec_step(c).pan_x == 0
            && v.spec_step(c).pan_y == 0,
{
}

} // verus!
