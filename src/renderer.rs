use vstd::prelude::*;

use crate::window::{Position, Size};

verus! {

/// The views bound as the output of drawing: a render-target view over the
/// swap chain's back buffer and a depth-stencil view of the same size. They
/// are held together: either both exist or neither does. Both must be
/// released before the swap chain's buffers are resized, and rebuilt before
/// the next draw.
pub struct RenderTargets<R, D> {
    views: Option<(R, D)>,
}

impl<R, D> RenderTargets<R, D> {
    /// The views currently held.
    pub closed spec fn current(&self) -> Option<(R, D)> {
        self.views
    }

    /// Holds the views just built over the swap chain's buffers.
    pub fn new(render_target_view: R, depth_stencil_view: D) -> (r: RenderTargets<R, D>)
        ensures
            r.current() == Some((render_target_view, depth_stencil_view)),
    {
        RenderTargets { views: Some((render_target_view, depth_stencil_view)) }
    }

    /// Drops both views, as a resize of the swap chain's buffers requires.
    pub fn release(&mut self)
        ensures
            final(self).current().is_none(),
    {
        self.views = None;
    }

    /// Holds the views rebuilt after a resize, in place of any earlier ones.
    pub fn install(&mut self, render_target_view: R, depth_stencil_view: D)
        ensures
            final(self).current() == Some((render_target_view, depth_stencil_view)),
    {
        self.views = Some((render_target_view, depth_stencil_view));
    }

    /// True when views are held, so that a frame can be drawn.
    pub fn is_ready(&self) -> (r: bool)
        ensures
            r == self.current().is_some(),
    {
        self.views.is_some()
    }

    /// The views to draw into, if they are held.
    pub fn views(&self) -> (r: Option<(&R, &D)>)
        ensures
            r == (match self.current() {
                Some(p) => Some((&p.0, &p.1)),
                None => None::<(&R, &D)>,
            }),
    {
        match &self.views {
            Some((rtv, dsv)) => Some((rtv, dsv)),
            None => None,
        }
    }
}

/// The size of the swap chain's buffers for a client area of `size`: each
/// side taken as an unsigned 32-bit number.
pub fn buffer_extent(size: Size) -> (r: (u32, u32))
    ensures
        r.0 == size.width as u32,
        r.1 == size.height as u32,
{
    (size.width as u32, size.height as u32)
}

/// A viewport rectangle in pixels; its depth range is always zero to one.
#[derive(Debug, Copy, Clone, PartialEq, Eq, Structural)]
pub struct Viewport {
    pub top_left_x: i32,
    pub top_left_y: i32,
    pub width: i32,
    pub height: i32,
}

/// The viewport set for a window at `pos` with a client area of `size`.
pub fn viewport_for(pos: Position, size: Size) -> (r: Viewport)
    ensures
        r == (Viewport { top_left_x: pos.x, top_left_y: pos.y, width: size.width, height: size.height }),
{
    Viewport { top_left_x: pos.x, top_left_y: pos.y, width: size.width, height: size.height }
}

} // verus!
