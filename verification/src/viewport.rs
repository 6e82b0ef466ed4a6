//! The shared viewport projection.
//!
//! The scene is drawn in a logical square `[-1, 1] × [-1, 1]`. To keep that
//! square undistorted in a window of any shape, the projection scales X by
//! `min(w, h) / w` and Y by `min(w, h) / h`: the shorter axis maps exactly
//! onto `[-1, 1]` and the longer one is letterboxed, never stretched. The
//! scales are held as exact ratios; the shell divides them out as `f32` when
//! it fills the 4×4 projection matrix.

use vstd::prelude::*;

verus! {

/// The projection's two axis scales, each as the exact ratio `num / den`.
/// Z and W are always left unscaled.
#[derive(Clone, Copy, Debug, PartialEq, Eq, Structural)]
pub struct Projection {
    pub x_num: u32,
    pub x_den: u32,
    pub y_num: u32,
    pub y_den: u32,
}

impl Projection {
    pub open spec fn wf(self) -> bool {
        0 < self.x_den && 0 < self.y_den
    }

    /// The identity projection, in place until the first resize.
    pub open spec fn spec_identity() -> Projection {
        Projection { x_num: 1, x_den: 1, y_num: 1, y_den: 1 }
    }

    /// The aspect-preserving projection for a window of `width × height`:
    /// with `s = min(width, height)`, X scales by `s / width` and Y by
    /// `s / height`.
    pub open spec fn spec_for_size(width: u32, height: u32) -> Projection {
        let side = if width <= height {
            width
        } else {
            height
        };
        Projection { x_num: side, x_den: width, y_num: side, y_den: height }
    }

    /// An axis whose scale ratio is exactly one is mapped identically.
    pub open spec fn x_scale_is_one(self) -> bool {
        self.x_num == self.x_den
    }

    pub open spec fn y_scale_is_one(self) -> bool {
        self.y_num == self.y_den
    }

    pub fn identity() -> (r: Projection)
        ensures
            r == Projection::spec_identity(),
            r.wf(),
    {
        Projection { x_num: 1, x_den: 1, y_num: 1, y_den: 1 }
    }

    pub fn for_size(width: u32, height: u32) -> (r: Projection)
        requires
            0 < width,
            0 < height,
        ensures
            r == Projection::spec_for_size(width, height),
            r.wf(),
    {
        let side = if width <= height {
            width
        } else {
            height
        };
        Projection { x_num: side, x_den: width, y_num: side, y_den: height }
    }
}

/// The viewport shared by every drawing component: it owns the current
/// projection, recomputed strictly on resize and never per frame.
#[derive(Clone, Copy, Debug, PartialEq, Eq, Structural)]
pub struct Viewport {
    pub projection: Projection,
}

impl Viewport {
    pub open spec fn wf(self) -> bool {
        self.projection.wf()
    }

    /// A fresh viewport holds the identity projection.
    pub fn new() -> (r: Viewport)
        ensures
            r.projection == Projection::spec_identity(),
            r.wf(),
    {
        Viewport { projection: Projection::identity() }
    }

    /// Recomputes the projection for the window's new size.
    pub fn window_resized(&mut self, width: u32, height: u32)
        requires
            0 < width,
            0 < height,
        ensures
            final(self).projection == Projection::spec_for_size(width, height),
            final(self).wf(),
    {
        self.projection = Projection::for_size(width, height);
    }
}

/// Recomputing the projection for identical window dimensions yields the
/// identical projection: resizing is idempotent.
pub proof fn lemma_projection_idempotent(p1: Projection, p2: Projection, width: u32, height: u32)
    requires
        p1 == Projection::spec_for_size(width, height),
        p2 == Projection::spec_for_size(width, height),
    ensures
        p1 == p2,
{
}

/// For a square window the projection scales both X and Y by exactly one:
/// it is the identity on the drawing plane.
pub proof fn lemma_square_window_scales_by_one(side: u32)
    requires
        0 < side,
    ensures
        Projection::spec_for_size(side, side).x_scale_is_one(),
        Projection::spec_for_size(side, side).y_scale_is_one(),
{
}

} // verus!
