//! The background layer.
//!
//! The first compositing stage only clears the frame to a fixed opaque
//! color; it binds no geometry and ignores the viewport projection.

use vstd::prelude::*;

verus! {

/// An 8-bit-per-channel RGBA color.
#[derive(Clone, Copy, Debug, PartialEq, Eq, Structural)]
pub struct Rgba8 {
    pub r: u8,
    pub g: u8,
    pub b: u8,
    pub a: u8,
}

impl Rgba8 {
    pub open spec fn spec_opaque_black() -> Rgba8 {
        Rgba8 { r: 0, g: 0, b: 0, a: 255 }
    }
}

/// The background drawing component. It holds no state: its whole
/// contribution to a frame is the clear color of the first render pass.
#[derive(Clone, Copy, Debug, PartialEq, Eq, Structural)]
pub struct Background {}

impl Background {
    pub fn new() -> (r: Background)
        ensures
            r == (Background {  }),
    {
        Background {  }
    }

    /// The clear color this layer contributes: the frame starts opaque
    /// black, and the later layers blend over it.
    pub fn draw(&self) -> (c: Rgba8)
        ensures
            c == Rgba8::spec_opaque_black(),
    {
        Rgba8 { r: 0, g: 0, b: 0, a: 255 }
    }
}

} // verus!
