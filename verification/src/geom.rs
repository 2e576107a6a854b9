//! Plain pixel geometry used throughout the surface hand-off protocol.

use vstd::prelude::*;

verus! {

/// A pixel size in device pixels. Width and height may be zero for the
/// "empty" result that a lock returns before any frame has been produced.
#[derive(Clone, Copy, Debug, PartialEq, Eq, Structural)]
pub struct Size {
    pub width: i32,
    pub height: i32,
}

impl Size {
    /// The empty size, returned when no surface is available.
    pub fn zero() -> (s: Size)
        ensures
            s.width == 0,
            s.height == 0,
    {
        Size { width: 0, height: 0 }
    }

    pub fn new(width: i32, height: i32) -> (s: Size)
        ensures
            s.width == width,
            s.height == height,
    {
        Size { width, height }
    }
}

} // verus!
