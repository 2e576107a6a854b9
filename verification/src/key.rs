//! The logical buffer identity that keys every pool and bridge lookup.

use vstd::prelude::*;

verus! {

/// A stable identifier naming one rendering target across its lifetime.
///
/// Two identifier shapes resolve to the same key space: a 64-bit opaque id
/// used by the display compositor for a whole rendering context, and a
/// 32-bit id naming one opaque off-screen framebuffer for an XR runtime.
#[derive(Clone, Copy, Debug, PartialEq, Eq, Structural)]
pub enum BufferKey {
    /// The default buffer of a whole rendering context.
    DefaultContext(u64),
    /// One opaque off-screen framebuffer.
    OpaqueFramebuffer(u32),
}

} // verus!
