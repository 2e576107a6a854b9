//! GPU-backed surfaces and their texture bindings, modelled by identity
//! and pixel size.
//!
//! A `Surface` stands for an opaque GPU pixel buffer. It cannot be cloned:
//! moving it is the only way to transfer it, so at any instant exactly one
//! owner holds it. A `SurfaceTexture` is the binding of one surface into a
//! consumer's rendering context; it owns the surface until it is destroyed
//! through the device, which hands the surface back.

use vstd::prelude::*;

use crate::geom::Size;

verus! {

/// An opaque GPU-backed 2D drawable with a fixed pixel size.
///
/// Only the device constructs surfaces, each with a fresh identity.
pub struct Surface {
    id: u64,
    size: Size,
}

impl Surface {
    /// The identity the device assigned at creation.
    pub closed spec fn spec_id(&self) -> u64 {
        self.id
    }

    /// The fixed pixel size.
    pub closed spec fn spec_size(&self) -> Size {
        self.size
    }

    #[verifier::when_used_as_spec(spec_id)]
    pub fn id(&self) -> (r: u64)
        ensures
            r == self.spec_id(),
    {
        self.id
    }

    #[verifier::when_used_as_spec(spec_size)]
    pub fn size(&self) -> (r: Size)
        ensures
            r == self.spec_size(),
    {
        self.size
    }

    pub(crate) fn make(id: u64, size: Size) -> (s: Surface)
        ensures
            s.spec_id() == id,
            s.spec_size() == size,
    {
        Surface { id, size }
    }
}

/// A GPU texture view created by binding a `Surface` into a rendering
/// context. At most one texture binding exists per surface: the binding
/// owns the surface until the device destroys the binding.
pub struct SurfaceTexture {
    surface: Surface,
    gl_texture: u32,
}

impl SurfaceTexture {
    /// The surface this binding owns.
    pub closed spec fn spec_surface(&self) -> Surface {
        self.surface
    }

    /// The native texture handle a consumer samples from.
    pub closed spec fn spec_gl_texture(&self) -> u32 {
        self.gl_texture
    }

    #[verifier::when_used_as_spec(spec_gl_texture)]
    pub fn gl_texture(&self) -> (r: u32)
        ensures
            r == self.spec_gl_texture(),
    {
        self.gl_texture
    }

    /// The pixel size of the bound surface.
    pub fn surface_size(&self) -> (r: Size)
        ensures
            r == self.spec_surface().spec_size(),
    {
        self.surface.size()
    }

    pub(crate) fn make(surface: Surface, gl_texture: u32) -> (t: SurfaceTexture)
        ensures
            t.spec_surface() == surface,
            t.spec_gl_texture() == gl_texture,
    {
        SurfaceTexture { surface, gl_texture }
    }

    pub(crate) fn into_surface(self) -> (s: Surface)
        ensures
            s == self.spec_surface(),
    {
        self.surface
    }
}

} // verus!
