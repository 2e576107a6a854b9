//! The device and context ownership wrapper, modelled as the authority
//! that creates surfaces, binds and unbinds surface textures, and records
//! every surface it destroys.
//!
//! GPU resources require explicit device-scoped release, so destruction
//! goes through the device and is logged; a harness reads the log to check
//! that a surface was disposed of exactly where the protocol says.
//! Texture creation can be made to fail on demand, standing in for a
//! driver-level bind failure, so the bridge's recovery paths can be
//! exercised.

use vstd::prelude::*;

use crate::geom::Size;
use crate::surface::Surface;
use crate::surface::SurfaceTexture;

verus! {

/// A device-level failure, surfaced to the caller with the resource whose
/// ownership would otherwise be lost.
#[derive(Clone, Copy, Debug, PartialEq, Eq, Structural)]
pub enum DeviceError {
    /// Binding a surface into the rendering context failed.
    TextureCreationFailed,
}

/// Owns the GPU device and rendering context that all surface operations
/// are bound to. Surfaces it creates carry fresh identities; surfaces it
/// destroys are appended to a log.
pub struct Device {
    next_surface_id: u64,
    next_texture_handle: u32,
    fail_texture_creation: bool,
    destroyed: Vec<u64>,
}

impl Device {
    /// Texture handles start above zero, so a real handle is never confused
    /// with the empty result a failed or skipped lock returns.
    pub closed spec fn wf(&self) -> bool {
        self.next_texture_handle >= 1
    }

    /// The identity the next created surface will carry.
    pub closed spec fn spec_next_surface_id(&self) -> u64 {
        self.next_surface_id
    }

    /// Whether the next texture binding attempt fails.
    pub closed spec fn texture_creation_fails(&self) -> bool {
        self.fail_texture_creation
    }

    /// The identities of every surface destroyed through this device, in
    /// order of destruction.
    pub closed spec fn destroyed_log(&self) -> Seq<u64> {
        self.destroyed@
    }

    pub fn new() -> (d: Device)
        ensures
            d.wf(),
            d.spec_next_surface_id() == 1,
            !d.texture_creation_fails(),
            d.destroyed_log() == Seq::<u64>::empty(),
    {
        Device {
            next_surface_id: 1,
            next_texture_handle: 1,
            fail_texture_creation: false,
            destroyed: Vec::new(),
        }
    }

    /// Arranges for subsequent texture bindings to fail (or succeed again),
    /// standing in for a lost or misbehaving driver.
    pub fn set_texture_creation_failure(&mut self, fail: bool)
        ensures
            final(self).wf() == old(self).wf(),
            final(self).texture_creation_fails() == fail,
            final(self).spec_next_surface_id() == old(self).spec_next_surface_id(),
            final(self).destroyed_log() == old(self).destroyed_log(),
    {
        self.fail_texture_creation = fail;
    }

    /// Allocates a new surface of the given size with a fresh identity.
    pub fn create_surface(&mut self, size: Size) -> (s: Surface)
        requires
            old(self).spec_next_surface_id() < u64::MAX,
        ensures
            final(self).wf() == old(self).wf(),
            s.spec_id() == old(self).spec_next_surface_id(),
            s.spec_size() == size,
            final(self).spec_next_surface_id() == old(self).spec_next_surface_id() + 1,
            final(self).texture_creation_fails() == old(self).texture_creation_fails(),
            final(self).destroyed_log() == old(self).destroyed_log(),
    {
        let id = self.next_surface_id;
        self.next_surface_id = id + 1;
        Surface::make(id, size)
    }

    /// Binds `surface` into the rendering context, producing a texture view.
    /// On failure the original surface is returned to the caller: ownership
    /// is never silently dropped on error.
    pub fn create_surface_texture(&mut self, surface: Surface) -> (r: Result<
        SurfaceTexture,
        (DeviceError, Surface),
    >)
        requires
            old(self).wf(),
        ensures
            final(self).wf(),
            final(self).spec_next_surface_id() == old(self).spec_next_surface_id(),
            final(self).texture_creation_fails() == old(self).texture_creation_fails(),
            final(self).destroyed_log() == old(self).destroyed_log(),
            old(self).texture_creation_fails() ==> r == Err::<SurfaceTexture, _>(
                (DeviceError::TextureCreationFailed, surface),
            ),
            !old(self).texture_creation_fails() ==> (r matches Ok(t) && t.spec_surface()
                == surface && t.spec_gl_texture() != 0),
    {
        if self.fail_texture_creation {
            return Err((DeviceError::TextureCreationFailed, surface));
        }
        let handle = self.next_texture_handle;
        if self.next_texture_handle < u32::MAX {
            self.next_texture_handle = handle + 1;
        }
        Ok(SurfaceTexture::make(surface, handle))
    }

    /// Destroys the texture binding, returning the underlying surface to
    /// plain storage form. Unbinding never fails in this model.
    pub fn destroy_surface_texture(&mut self, texture: SurfaceTexture) -> (s: Surface)
        ensures
            *final(self) == *old(self),
            s == texture.spec_surface(),
    {
        texture.into_surface()
    }

    /// Destroys a surface through the device, recording its identity.
    pub fn destroy_surface(&mut self, surface: Surface)
        ensures
            final(self).wf() == old(self).wf(),
            final(self).spec_next_surface_id() == old(self).spec_next_surface_id(),
            final(self).texture_creation_fails() == old(self).texture_creation_fails(),
            final(self).destroyed_log() == old(self).destroyed_log().push(surface.spec_id()),
    {
        self.destroyed.push(surface.id());
    }

    /// The destruction log, for a harness to inspect.
    pub fn destroyed_ids(&self) -> (r: &Vec<u64>)
        ensures
            r@ == self.destroyed_log(),
    {
        &self.destroyed
    }

    /// Whether a surface with this identity was ever destroyed through
    /// this device.
    pub fn was_destroyed(&self, id: u64) -> (b: bool)
        ensures
            b == self.destroyed_log().contains(id),
    {
        let n = self.destroyed.len();
        for i in 0..n
            invariant
                n == self.destroyed@.len(),
                forall|j: int| 0 <= j < i ==> self.destroyed@[j] != id,
        {
            if self.destroyed[i] == id {
                return true;
            }
        }
        false
    }

    /// Tears the device down, destroying the persistent render surface (if
    /// one is still bound) before the context itself is released. Consuming
    /// the device makes this cleanup run exactly once. The full destruction
    /// log is handed back for inspection.
    pub fn teardown(self, render_surface: Option<Surface>) -> (log: Vec<u64>)
        ensures
            match render_surface {
                Some(s) => log@ == self.destroyed_log().push(s.spec_id()),
                None => log@ == self.destroyed_log(),
            },
    {
        let mut d = self;
        match render_surface {
            Some(s) => {
                d.destroy_surface(s);
            },
            None => {},
        }
        d.destroyed
    }
}

} // verus!
