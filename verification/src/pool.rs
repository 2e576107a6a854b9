//! The surface pool: one front-buffer slot per logical buffer identity,
//! with independent take/put cycles per key.
//!
//! The producer stores each finished frame with `put`; a consumer claims
//! the newest frame with `take`. A producer that outruns the consumer
//! displaces the unconsumed frame, which `put` hands back to the caller
//! for disposal: excess frames are dropped, never queued without bound.

use vstd::prelude::*;

use crate::key::BufferKey;
use crate::keyed::KeyedSlots;
use crate::surface::Surface;

verus! {

/// A pool of at most one front surface per `BufferKey`.
pub struct SurfacePool {
    slots: KeyedSlots<Surface>,
}

impl SurfacePool {
    pub closed spec fn wf(&self) -> bool {
        self.slots.wf()
    }

    /// The surface currently held as the front buffer for `k`, if any.
    pub closed spec fn front(&self, k: BufferKey) -> Option<Surface> {
        self.slots.slot(k)
    }

    pub fn new() -> (p: SurfacePool)
        ensures
            p.wf(),
            forall|k: BufferKey| p.front(k) is None,
    {
        SurfacePool { slots: KeyedSlots::new() }
    }

    /// Stores `surface` as the new front buffer for `k`. If a front buffer
    /// was already present and had not been taken, the previous one is
    /// returned to the caller for disposal. Never blocks.
    pub fn put(&mut self, k: BufferKey, surface: Surface) -> (displaced: Option<Surface>)
        requires
            old(self).wf(),
        ensures
            final(self).wf(),
            displaced == old(self).front(k),
            final(self).front(k) == Some(surface),
            forall|k2: BufferKey| k2 != k ==> final(self).front(k2) == old(self).front(k2),
    {
        self.slots.insert(k, surface)
    }

    /// Atomically removes and returns the current front buffer for `k`,
    /// leaving the slot empty. Returns `None` if no frame has been
    /// produced or the current front buffer is already taken.
    pub fn take(&mut self, k: BufferKey) -> (r: Option<Surface>)
        requires
            old(self).wf(),
        ensures
            final(self).wf(),
            r == old(self).front(k),
            final(self).front(k) is None,
            forall|k2: BufferKey| k2 != k ==> final(self).front(k2) == old(self).front(k2),
    {
        self.slots.remove(k)
    }

    /// Whether a front buffer is currently stored for `k`.
    pub fn is_occupied(&self, k: BufferKey) -> (b: bool)
        requires
            self.wf(),
        ensures
            b == (self.front(k) is Some),
    {
        self.slots.is_occupied(k)
    }
}

} // verus!
