//! The external-image bridge: adapts the surface pool to the lock/unlock
//! contract a display compositor or XR runtime calls.
//!
//! `lock` claims the newest front buffer for a key, binds it into the
//! consumer's context and hands back the texture handle and size; `unlock`
//! destroys the binding and recycles the surface — unless the producer has
//! already stored a newer frame, in which case the unlocked surface is
//! stale and is destroyed through the device.
//!
//! Every operation's effect on the bridge state is captured by a named
//! transition predicate (`put_post`, `take_post`, `lock_post`,
//! `unlock_post`); the ownership laws at the bottom of this module are
//! proved by chaining those predicates.

use vstd::prelude::*;

use crate::device::Device;
use crate::geom::Size;
use crate::key::BufferKey;
use crate::keyed::KeyedSlots;
use crate::pool::SurfacePool;
use crate::surface::Surface;
use crate::surface::SurfaceTexture;

verus! {

/// The lock/unlock callback shape a compositor drives, keyed by an opaque
/// 64-bit image id. The bridge's inherent methods satisfy this shape; an
/// embedder implements it for its own adapter types (for example one that
/// serializes calls through a mutex shared with the producer thread).
pub trait WebrenderExternalImageApi {
    /// Locks the image: returns a native texture handle and its pixel
    /// size, or the empty result `(0, 0x0)` if no frame is available.
    fn lock(&mut self, id: u64) -> (u32, Size);

    /// Unlocks the image, releasing the texture handed out by `lock`.
    fn unlock(&mut self, id: u64);
}

/// Per logical buffer, the bridge holds the front-buffer pool, the set of
/// currently locked surface-texture bindings, and the device all surface
/// operations go through.
pub struct ExternalImageBridge {
    device: Device,
    pool: SurfacePool,
    locked: KeyedSlots<SurfaceTexture>,
}

impl ExternalImageBridge {
    /// The surface held as front buffer for `k`, if any.
    pub closed spec fn front(&self, k: BufferKey) -> Option<Surface> {
        self.pool.front(k)
    }

    /// The surface-texture binding currently locked for `k`, if any.
    pub closed spec fn locked_at(&self, k: BufferKey) -> Option<SurfaceTexture> {
        self.locked.slot(k)
    }

    /// The identities of the surfaces destroyed through the device, in
    /// order of destruction.
    pub closed spec fn destroyed(&self) -> Seq<u64> {
        self.device.destroyed_log()
    }

    /// The identity the next device-created surface will carry.
    pub closed spec fn next_surface_id(&self) -> u64 {
        self.device.spec_next_surface_id()
    }

    /// Whether the device currently fails texture binding attempts.
    pub closed spec fn texture_creation_fails(&self) -> bool {
        self.device.texture_creation_fails()
    }

    /// The identity of the front surface for `k`, if one is held.
    pub open spec fn front_id(&self, k: BufferKey) -> Option<u64> {
        match self.front(k) {
            Some(s) => Some(s.spec_id()),
            None => None,
        }
    }

    /// The identity of the surface locked for `k`, if one is held.
    pub open spec fn locked_id(&self, k: BufferKey) -> Option<u64> {
        match self.locked_at(k) {
            Some(t) => Some(t.spec_surface().spec_id()),
            None => None,
        }
    }

    /// Whether any slot of the bridge — front or locked, under any key —
    /// holds a surface with this identity.
    pub open spec fn holds_id(&self, id: u64) -> bool {
        ||| exists|k: BufferKey| (#[trigger] self.front_id(k)) == Some(id)
        ||| exists|k: BufferKey| (#[trigger] self.locked_id(k)) == Some(id)
    }

    /// No surface identity is held twice across all front slots and all
    /// locked bindings: at any instant each surface has one owner.
    pub open spec fn surfaces_distinct(&self) -> bool {
        &&& forall|k1: BufferKey, k2: BufferKey|
            #![trigger self.front_id(k1), self.front_id(k2)]
            k1 != k2 && self.front_id(k1) is Some ==> self.front_id(k1) != self.front_id(k2)
        &&& forall|k1: BufferKey, k2: BufferKey|
            #![trigger self.front_id(k1), self.locked_id(k2)]
            self.front_id(k1) is Some ==> self.front_id(k1) != self.locked_id(k2)
        &&& forall|k1: BufferKey, k2: BufferKey|
            #![trigger self.locked_id(k1), self.locked_id(k2)]
            k1 != k2 && self.locked_id(k1) is Some ==> self.locked_id(k1) != self.locked_id(k2)
    }

    /// Every held surface identity was assigned by the device, so it lies
    /// below the next identity the device will hand out.
    pub open spec fn ids_below(&self, bound: u64) -> bool {
        &&& forall|k: BufferKey| (#[trigger] self.front_id(k)) matches Some(id) ==> id < bound
        &&& forall|k: BufferKey| (#[trigger] self.locked_id(k)) matches Some(id) ==> id < bound
    }

    /// Validity of a bridge: the underlying structures are well formed and
    /// the single-owner discipline holds.
    pub closed spec fn wf(&self) -> bool {
        &&& self.pool.wf()
        &&& self.locked.wf()
        &&& self.device.wf()
        &&& self.surfaces_distinct()
        &&& self.ids_below(self.next_surface_id())
    }

    /// The two bridge states hold the same surfaces, have destroyed the
    /// same surfaces, and will assign the same identities.
    pub open spec fn same_state(pre: Self, post: Self) -> bool {
        &&& forall|k: BufferKey| (#[trigger] post.front(k)) == pre.front(k)
        &&& forall|k: BufferKey| (#[trigger] post.locked_at(k)) == pre.locked_at(k)
        &&& post.destroyed() == pre.destroyed()
        &&& post.next_surface_id() == pre.next_surface_id()
        &&& post.texture_creation_fails() == pre.texture_creation_fails()
    }

    /// What `put` does: the surface becomes the front buffer for `k`, and
    /// the previous front buffer — if one was present and never taken — is
    /// handed back to the caller for disposal. Nothing else changes.
    pub open spec fn put_post(
        pre: Self,
        post: Self,
        k: BufferKey,
        s: Surface,
        displaced: Option<Surface>,
    ) -> bool {
        &&& displaced == pre.front(k)
        &&& post.front(k) == Some(s)
        &&& forall|k2: BufferKey| k2 != k ==> (#[trigger] post.front(k2)) == pre.front(k2)
        &&& forall|k2: BufferKey| (#[trigger] post.locked_at(k2)) == pre.locked_at(k2)
        &&& post.destroyed() == pre.destroyed()
        &&& post.next_surface_id() == pre.next_surface_id()
        &&& post.texture_creation_fails() == pre.texture_creation_fails()
    }

    /// What `take` does: the front buffer for `k` is moved out to the
    /// caller and the slot is left empty. Nothing else changes.
    pub open spec fn take_post(pre: Self, post: Self, k: BufferKey, taken: Option<
        Surface,
    >) -> bool {
        &&& taken == pre.front(k)
        &&& post.front(k) is None
        &&& forall|k2: BufferKey| k2 != k ==> (#[trigger] post.front(k2)) == pre.front(k2)
        &&& forall|k2: BufferKey| (#[trigger] post.locked_at(k2)) == pre.locked_at(k2)
        &&& post.destroyed() == pre.destroyed()
        &&& post.next_surface_id() == pre.next_surface_id()
        &&& post.texture_creation_fails() == pre.texture_creation_fails()
    }

    /// What `lock` does. Locking while already locked is a caller bug and
    /// a no-op; locking with no frame available is the expected steady
    /// state before first paint and yields the empty result; a device-level
    /// binding failure restores the surface to the pool, so nothing leaks
    /// and the next lock retries. On success the front buffer moves into
    /// the locked binding for `k` and the caller receives the (nonzero)
    /// texture handle and the surface's size.
    pub open spec fn lock_post(pre: Self, post: Self, k: BufferKey, r: Option<
        (u32, Size),
    >) -> bool {
        if pre.locked_at(k) is Some {
            r is None && Self::same_state(pre, post)
        } else {
            match pre.front(k) {
                None => r is None && Self::same_state(pre, post),
                Some(s) => {
                    if pre.texture_creation_fails() {
                        r is None && Self::same_state(pre, post)
                    } else {
                        &&& post.front(k) is None
                        &&& (post.locked_at(k) matches Some(t) && t.spec_surface() == s
                            && t.spec_gl_texture() != 0 && r == Some(
                            (t.spec_gl_texture(), s.spec_size()),
                        ))
                        &&& forall|k2: BufferKey|
                            k2 != k ==> (#[trigger] post.front(k2)) == pre.front(k2)
                        &&& forall|k2: BufferKey|
                            k2 != k ==> (#[trigger] post.locked_at(k2)) == pre.locked_at(k2)
                        &&& post.destroyed() == pre.destroyed()
                        &&& post.next_surface_id() == pre.next_surface_id()
                        &&& post.texture_creation_fails() == pre.texture_creation_fails()
                    }
                },
            }
        }
    }

    /// What `unlock` does. Unlocking without a matching lock is a caller
    /// bug and a no-op. Otherwise the binding is destroyed, returning the
    /// surface to plain storage: if the front slot for `k` is still empty
    /// the surface returns there for recycling; if the producer stored a
    /// newer frame while this one was locked, the unlocked surface is
    /// stale and is destroyed through the device, and the newer frame
    /// stays.
    pub open spec fn unlock_post(pre: Self, post: Self, k: BufferKey, r: Option<()>) -> bool {
        match pre.locked_at(k) {
            None => r is None && Self::same_state(pre, post),
            Some(t) => {
                &&& r == Some(())
                &&& post.locked_at(k) is None
                &&& forall|k2: BufferKey|
                    k2 != k ==> (#[trigger] post.locked_at(k2)) == pre.locked_at(k2)
                &&& forall|k2: BufferKey| k2 != k ==> (#[trigger] post.front(k2)) == pre.front(k2)
                &&& post.next_surface_id() == pre.next_surface_id()
                &&& post.texture_creation_fails() == pre.texture_creation_fails()
                &&& match pre.front(k) {
                    None => post.front(k) == Some(t.spec_surface()) && post.destroyed()
                        == pre.destroyed(),
                    Some(newer) => post.front(k) == Some(newer) && post.destroyed()
                        == pre.destroyed().push(t.spec_surface().spec_id()),
                }
            },
        }
    }

    /// A bridge over a (possibly mock) device, with no buffers yet.
    pub fn new(device: Device) -> (b: Self)
        requires
            device.wf(),
        ensures
            b.wf(),
            forall|k: BufferKey| (#[trigger] b.front(k)) is None,
            forall|k: BufferKey| (#[trigger] b.locked_at(k)) is None,
            b.destroyed() == device.destroyed_log(),
            b.next_surface_id() == device.spec_next_surface_id(),
            b.texture_creation_fails() == device.texture_creation_fails(),
    {
        let b = ExternalImageBridge { device, pool: SurfacePool::new(), locked: KeyedSlots::new() };
        b
    }

    /// Allocates a surface with a fresh identity through the device. The
    /// fresh identity is held nowhere in the bridge, so the surface can be
    /// stored with `put`.
    pub fn create_surface(&mut self, size: Size) -> (s: Surface)
        requires
            old(self).wf(),
            old(self).next_surface_id() < u64::MAX,
        ensures
            final(self).wf(),
            s.spec_id() == old(self).next_surface_id(),
            s.spec_size() == size,
            !final(self).holds_id(s.spec_id()),
            s.spec_id() < final(self).next_surface_id(),
            final(self).next_surface_id() == old(self).next_surface_id() + 1,
            forall|k: BufferKey| (#[trigger] final(self).front(k)) == old(self).front(k),
            forall|k: BufferKey| (#[trigger] final(self).locked_at(k)) == old(self).locked_at(k),
            final(self).destroyed() == old(self).destroyed(),
            final(self).texture_creation_fails() == old(self).texture_creation_fails(),
    {
        let s = self.device.create_surface(size);
        proof {
            assert forall|k: BufferKey| (#[trigger] self.front_id(k)) != Some(s.spec_id()) by {
                assert(self.front_id(k) == old(self).front_id(k));
                if self.front_id(k) is Some {
                    assert(self.front_id(k)->0 < old(self).next_surface_id());
                }
            }
            assert forall|k: BufferKey| (#[trigger] self.locked_id(k)) != Some(s.spec_id()) by {
                assert(self.locked_id(k) == old(self).locked_id(k));
                if self.locked_id(k) is Some {
                    assert(self.locked_id(k)->0 < old(self).next_surface_id());
                }
            }
            let ghost k0 = BufferKey::DefaultContext(0);
            assert(old(self).front_id(k0) == self.front_id(k0));
            assert(old(self).locked_id(k0) == self.locked_id(k0));
            self.lemma_wf_after_slot_change(*old(self), k0);
        }
        s
    }

    /// Destroys a surface through the device, recording its identity.
    pub fn destroy_surface(&mut self, surface: Surface)
        requires
            old(self).wf(),
        ensures
            final(self).wf(),
            final(self).destroyed() == old(self).destroyed().push(surface.spec_id()),
            forall|k: BufferKey| (#[trigger] final(self).front(k)) == old(self).front(k),
            forall|k: BufferKey| (#[trigger] final(self).locked_at(k)) == old(self).locked_at(k),
            final(self).next_surface_id() == old(self).next_surface_id(),
            final(self).texture_creation_fails() == old(self).texture_creation_fails(),
    {
        self.device.destroy_surface(surface);
        proof {
            let ghost k0 = BufferKey::DefaultContext(0);
            assert(old(self).front_id(k0) == self.front_id(k0));
            assert(old(self).locked_id(k0) == self.locked_id(k0));
            self.lemma_wf_after_slot_change(*old(self), k0);
        }
    }

    /// Stores a finished frame as the front buffer for `k` (the producer
    /// side). The surface must be one the bridge does not already hold —
    /// surfaces are never duplicated, so a surface the caller owns cannot
    /// also sit in a slot — and must carry a device-assigned identity.
    pub fn put(&mut self, k: BufferKey, surface: Surface) -> (displaced: Option<Surface>)
        requires
            old(self).wf(),
            !old(self).holds_id(surface.spec_id()),
            surface.spec_id() < old(self).next_surface_id(),
        ensures
            final(self).wf(),
            Self::put_post(*old(self), *final(self), k, surface, displaced),
    {
        let displaced = self.pool.put(k, surface);
        proof {
            self.lemma_wf_after_slot_change(*old(self), k);
        }
        displaced
    }

    /// Removes and returns the front buffer for `k` (consumer side).
    pub fn take(&mut self, k: BufferKey) -> (taken: Option<Surface>)
        requires
            old(self).wf(),
        ensures
            final(self).wf(),
            Self::take_post(*old(self), *final(self), k, taken),
    {
        let taken = self.pool.take(k);
        proof {
            self.lemma_wf_after_slot_change(*old(self), k);
        }
        taken
    }

    /// Proves that validity is preserved when only the slots at key `k`
    /// changed, and every identity now held at `k` was already held only
    /// at `k` before (or nowhere).
    proof fn lemma_wf_after_slot_change(&self, pre: Self, k: BufferKey)
        requires
            pre.wf(),
            self.pool.wf(),
            self.locked.wf(),
            self.device.wf(),
            forall|k2: BufferKey| k2 != k ==> (#[trigger] self.front(k2)) == pre.front(k2),
            forall|k2: BufferKey| k2 != k ==> (#[trigger] self.locked_at(k2)) == pre.locked_at(k2),
            pre.next_surface_id() <= self.next_surface_id(),
            self.front_id(k) is Some ==> self.front_id(k) == pre.front_id(k) || self.front_id(k)
                == pre.locked_id(k) || (self.front_id(k) matches Some(id) && !pre.holds_id(id)
                && id < pre.next_surface_id()),
            self.locked_id(k) is Some ==> self.locked_id(k) == pre.locked_id(k) || self.locked_id(
                k,
            ) == pre.front_id(k) || (self.locked_id(k) matches Some(id) && !pre.holds_id(id) && id
                < pre.next_surface_id()),
            !(self.front_id(k) is Some && self.front_id(k) == self.locked_id(k)),
        ensures
            self.wf(),
    {
        assert forall|k1: BufferKey, k2: BufferKey|
            #![trigger self.front_id(k1), self.front_id(k2)]
            k1 != k2 && self.front_id(k1) is Some implies self.front_id(k1) != self.front_id(
            k2,
        ) by {
            assert(pre.front_id(k1) == pre.front_id(k1));
            assert(pre.front_id(k2) == pre.front_id(k2));
            assert(pre.locked_id(k1) == pre.locked_id(k1));
        }
        assert forall|k1: BufferKey, k2: BufferKey|
            #![trigger self.front_id(k1), self.locked_id(k2)]
            self.front_id(k1) is Some implies self.front_id(k1) != self.locked_id(k2) by {
            assert(pre.front_id(k1) == pre.front_id(k1));
            assert(pre.locked_id(k2) == pre.locked_id(k2));
            assert(pre.front_id(k2) == pre.front_id(k2));
            assert(pre.locked_id(k1) == pre.locked_id(k1));
        }
        assert forall|k1: BufferKey, k2: BufferKey|
            #![trigger self.locked_id(k1), self.locked_id(k2)]
            k1 != k2 && self.locked_id(k1) is Some implies self.locked_id(k1) != self.locked_id(
            k2,
        ) by {
            assert(pre.locked_id(k1) == pre.locked_id(k1));
            assert(pre.locked_id(k2) == pre.locked_id(k2));
            assert(pre.front_id(k1) == pre.front_id(k1));
            assert(pre.front_id(k2) == pre.front_id(k2));
        }
        assert forall|k2: BufferKey|
            ((#[trigger] self.front_id(k2)) matches Some(id) ==> id < self.next_surface_id()) by {
            assert(pre.front_id(k2) == pre.front_id(k2));
        }
        assert forall|k2: BufferKey|
            ((#[trigger] self.locked_id(k2)) matches Some(id) ==> id < self.next_surface_id()) by {
            assert(pre.locked_id(k2) == pre.locked_id(k2));
            assert(pre.front_id(k2) == pre.front_id(k2));
        }
    }

    /// Locks the front buffer for `k`: claims it from the pool, binds it
    /// into the consumer's context, records the binding, and returns the
    /// texture handle and pixel size.
    pub fn lock_swap_chain(&mut self, k: BufferKey) -> (r: Option<(u32, Size)>)
        requires
            old(self).wf(),
        ensures
            final(self).wf(),
            Self::lock_post(*old(self), *final(self), k, r),
    {
        if self.locked.is_occupied(k) {
            return None;
        }
        let front = self.pool.take(k);
        match front {
            None => {
                proof {
                    self.lemma_wf_after_slot_change(*old(self), k);
                }
                None
            },
            Some(surface) => {
                let ghost surface_id = surface.spec_id();
                proof {
                    assert(old(self).front_id(k) == Some(surface_id));
                }
                match self.device.create_surface_texture(surface) {
                    Err((_, surface)) => {
                        self.pool.put(k, surface);
                        proof {
                            self.lemma_wf_after_slot_change(*old(self), k);
                        }
                        None
                    },
                    Ok(texture) => {
                        let handle = texture.gl_texture();
                        let size = texture.surface_size();
                        self.locked.insert(k, texture);
                        proof {
                            self.lemma_wf_after_slot_change(*old(self), k);
                        }
                        Some((handle, size))
                    },
                }
            },
        }
    }

    /// Unlocks the binding for `k`, recycling the surface to the pool or
    /// destroying it if a newer frame has displaced it.
    pub fn unlock_swap_chain(&mut self, k: BufferKey) -> (r: Option<()>)
        requires
            old(self).wf(),
        ensures
            final(self).wf(),
            Self::unlock_post(*old(self), *final(self), k, r),
    {
        match self.locked.remove(k) {
            None => {
                proof {
                    self.lemma_wf_after_slot_change(*old(self), k);
                }
                None
            },
            Some(texture) => {
                let surface = self.device.destroy_surface_texture(texture);
                if self.pool.is_occupied(k) {
                    self.device.destroy_surface(surface);
                } else {
                    self.pool.put(k, surface);
                }
                proof {
                    self.lemma_wf_after_slot_change(*old(self), k);
                }
                Some(())
            },
        }
    }

    /// The compositor-facing lock entry point for an opaque 64-bit id,
    /// which names the default buffer of a rendering context. Returns the
    /// empty result instead of `None`: a missing frame is not an error.
    pub fn lock(&mut self, id: u64) -> (r: (u32, Size))
        requires
            old(self).wf(),
        ensures
            final(self).wf(),
            r.0 != 0 ==> Self::lock_post(
                *old(self),
                *final(self),
                BufferKey::DefaultContext(id),
                Some(r),
            ),
            r.0 == 0 ==> Self::lock_post(
                *old(self),
                *final(self),
                BufferKey::DefaultContext(id),
                None,
            ) && r.1 == (Size { width: 0, height: 0 }),
    {
        match self.lock_swap_chain(BufferKey::DefaultContext(id)) {
            Some(p) => p,
            None => (0, Size::zero()),
        }
    }

    /// The compositor-facing unlock entry point for an opaque 64-bit id.
    pub fn unlock(&mut self, id: u64)
        requires
            old(self).wf(),
        ensures
            final(self).wf(),
            Self::unlock_post(
                *old(self),
                *final(self),
                BufferKey::DefaultContext(id),
                if old(self).locked_at(BufferKey::DefaultContext(id)) is Some {
                    Some(())
                } else {
                    None
                },
            ),
    {
        let _ = self.unlock_swap_chain(BufferKey::DefaultContext(id));
    }

    /// Tears down the buffers of one logical id when its rendering context
    /// dies: the outstanding front surface and locked binding, if any, are
    /// destroyed through the device — never simply dropped.
    pub fn destroy_swap_chain(&mut self, k: BufferKey)
        requires
            old(self).wf(),
        ensures
            final(self).wf(),
            final(self).front(k) is None,
            final(self).locked_at(k) is None,
            forall|k2: BufferKey| k2 != k ==> (#[trigger] final(self).front(k2)) == old(
                self,
            ).front(k2),
            forall|k2: BufferKey| k2 != k ==> (#[trigger] final(self).locked_at(k2)) == old(
                self,
            ).locked_at(k2),
            final(self).next_surface_id() == old(self).next_surface_id(),
            final(self).texture_creation_fails() == old(self).texture_creation_fails(),
            final(self).destroyed() == old(self).destroyed() + (match old(self).front_id(k) {
                Some(id) => seq![id],
                None => Seq::<u64>::empty(),
            }) + (match old(self).locked_id(k) {
                Some(id) => seq![id],
                None => Seq::<u64>::empty(),
            }),
    {
        match self.pool.take(k) {
            Some(surface) => {
                self.device.destroy_surface(surface);
            },
            None => {},
        }
        match self.locked.remove(k) {
            Some(texture) => {
                let surface = self.device.destroy_surface_texture(texture);
                self.device.destroy_surface(surface);
            },
            None => {},
        }
        proof {
            self.lemma_wf_after_slot_change(*old(self), k);
            assert(self.destroyed() =~= old(self).destroyed() + (match old(self).front_id(k) {
                Some(id) => seq![id],
                None => Seq::<u64>::empty(),
            }) + (match old(self).locked_id(k) {
                Some(id) => seq![id],
                None => Seq::<u64>::empty(),
            }));
        }
    }

    /// Arranges for texture binding to fail (or succeed again), standing
    /// in for a lost or misbehaving driver.
    pub fn set_texture_creation_failure(&mut self, fail: bool)
        requires
            old(self).wf(),
        ensures
            final(self).wf(),
            final(self).texture_creation_fails() == fail,
            forall|k: BufferKey| (#[trigger] final(self).front(k)) == old(self).front(k),
            forall|k: BufferKey| (#[trigger] final(self).locked_at(k)) == old(self).locked_at(k),
            final(self).destroyed() == old(self).destroyed(),
            final(self).next_surface_id() == old(self).next_surface_id(),
    {
        self.device.set_texture_creation_failure(fail);
        proof {
            let ghost k0 = BufferKey::DefaultContext(0);
            assert(old(self).front_id(k0) == self.front_id(k0));
            assert(old(self).locked_id(k0) == self.locked_id(k0));
            self.lemma_wf_after_slot_change(*old(self), k0);
        }
    }

    /// Whether a surface with this identity was destroyed through the
    /// device.
    pub fn was_destroyed(&self, id: u64) -> (b: bool)
        ensures
            b == self.destroyed().contains(id),
    {
        self.device.was_destroyed(id)
    }

    /// The destruction log, for a harness to inspect.
    pub fn destroyed_ids(&self) -> (r: &Vec<u64>)
        ensures
            r@ == self.destroyed(),
    {
        self.device.destroyed_ids()
    }

    /// Whether a front buffer is currently stored for `k`.
    pub fn has_front(&self, k: BufferKey) -> (b: bool)
        requires
            self.wf(),
        ensures
            b == (self.front(k) is Some),
    {
        self.pool.is_occupied(k)
    }

    /// At any instant each surface identity has at most one owner inside
    /// the bridge: a surface held in some front slot is held by no locked
    /// binding and by no other front slot, and likewise for locked
    /// bindings.
    pub proof fn lemma_no_double_ownership(b: Self, k1: BufferKey, k2: BufferKey)
        requires
            b.wf(),
        ensures
            b.front_id(k1) is Some ==> b.front_id(k1) != b.locked_id(k2),
            k1 != k2 && b.front_id(k1) is Some ==> b.front_id(k1) != b.front_id(k2),
            k1 != k2 && b.locked_id(k1) is Some ==> b.locked_id(k1) != b.locked_id(k2),
    {
    }

    /// Once `take` hands a surface to the caller, the bridge holds no
    /// surface with that identity in any slot: the caller is its sole
    /// owner.
    pub proof fn lemma_take_sole_owner(pre: Self, post: Self, k: BufferKey, s: Surface)
        requires
            pre.wf(),
            Self::take_post(pre, post, k, Some(s)),
        ensures
            !post.holds_id(s.spec_id()),
    {
        assert forall|k2: BufferKey| (#[trigger] post.front_id(k2)) != Some(s.spec_id()) by {
            if k2 != k {
                assert(post.front(k2) == pre.front(k2));
                assert(pre.front_id(k) == Some(s.spec_id()));
                assert(pre.front_id(k2) == pre.front_id(k2));
            }
        }
        assert forall|k2: BufferKey| (#[trigger] post.locked_id(k2)) != Some(s.spec_id()) by {
            assert(post.locked_at(k2) == pre.locked_at(k2));
            assert(pre.front_id(k) == Some(s.spec_id()));
            assert(pre.locked_id(k2) == pre.locked_id(k2));
        }
    }

    /// The lock/unlock round trip preserves the surface: after `put(k, s)`,
    /// a lock that succeeds hands out `s`'s size and a nonzero texture
    /// handle; after the matching unlock, `take(k)` returns the very
    /// surface `s`, and nothing was destroyed along the way.
    pub proof fn lemma_lock_unlock_round_trip(
        b0: Self,
        b1: Self,
        b2: Self,
        b3: Self,
        b4: Self,
        k: BufferKey,
        s: Surface,
        lock_r: Option<(u32, Size)>,
        taken: Option<Surface>,
    )
        requires
            b0.locked_at(k) is None,
            !b0.texture_creation_fails(),
            Self::put_post(b0, b1, k, s, b0.front(k)),
            Self::lock_post(b1, b2, k, lock_r),
            Self::unlock_post(b2, b3, k, Some(())),
            Self::take_post(b3, b4, k, taken),
        ensures
            lock_r matches Some(p) && p.0 != 0 && p.1 == s.spec_size(),
            taken == Some(s),
            b3.destroyed() == b0.destroyed(),
    {
    }

    /// If the producer stores a newer frame while the previous one is
    /// locked, unlock destroys the stale unlocked surface through the
    /// device — exactly one destruction — and the newer frame survives
    /// for the next `take`.
    pub proof fn lemma_unlock_discards_stale(
        b0: Self,
        b1: Self,
        b2: Self,
        b2x: Self,
        b3: Self,
        b4: Self,
        k: BufferKey,
        s_old: Surface,
        s_new: Surface,
        lock_r: Option<(u32, Size)>,
        taken: Option<Surface>,
    )
        requires
            b0.locked_at(k) is None,
            b0.front(k) is None,
            !b0.texture_creation_fails(),
            s_old.spec_id() != s_new.spec_id(),
            Self::put_post(b0, b1, k, s_old, None),
            Self::lock_post(b1, b2, k, lock_r),
            Self::put_post(b2, b2x, k, s_new, None),
            Self::unlock_post(b2x, b3, k, Some(())),
            Self::take_post(b3, b4, k, taken),
        ensures
            lock_r is Some,
            taken == Some(s_new),
            b3.destroyed() == b2x.destroyed().push(s_old.spec_id()),
            b3.destroyed().contains(s_new.spec_id()) == b2x.destroyed().contains(s_new.spec_id()),
    {
        assert(b3.destroyed() == b2x.destroyed().push(s_old.spec_id()));
        if b3.destroyed().contains(s_new.spec_id()) {
            let i = choose|i: int|
                0 <= i < b3.destroyed().len() && b3.destroyed()[i] == s_new.spec_id();
            if i < b2x.destroyed().len() {
                assert(b2x.destroyed()[i] == s_new.spec_id());
            } else {
                assert(b3.destroyed()[i] == s_old.spec_id());
            }
        }
        if b2x.destroyed().contains(s_new.spec_id()) {
            let i = choose|i: int|
                0 <= i < b2x.destroyed().len() && b2x.destroyed()[i] == s_new.spec_id();
            assert(b3.destroyed()[i] == s_new.spec_id());
        }
    }

    /// Locking a fresh id before any frame was produced yields the empty
    /// result rather than an error, and the subsequent unlock is a safe
    /// no-op: neither call changes any state of the bridge.
    pub proof fn lemma_lock_before_put(
        b0: Self,
        b1: Self,
        b2: Self,
        k: BufferKey,
        lock_r: Option<(u32, Size)>,
        unlock_r: Option<()>,
    )
        requires
            b0.front(k) is None,
            b0.locked_at(k) is None,
            Self::lock_post(b0, b1, k, lock_r),
            Self::unlock_post(b1, b2, k, unlock_r),
        ensures
            lock_r is None,
            unlock_r is None,
            Self::same_state(b0, b1),
            Self::same_state(b1, b2),
    {
        assert(b1.locked_at(k) == b0.locked_at(k));
    }
}

} // verus!
