use surface_handoff::BufferKey;
use surface_handoff::Device;
use surface_handoff::ExternalImageBridge;
use surface_handoff::Size;

fn bridge() -> ExternalImageBridge {
    ExternalImageBridge::new(Device::new())
}

#[test]
fn put_then_take_returns_the_surface() {
    let mut b = bridge();
    let k = BufferKey::DefaultContext(1);
    let s = b.create_surface(Size::new(32, 16));
    let id = s.id();
    assert!(b.put(k, s).is_none());
    let taken = b.take(k).expect("front buffer should be present");
    assert_eq!(taken.id(), id);
    assert_eq!(taken.size(), Size::new(32, 16));
    assert!(b.take(k).is_none());
}

#[test]
fn independent_ids_do_not_interfere() {
    let mut b = bridge();
    let k1 = BufferKey::DefaultContext(1);
    let k2 = BufferKey::OpaqueFramebuffer(1);
    let s1 = b.create_surface(Size::new(8, 8));
    let s2 = b.create_surface(Size::new(4, 4));
    let id1 = s1.id();
    let id2 = s2.id();
    b.put(k1, s1);
    b.put(k2, s2);
    assert_eq!(b.take(k1).unwrap().id(), id1);
    assert_eq!(b.take(k2).unwrap().id(), id2);
}

#[test]
fn displaced_surface_is_returned_and_disposed_not_the_new_one() {
    // A producer outrunning the consumer: the unconsumed frame comes
    // back from put and is destroyed; the new frame is not.
    let mut b = bridge();
    let k = BufferKey::DefaultContext(2);
    let s1 = b.create_surface(Size::new(64, 64));
    let s2 = b.create_surface(Size::new(64, 64));
    let id1 = s1.id();
    let id2 = s2.id();
    assert!(b.put(k, s1).is_none());
    let displaced = b.put(k, s2).expect("the first frame was displaced");
    assert_eq!(displaced.id(), id1);
    b.destroy_surface(displaced);
    assert!(b.was_destroyed(id1));
    assert!(!b.was_destroyed(id2));
    let destroys_of_s1 = b.destroyed_ids().iter().filter(|&&d| d == id1).count();
    assert_eq!(destroys_of_s1, 1);
}

#[test]
fn lock_unlock_round_trip_preserves_the_surface() {
    let mut b = bridge();
    let k = BufferKey::DefaultContext(3);
    let s = b.create_surface(Size::new(128, 32));
    let id = s.id();
    b.put(k, s);
    let (tex, size) = b.lock_swap_chain(k).expect("lock should find the frame");
    assert_ne!(tex, 0);
    assert_eq!(size, Size::new(128, 32));
    assert!(b.unlock_swap_chain(k).is_some());
    let taken = b.take(k).expect("the surface returns to the pool");
    assert_eq!(taken.id(), id);
    assert_eq!(taken.size(), Size::new(128, 32));
    assert!(b.destroyed_ids().is_empty());
}

#[test]
fn lock_before_any_put_yields_empty_and_unlock_is_a_noop() {
    let mut b = bridge();
    let k = BufferKey::DefaultContext(9);
    assert!(b.lock_swap_chain(k).is_none());
    assert!(b.unlock_swap_chain(k).is_none());
    let (tex, size) = b.lock(9);
    assert_eq!(tex, 0);
    assert_eq!(size, Size::zero());
    b.unlock(9);
    assert!(b.destroyed_ids().is_empty());
    assert!(!b.has_front(k));
}

#[test]
fn scenario_newer_frame_survives_and_stale_is_disposed_during_unlock() {
    // id 7: put A (64x64), lock returns (tex, 64x64), put B displaces
    // nothing (the slot was taken by the lock), unlock disposes the
    // stale A, and take returns B.
    let mut b = bridge();
    let k = BufferKey::DefaultContext(7);
    let a = b.create_surface(Size::new(64, 64));
    let id_a = a.id();
    assert!(b.put(k, a).is_none());
    let (tex, size) = b.lock_swap_chain(k).expect("lock succeeds");
    assert_ne!(tex, 0);
    assert_eq!(size, Size::new(64, 64));
    let bb = b.create_surface(Size::new(64, 64));
    let id_b = bb.id();
    assert!(b.put(k, bb).is_none(), "slot was already taken, nothing displaced");
    assert!(b.unlock_swap_chain(k).is_some());
    let taken = b.take(k).expect("the newer frame survives");
    assert_eq!(taken.id(), id_b);
    assert!(b.was_destroyed(id_a), "the stale frame was disposed during unlock");
    assert!(!b.was_destroyed(id_b));
}

#[test]
fn double_lock_is_a_noop_and_keeps_the_binding() {
    let mut b = bridge();
    let k = BufferKey::DefaultContext(4);
    let s = b.create_surface(Size::new(16, 16));
    b.put(k, s);
    let first = b.lock_swap_chain(k);
    assert!(first.is_some());
    // A second lock without an intervening unlock is a caller bug; it
    // must not crash, not leak, and not hand out another binding.
    assert!(b.lock_swap_chain(k).is_none());
    assert!(b.unlock_swap_chain(k).is_some());
}

#[test]
fn texture_binding_failure_keeps_the_frame_for_a_retry() {
    let mut b = bridge();
    let k = BufferKey::DefaultContext(5);
    let s = b.create_surface(Size::new(10, 10));
    let id = s.id();
    b.put(k, s);
    b.set_texture_creation_failure(true);
    assert!(b.lock_swap_chain(k).is_none(), "a driver failure yields the empty result");
    assert!(b.has_front(k), "the surface healed back into the pool");
    assert!(!b.was_destroyed(id), "nothing leaked or was disposed");
    b.set_texture_creation_failure(false);
    let (tex, _) = b.lock_swap_chain(k).expect("the next lock self-heals");
    assert_ne!(tex, 0);
}

#[test]
fn u64_entry_points_resolve_to_the_default_context_key() {
    let mut b = bridge();
    let s = b.create_surface(Size::new(20, 30));
    b.put(BufferKey::DefaultContext(11), s);
    let (tex, size) = b.lock(11);
    assert_ne!(tex, 0);
    assert_eq!(size, Size::new(20, 30));
    b.unlock(11);
    assert!(b.take(BufferKey::DefaultContext(11)).is_some());
}

#[test]
fn destroy_swap_chain_disposes_front_and_locked_surfaces() {
    let mut b = bridge();
    let k = BufferKey::OpaqueFramebuffer(3);
    let s1 = b.create_surface(Size::new(2, 2));
    let id1 = s1.id();
    b.put(k, s1);
    b.lock_swap_chain(k).expect("lock succeeds");
    let s2 = b.create_surface(Size::new(2, 2));
    let id2 = s2.id();
    b.put(k, s2);
    b.destroy_swap_chain(k);
    assert!(b.was_destroyed(id1));
    assert!(b.was_destroyed(id2));
    assert!(!b.has_front(k));
    assert!(b.take(k).is_none());
}

#[test]
fn device_teardown_destroys_the_render_surface_last() {
    let mut d = Device::new();
    let render_surface = d.create_surface(Size::new(800, 600));
    let scratch = d.create_surface(Size::new(1, 1));
    let scratch_id = scratch.id();
    let rs_id = render_surface.id();
    d.destroy_surface(scratch);
    let log = d.teardown(Some(render_surface));
    assert_eq!(log, vec![scratch_id, rs_id]);
}
