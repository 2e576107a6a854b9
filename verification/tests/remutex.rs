use surface_handoff::AtomicOptThreadId;
use surface_handoff::HandOverHandMutex;
use surface_handoff::ReentrantMutex;
use surface_handoff::ThreadId;

#[test]
fn atomic_opt_thread_id_round_trips() {
    let t1 = ThreadId::new(1);
    let mut cell = AtomicOptThreadId::new();
    assert_eq!(cell.load(), None);
    cell.store(Some(t1));
    assert_eq!(cell.load(), Some(t1));
    let previous = cell.swap(None);
    assert_eq!(previous, Some(t1));
    assert_eq!(cell.load(), None);
}

#[test]
fn hand_over_hand_mutex_tracks_its_owner() {
    let t1 = ThreadId::new(1);
    let t2 = ThreadId::new(2);
    let mut m = HandOverHandMutex::new();
    assert_eq!(m.owner(), None);
    assert!(m.try_lock(t1));
    assert_eq!(m.owner(), Some(t1));
    assert!(!m.try_lock(t2), "a held mutex cannot be acquired");
    assert!(!m.try_lock(t1), "not even by its owner: it is not re-entrant");
    m.unlock(t1);
    assert_eq!(m.owner(), None);
    m.lock(t2);
    assert_eq!(m.owner(), Some(t2));
    m.unlock(t2);
}

#[test]
fn reentrant_mutex_lets_the_owner_nest() {
    let t1 = ThreadId::new(1);
    let mut m = ReentrantMutex::new(7u32);
    let g1 = m.lock(t1);
    assert_eq!(*m.get(&g1), 7);
    let g2 = m.lock(t1);
    assert_eq!(*m.get(&g2), 7);
    m.unlock(g2);
    assert_eq!(*m.get(&g1), 7);
    m.unlock(g1);
    // Fully released: another thread can now take it.
    let t2 = ThreadId::new(2);
    let g3 = m.try_lock(t2).expect("free lock can be acquired");
    m.unlock(g3);
}

#[test]
fn reentrant_mutex_refuses_other_threads_while_held() {
    let t1 = ThreadId::new(1);
    let t2 = ThreadId::new(2);
    let mut m = ReentrantMutex::new(());
    let g1 = m.lock(t1);
    assert!(m.try_lock(t2).is_none());
    let g2 = m.try_lock(t1).expect("the owner may re-acquire");
    m.unlock(g2);
    assert!(m.try_lock(t2).is_none(), "still held once after one inner unlock");
    m.unlock(g1);
    let g3 = m.try_lock(t2).expect("released after as many unlocks as locks");
    m.unlock(g3);
}
