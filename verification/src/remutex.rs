//! Re-entrant mutexes, modelled as a lock-state machine with the calling
//! thread's identity passed explicitly.
//!
//! A re-entrant mutex lets the thread that already owns the lock acquire
//! it again; a count tracks the nesting depth and the lock is released
//! when the count returns to zero. Blocking itself is the embedder's
//! concern: acquiring here requires that the lock is free or already
//! owned by the caller, which is exactly the state in which the real
//! lock operation returns.

use vstd::prelude::*;

verus! {

/// A thread's identity: a nonzero number, so that zero can encode "no
/// owner" in atomic storage.
#[derive(Clone, Copy, Debug, PartialEq, Eq, Hash, Structural)]
pub struct ThreadId {
    id: usize,
}

impl ThreadId {
    /// The numeric identity.
    pub closed spec fn spec_id(&self) -> usize {
        self.id
    }

    /// A valid thread identity is nonzero.
    pub open spec fn wf(&self) -> bool {
        self.spec_id() != 0
    }

    /// Names a thread by its nonzero number. The embedder assigns each
    /// thread its own number, counting up from one.
    pub fn new(id: usize) -> (t: ThreadId)
        requires
            id != 0,
        ensures
            t.wf(),
            t.spec_id() == id,
    {
        ThreadId { id }
    }
}

/// Storage for an optional thread id, encoding "none" as zero. The
/// real cell is shared between threads and accessed atomically; this
/// state machine gives the value-level behaviour of each operation.
pub struct AtomicOptThreadId {
    value: usize,
}

impl AtomicOptThreadId {
    /// The stored owner, if any.
    pub closed spec fn stored(&self) -> Option<ThreadId> {
        if self.value == 0 {
            None
        } else {
            Some(ThreadId { id: self.value })
        }
    }

    pub fn new() -> (a: AtomicOptThreadId)
        ensures
            a.stored() is None,
    {
        AtomicOptThreadId { value: 0 }
    }

    /// Stores a new owner (or none).
    pub fn store(&mut self, value: Option<ThreadId>)
        requires
            value matches Some(t) ==> t.wf(),
        ensures
            final(self).stored() == value,
    {
        self.value = match value {
            Some(t) => t.id,
            None => 0,
        };
    }

    /// Reads the stored owner.
    pub fn load(&self) -> (r: Option<ThreadId>)
        ensures
            r == self.stored(),
    {
        if self.value == 0 {
            None
        } else {
            Some(ThreadId { id: self.value })
        }
    }

    /// Stores a new owner and hands back the previous one.
    pub fn swap(&mut self, value: Option<ThreadId>) -> (r: Option<ThreadId>)
        requires
            value matches Some(t) ==> t.wf(),
        ensures
            r == old(self).stored(),
            final(self).stored() == value,
    {
        let r = self.load();
        self.store(value);
        r
    }
}

/// A hand-over-hand mutex: `lock` makes the caller the owner, and only
/// the owner may `unlock`. It is not re-entrant — the owner asking
/// again would block — and it records its owner so that a re-entrant
/// lock can be built on top of it.
pub struct HandOverHandMutex {
    owner: AtomicOptThreadId,
}

impl HandOverHandMutex {
    /// The thread currently holding the mutex, if any.
    pub closed spec fn spec_owner(&self) -> Option<ThreadId> {
        self.owner.stored()
    }

    pub fn new() -> (m: HandOverHandMutex)
        ensures
            m.spec_owner() is None,
    {
        HandOverHandMutex { owner: AtomicOptThreadId::new() }
    }

    /// Acquires the mutex. The real operation blocks until the mutex is
    /// free; this state machine is entered at the moment it succeeds, so
    /// the mutex must be free here.
    pub fn lock(&mut self, me: ThreadId)
        requires
            me.wf(),
            old(self).spec_owner() is None,
        ensures
            final(self).spec_owner() == Some(me),
    {
        self.owner.store(Some(me));
    }

    /// Tries to acquire the mutex without blocking; succeeds exactly
    /// when it is free.
    pub fn try_lock(&mut self, me: ThreadId) -> (acquired: bool)
        requires
            me.wf(),
        ensures
            acquired == (old(self).spec_owner() is None),
            acquired ==> final(self).spec_owner() == Some(me),
            !acquired ==> final(self).spec_owner() == old(self).spec_owner(),
    {
        match self.owner.load() {
            Some(_) => false,
            None => {
                self.owner.store(Some(me));
                true
            },
        }
    }

    /// Releases the mutex. Only the owner may unlock (the real
    /// operation treats anything else as a caller bug and aborts).
    pub fn unlock(&mut self, me: ThreadId)
        requires
            old(self).spec_owner() == Some(me),
        ensures
            final(self).spec_owner() is None,
    {
        self.owner.store(None);
    }

    /// The thread currently holding the mutex.
    pub fn owner(&self) -> (r: Option<ThreadId>)
        ensures
            r == self.spec_owner(),
    {
        self.owner.load()
    }
}

/// A token witnessing one successful acquisition of a re-entrant mutex
/// by one thread. Handing it back to `unlock` releases that
/// acquisition.
pub struct ReentrantMutexGuard {
    thread: ThreadId,
}

impl ReentrantMutexGuard {
    /// The thread that acquired the lock.
    pub closed spec fn spec_thread(&self) -> ThreadId {
        self.thread
    }

    pub fn thread(&self) -> (t: ThreadId)
        ensures
            t == self.spec_thread(),
    {
        self.thread
    }
}

/// A re-entrant mutex over a value: the owning thread may acquire the
/// lock again, and the lock is released when as many unlocks as locks
/// have happened. The lock is free exactly when the nesting count is
/// zero.
pub struct ReentrantMutex<T> {
    mutex: HandOverHandMutex,
    count: usize,
    data: T,
}

impl<T> ReentrantMutex<T> {
    /// The thread currently holding the lock, if any.
    pub closed spec fn spec_owner(&self) -> Option<ThreadId> {
        self.mutex.spec_owner()
    }

    /// How many times the owner has acquired the lock without releasing.
    pub closed spec fn spec_count(&self) -> usize {
        self.count
    }

    /// The protected value.
    pub closed spec fn spec_data(&self) -> T {
        self.data
    }

    /// The lock is held exactly while the count is positive.
    pub open spec fn wf(&self) -> bool {
        (self.spec_count() == 0) == (self.spec_owner() is None)
    }

    pub fn new(data: T) -> (m: ReentrantMutex<T>)
        ensures
            m.wf(),
            m.spec_owner() is None,
            m.spec_count() == 0,
            m.spec_data() == data,
    {
        ReentrantMutex { mutex: HandOverHandMutex::new(), count: 0, data }
    }

    /// Acquires the lock. The real operation blocks while another
    /// thread owns it; this state machine is entered at the moment it
    /// succeeds, so here the lock is free or already owned by the
    /// caller. The count grows by one (it overflowing is a caller bug,
    /// ruled out up front).
    pub fn lock(&mut self, me: ThreadId) -> (guard: ReentrantMutexGuard)
        requires
            old(self).wf(),
            me.wf(),
            old(self).spec_owner() is None || old(self).spec_owner() == Some(me),
            old(self).spec_count() < usize::MAX,
        ensures
            final(self).wf(),
            final(self).spec_owner() == Some(me),
            final(self).spec_count() == old(self).spec_count() + 1,
            final(self).spec_data() == old(self).spec_data(),
            guard.spec_thread() == me,
    {
        let owner = self.mutex.owner();
        let already_mine = match owner {
            Some(t) => t.id == me.id,
            None => false,
        };
        if !already_mine {
            self.mutex.lock(me);
        }
        self.count = self.count + 1;
        ReentrantMutexGuard { thread: me }
    }

    /// Tries to acquire the lock without blocking: succeeds when the
    /// lock is free or already owned by the caller.
    pub fn try_lock(&mut self, me: ThreadId) -> (r: Option<ReentrantMutexGuard>)
        requires
            old(self).wf(),
            me.wf(),
            old(self).spec_count() < usize::MAX,
        ensures
            final(self).wf(),
            final(self).spec_data() == old(self).spec_data(),
            r matches Some(guard) ==> {
                &&& old(self).spec_owner() is None || old(self).spec_owner() == Some(me)
                &&& final(self).spec_owner() == Some(me)
                &&& final(self).spec_count() == old(self).spec_count() + 1
                &&& guard.spec_thread() == me
            },
            r is None ==> {
                &&& old(self).spec_owner() is Some && old(self).spec_owner() != Some(me)
                &&& *final(self) == *old(self)
            },
    {
        let owner = self.mutex.owner();
        let already_mine = match owner {
            Some(t) => t.id == me.id,
            None => false,
        };
        if !already_mine {
            if !self.mutex.try_lock(me) {
                return None;
            }
        }
        self.count = self.count + 1;
        Some(ReentrantMutexGuard { thread: me })
    }

    /// Releases one acquisition. When the count returns to zero the
    /// lock itself is released.
    pub fn unlock(&mut self, guard: ReentrantMutexGuard)
        requires
            old(self).wf(),
            old(self).spec_owner() == Some(guard.spec_thread()),
            old(self).spec_count() > 0,
        ensures
            final(self).wf(),
            final(self).spec_count() == old(self).spec_count() - 1,
            final(self).spec_data() == old(self).spec_data(),
            final(self).spec_owner() == (if old(self).spec_count() == 1 {
                None
            } else {
                old(self).spec_owner()
            }),
    {
        let count = self.count - 1;
        self.count = count;
        if count == 0 {
            self.mutex.unlock(guard.thread());
        }
    }

    /// Reads the protected value; only the lock's owner may look.
    pub fn get(&self, guard: &ReentrantMutexGuard) -> (r: &T)
        requires
            self.spec_owner() == Some(guard.spec_thread()),
        ensures
            *r == self.spec_data(),
    {
        &self.data
    }
}

} // verus!
