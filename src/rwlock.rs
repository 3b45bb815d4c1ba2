//! A reader-writer lock that degrades to exclusive locking over a lazily
//! created reentrant backing lock.
use vstd::prelude::*;
use crate::mutex::{LazyBacking, ThreadId};

verus! {

/// A reader-writer lock with exclusive access only: reading and writing take
/// the same non-reentrant lock.
pub struct RWLock {
    lock: LazyBacking,
    held: bool,
}

impl RWLock {
    /// The backing lock and its allocation counts.
    pub closed spec fn backing(&self) -> LazyBacking {
        self.lock
    }

    /// The thread that holds the lock, if any.
    pub closed spec fn holder(&self) -> Option<ThreadId> {
        if self.held { self.lock.slot()->0.owner() } else { None }
    }

    pub closed spec fn wf(&self) -> bool {
        &&& self.lock.wf()
        &&& self.held ==> self.lock.slot() is Some && self.lock.slot()->0.owner() is Some
            && self.lock.slot()->0.depth() == 1
        &&& !self.held ==> (self.lock.slot() is Some ==> self.lock.slot()->0.owner() is None)
    }

    /// An unlocked lock whose backing lock is not created yet.
    pub fn new() -> (r: Self)
        ensures
            r.wf(),
            r.holder() is None,
            r.backing().slot() is None,
            r.backing().created() == 0,
            r.backing().destroyed() == 0,
            r.backing().pending() == 0,
    {
        RWLock { lock: LazyBacking::new(), held: false }
    }

    /// Whether `read` or `write` by `t` may proceed: nobody holds the lock.
    pub fn can_read(&self, t: ThreadId) -> (r: bool)
        requires
            self.wf(),
        ensures
            r == (self.holder() is None),
    {
        !self.held
    }

    /// Whether `t` holds the lock.
    pub fn is_held_by(&self, t: ThreadId) -> (r: bool)
        requires
            self.wf(),
        ensures
            r == (self.holder() == Some(t)),
    {
        if !self.held {
            false
        } else {
            self.lock.is_owned_by(t)
        }
    }

    /// The backing lock and its allocation counts.
    pub fn backing_lock(&self) -> (r: &LazyBacking)
        ensures
            *r == self.backing(),
    {
        &self.lock
    }

    /// Publishes the backing lock if no thread has yet.
    fn remutex(&mut self)
        requires
            old(self).wf(),
            old(self).backing().can_allocate(),
        ensures
            final(self).wf(),
            final(self).held == old(self).held,
            final(self).holder() == old(self).holder(),
            final(self).backing().slot() is Some,
            old(self).backing().slot() is Some ==> *final(self) == *old(self),
            old(self).backing().slot() is None ==> final(self).backing().created() == old(self).backing().created() + 1
                && final(self).backing().destroyed() == old(self).backing().destroyed()
                && final(self).backing().pending() == old(self).backing().pending(),
    {
        self.lock.acquire_backing();
    }

    /// Sets the held flag and says whether it was clear.
    fn flag_locked(&mut self) -> (r: bool)
        ensures
            r == !old(self).held,
            final(self).held,
            final(self).lock == old(self).lock,
    {
        if self.held {
            false
        } else {
            self.held = true;
            true
        }
    }

    /// Takes the lock for reading. Enabled only while nobody holds it: a second lock by
    /// the holder is a usage error, and any other thread waits.
    pub fn read(&mut self, t: ThreadId)
        requires
            old(self).wf(),
            old(self).holder() is None,
            old(self).backing().can_allocate(),
        ensures
            final(self).wf(),
            final(self).holder() == Some(t),
            final(self).backing().created() == old(self).backing().created()
                + (if old(self).backing().slot() is None { 1nat } else { 0 }),
            final(self).backing().destroyed() == old(self).backing().destroyed(),
            final(self).backing().pending() == old(self).backing().pending(),
    {
        self.remutex();
        proof {
            self.lock.lemma_slot_facts();
        }
        self.lock.lock_backing(t);
        let fresh = self.flag_locked();
        if !fresh {
            self.lock.unlock_backing(t);
        }
    }

    /// Takes the lock for reading if nobody holds it; otherwise, and for a recursive
    /// attempt by the holder, returns false and changes nothing.
    pub fn try_read(&mut self, t: ThreadId) -> (r: bool)
        requires
            old(self).wf(),
            old(self).backing().can_allocate(),
        ensures
            final(self).wf(),
            r == (old(self).holder() is None),
            r ==> final(self).holder() == Some(t)
                && final(self).backing().created() == old(self).backing().created()
                + (if old(self).backing().slot() is None { 1nat } else { 0 })
                && final(self).backing().destroyed() == old(self).backing().destroyed()
                && final(self).backing().pending() == old(self).backing().pending(),
            !r ==> *final(self) == *old(self),
    {
        self.remutex();
        proof {
            self.lock.lemma_slot_facts();
        }
        if !self.lock.try_lock_backing(t) {
            false
        } else if self.flag_locked() {
            true
        } else {
            self.lock.unlock_backing(t);
            proof {
                self.lock.lemma_slot_facts();
                LazyBacking::lemma_ext_equal(self.lock, old(self).lock);
            }
            false
        }
    }

    /// Releases a read hold of `t`.
    pub fn read_unlock(&mut self, t: ThreadId)
        requires
            old(self).wf(),
            old(self).holder() == Some(t),
        ensures
            final(self).wf(),
            final(self).holder() is None,
            final(self).backing().slot() is Some,
            final(self).backing().created() == old(self).backing().created(),
            final(self).backing().destroyed() == old(self).backing().destroyed(),
            final(self).backing().pending() == old(self).backing().pending(),
    {
        self.held = false;
        self.lock.unlock_backing(t);
    }

    /// Takes the lock for writing: the same as `read`.
    pub fn write(&mut self, t: ThreadId)
        requires
            old(self).wf(),
            old(self).holder() is None,
            old(self).backing().can_allocate(),
        ensures
            final(self).wf(),
            final(self).holder() == Some(t),
            final(self).backing().created() == old(self).backing().created()
                + (if old(self).backing().slot() is None { 1nat } else { 0 }),
            final(self).backing().destroyed() == old(self).backing().destroyed(),
            final(self).backing().pending() == old(self).backing().pending(),
    {
        self.read(t);
    }

    /// Takes the lock for writing if nobody holds it: the same as `try_read`.
    pub fn try_write(&mut self, t: ThreadId) -> (r: bool)
        requires
            old(self).wf(),
            old(self).backing().can_allocate(),
        ensures
            final(self).wf(),
            r == (old(self).holder() is None),
            r ==> final(self).holder() == Some(t)
                && final(self).backing().created() == old(self).backing().created()
                + (if old(self).backing().slot() is None { 1nat } else { 0 })
                && final(self).backing().destroyed() == old(self).backing().destroyed()
                && final(self).backing().pending() == old(self).backing().pending(),
            !r ==> *final(self) == *old(self),
    {
        self.try_read(t)
    }

    /// Releases a write hold of `t`: the same as `read_unlock`.
    pub fn write_unlock(&mut self, t: ThreadId)
        requires
            old(self).wf(),
            old(self).holder() == Some(t),
        ensures
            final(self).wf(),
            final(self).holder() is None,
            final(self).backing().slot() is Some,
            final(self).backing().created() == old(self).backing().created(),
            final(self).backing().destroyed() == old(self).backing().destroyed(),
            final(self).backing().pending() == old(self).backing().pending(),
    {
        self.read_unlock(t);
    }

    /// Tears down the backing lock, if it was ever created.
    pub fn destroy(&mut self)
        requires
            old(self).wf(),
            old(self).holder() is None,
        ensures
            final(self).wf(),
            final(self).holder() is None,
            final(self).backing().slot() is None,
            final(self).backing().live() == old(self).backing().pending(),
    {
        self.lock.destroy();
    }
}


} // verus!
