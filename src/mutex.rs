//! A non-reentrant mutex built over a reentrant lock that is allocated on
//! first use, and the reentrant lock itself.
//!
//! Threads are named by `ThreadId`. An operation that would block the calling
//! thread is enabled only when it can complete; a caller that runs several
//! threads asks `can_lock` before stepping one of them.
use vstd::prelude::*;

verus! {

/// Names the thread that performs an operation.
pub type ThreadId = u64;

/// A recursive lock: the thread that holds it may take it again.
pub struct ReentrantMutex {
    ready: bool,
    owner: Option<ThreadId>,
    depth: u64,
}

impl ReentrantMutex {
    /// The host object has been created and not yet deleted.
    pub closed spec fn is_ready(&self) -> bool {
        self.ready
    }

    /// The thread that holds the lock, if any.
    pub closed spec fn owner(&self) -> Option<ThreadId> {
        self.owner
    }

    /// How many times the owner has taken the lock without leaving it.
    pub closed spec fn depth(&self) -> nat {
        self.depth as nat
    }

    pub closed spec fn wf(&self) -> bool {
        &&& (self.owner is None <==> self.depth == 0)
        &&& (self.owner is Some ==> self.ready)
    }

    /// A thread may enter: the lock is free or already its own.
    pub open spec fn enterable(&self, t: ThreadId) -> bool {
        self.owner() is None || self.owner() == Some(t)
    }

    /// A lock whose host object does not exist yet.
    pub fn uninitialized() -> (r: Self)
        ensures
            r.wf(),
            !r.is_ready(),
            r.owner() is None,
    {
        ReentrantMutex { ready: false, owner: None, depth: 0 }
    }

    /// Creates the host object.
    pub fn init(&mut self)
        requires
            old(self).wf(),
            !old(self).is_ready(),
        ensures
            final(self).wf(),
            final(self).is_ready(),
            final(self).owner() is None,
    {
        self.ready = true;
    }

    /// Whether `lock` by `t` would return at once.
    pub fn can_lock(&self, t: ThreadId) -> (r: bool)
        ensures
            r == self.enterable(t),
    {
        match self.owner {
            None => true,
            Some(o) => o == t,
        }
    }

    /// Enters the lock; enabled when it is free or held by `t`.
    pub fn lock(&mut self, t: ThreadId)
        requires
            old(self).wf(),
            old(self).is_ready(),
            old(self).enterable(t),
            old(self).depth() < u64::MAX,
        ensures
            final(self).wf(),
            final(self).is_ready(),
            final(self).owner() == Some(t),
            final(self).depth() == old(self).depth() + 1,
    {
        self.owner = Some(t);
        self.depth = self.depth + 1;
    }

    /// Enters the lock if that needs no waiting, and says whether it did.
    pub fn try_lock(&mut self, t: ThreadId) -> (r: bool)
        requires
            old(self).wf(),
            old(self).is_ready(),
            old(self).depth() < u64::MAX,
        ensures
            r == old(self).enterable(t),
            r ==> final(self).owner() == Some(t) && final(self).depth() == old(self).depth() + 1
                && final(self).is_ready() && final(self).wf(),
            !r ==> *final(self) == *old(self),
    {
        if self.can_lock(t) {
            self.lock(t);
            true
        } else {
            false
        }
    }

    /// Leaves the lock once; it is free again when every entry has been left.
    pub fn unlock(&mut self, t: ThreadId)
        requires
            old(self).wf(),
            old(self).owner() == Some(t),
        ensures
            final(self).wf(),
            final(self).is_ready(),
            final(self).depth() + 1 == old(self).depth(),
            final(self).owner() == (if final(self).depth() == 0 { None } else { Some(t) }),
    {
        self.depth = self.depth - 1;
        if self.depth == 0 {
            self.owner = None;
        }
    }

    /// Deletes the host object; the lock must not be held.
    pub fn destroy(&mut self)
        requires
            old(self).wf(),
            old(self).is_ready(),
            old(self).owner() is None,
        ensures
            final(self).wf(),
            !final(self).is_ready(),
            final(self).owner() is None,
    {
        self.ready = false;
    }
}


/// The backing reentrant lock of a `Mutex` or an `RWLock`, created on first
/// use. Threads that race to create it each allocate one; the first to publish
/// wins and every other allocation is destroyed at once.
pub struct LazyBacking {
    slot: Option<ReentrantMutex>,
    created: u64,
    destroyed: u64,
    pending: u64,
}

impl LazyBacking {
    /// The published backing lock, if any.
    pub closed spec fn slot(&self) -> Option<ReentrantMutex> {
        self.slot
    }

    /// How many backing locks have been allocated.
    pub closed spec fn created(&self) -> nat {
        self.created as nat
    }

    /// How many backing locks have been destroyed.
    pub closed spec fn destroyed(&self) -> nat {
        self.destroyed as nat
    }

    /// How many allocated backing locks wait to be published.
    pub closed spec fn pending(&self) -> nat {
        self.pending as nat
    }

    /// Backing locks allocated and not destroyed.
    pub open spec fn live(&self) -> int {
        self.created() - self.destroyed()
    }

    pub closed spec fn wf(&self) -> bool {
        &&& self.created == self.destroyed + self.pending + (if self.slot is Some { 1int } else { 0 })
        &&& self.slot is Some ==> self.slot->0.wf() && self.slot->0.is_ready()
    }

    /// Room to allocate one more backing lock.
    pub open spec fn can_allocate(&self) -> bool {
        self.created() < u64::MAX
    }

    /// An empty slot.
    pub fn new() -> (r: Self)
        ensures
            r.wf(),
            r.slot() is None,
            r.created() == 0,
            r.destroyed() == 0,
            r.pending() == 0,
    {
        LazyBacking { slot: None, created: 0, destroyed: 0, pending: 0 }
    }

    /// Allocates and initializes a candidate backing lock, not yet published.
    pub fn allocate(&mut self) -> (r: ReentrantMutex)
        requires
            old(self).wf(),
            old(self).can_allocate(),
        ensures
            final(self).wf(),
            r.wf(),
            r.is_ready(),
            r.owner() is None,
            final(self).slot() == old(self).slot(),
            final(self).created() == old(self).created() + 1,
            final(self).destroyed() == old(self).destroyed(),
            final(self).pending() == old(self).pending() + 1,
    {
        let mut re = ReentrantMutex::uninitialized();
        re.init();
        self.created = self.created + 1;
        self.pending = self.pending + 1;
        re
    }

    /// Publishes a candidate if the slot is still empty; otherwise another
    /// thread won the race and the candidate is destroyed.
    pub fn publish(&mut self, candidate: ReentrantMutex)
        requires
            old(self).wf(),
            old(self).pending() > 0,
            candidate.wf(),
            candidate.is_ready(),
            candidate.owner() is None,
        ensures
            final(self).wf(),
            final(self).slot() == (if old(self).slot() is None { Some(candidate) } else { old(self).slot() }),
            final(self).created() == old(self).created(),
            final(self).pending() + 1 == old(self).pending(),
            final(self).destroyed() == old(self).destroyed() + (if old(self).slot() is None { 0nat } else { 1 }),
    {
        self.pending = self.pending - 1;
        if self.slot.is_none() {
            self.slot = Some(candidate);
        } else {
            let mut loser = candidate;
            loser.destroy();
            self.destroyed = self.destroyed + 1;
        }
    }

    /// Makes sure a backing lock is published: the one already there, or a
    /// fresh one.
    pub fn acquire_backing(&mut self)
        requires
            old(self).wf(),
            old(self).can_allocate(),
        ensures
            final(self).wf(),
            final(self).slot() is Some,
            old(self).slot() is Some ==> *final(self) == *old(self),
            old(self).slot() is None ==> final(self).created() == old(self).created() + 1
                && final(self).destroyed() == old(self).destroyed()
                && final(self).pending() == old(self).pending()
                && final(self).slot()->0.owner() is None,
    {
        if self.slot.is_none() {
            let re = self.allocate();
            self.publish(re);
        }
    }

    /// Enters the published backing lock.
    pub fn lock_backing(&mut self, t: ThreadId)
        requires
            old(self).wf(),
            old(self).slot() is Some,
            old(self).slot()->0.enterable(t),
            old(self).slot()->0.depth() < u64::MAX,
        ensures
            final(self).wf(),
            final(self).slot() is Some,
            final(self).slot()->0.owner() == Some(t),
            final(self).slot()->0.depth() == old(self).slot()->0.depth() + 1,
            final(self).created() == old(self).created(),
            final(self).destroyed() == old(self).destroyed(),
            final(self).pending() == old(self).pending(),
    {
        if let Some(re) = &mut self.slot {
            re.lock(t);
        }
    }

    /// Enters the published backing lock if that needs no waiting.
    pub fn try_lock_backing(&mut self, t: ThreadId) -> (r: bool)
        requires
            old(self).wf(),
            old(self).slot() is Some,
            old(self).slot()->0.depth() < u64::MAX,
        ensures
            r == old(self).slot()->0.enterable(t),
            !r ==> *final(self) == *old(self),
            r ==> final(self).wf() && final(self).slot() is Some
                && final(self).slot()->0.owner() == Some(t)
                && final(self).slot()->0.depth() == old(self).slot()->0.depth() + 1
                && final(self).created() == old(self).created()
                && final(self).destroyed() == old(self).destroyed()
                && final(self).pending() == old(self).pending(),
    {
        match &mut self.slot {
            Some(re) => re.try_lock(t),
            None => false,
        }
    }

    /// Leaves the published backing lock once.
    pub fn unlock_backing(&mut self, t: ThreadId)
        requires
            old(self).wf(),
            old(self).slot() is Some,
            old(self).slot()->0.owner() == Some(t),
        ensures
            final(self).wf(),
            final(self).slot() is Some,
            final(self).slot()->0.depth() + 1 == old(self).slot()->0.depth(),
            final(self).slot()->0.owner() == (if final(self).slot()->0.depth() == 0 { None } else { Some(t) }),
            final(self).created() == old(self).created(),
            final(self).destroyed() == old(self).destroyed(),
            final(self).pending() == old(self).pending(),
    {
        if let Some(re) = &mut self.slot {
            re.unlock(t);
        }
    }

    /// Whether `t` holds the published backing lock.
    pub fn is_owned_by(&self, t: ThreadId) -> (r: bool)
        ensures
            r == (self.slot() is Some && self.slot()->0.owner() == Some(t)),
    {
        match &self.slot {
            Some(re) => match re.owner {
                Some(o) => o == t,
                None => false,
            },
            None => false,
        }
    }

    /// A published backing lock is ready, and free exactly when no entry of it
    /// is outstanding.
    pub proof fn lemma_slot_facts(&self)
        requires
            self.wf(),
        ensures
            self.slot() is Some ==> self.slot()->0.is_ready()
                && (self.slot()->0.owner() is None <==> self.slot()->0.depth() == 0),
    {
    }

    /// How many backing locks have been allocated.
    pub fn created_count(&self) -> (r: u64)
        ensures
            r as nat == self.created(),
    {
        self.created
    }

    /// How many backing locks have been destroyed.
    pub fn destroyed_count(&self) -> (r: u64)
        ensures
            r as nat == self.destroyed(),
    {
        self.destroyed
    }

    /// Whether a backing lock is published.
    pub fn is_published(&self) -> (r: bool)
        ensures
            r == self.slot() is Some,
    {
        self.slot.is_some()
    }

    /// Two slots that agree on the lock and on every count are equal.
    pub proof fn lemma_ext_equal(a: LazyBacking, b: LazyBacking)
        requires
            a.slot() is Some <==> b.slot() is Some,
            a.slot() is Some ==> a.slot()->0.is_ready() == b.slot()->0.is_ready()
                && a.slot()->0.owner() == b.slot()->0.owner()
                && a.slot()->0.depth() == b.slot()->0.depth(),
            a.created() == b.created(),
            a.destroyed() == b.destroyed(),
            a.pending() == b.pending(),
        ensures
            a == b,
    {
    }

    /// Destroys the published backing lock, if there is one.
    pub fn destroy(&mut self)
        requires
            old(self).wf(),
            old(self).slot() is Some ==> old(self).slot()->0.owner() is None,
        ensures
            final(self).wf(),
            final(self).slot() is None,
            final(self).created() == old(self).created(),
            final(self).pending() == old(self).pending(),
            final(self).live() == old(self).pending(),
    {
        match self.slot.take() {
            None => {},
            Some(re) => {
                let mut re = re;
                re.destroy();
                self.destroyed = self.destroyed + 1;
            },
        }
    }
}

/// Once no allocation is waiting to be published, exactly the published
/// backing lock is alive: every thread that lost the race to create it has
/// destroyed its own.
pub proof fn lemma_single_survivor(b: LazyBacking)
    requires
        b.wf(),
        b.pending() == 0,
    ensures
        b.live() == (if b.slot() is Some { 1int } else { 0 }),
{
}


/// A mutex that refuses recursive locking: the `held` flag turns the
/// reentrant backing lock into a non-reentrant one.
pub struct Mutex {
    lock: LazyBacking,
    held: bool,
}

impl Mutex {
    /// The backing lock and its allocation counts.
    pub closed spec fn backing(&self) -> LazyBacking {
        self.lock
    }

    /// The thread that holds the mutex, if any.
    pub closed spec fn holder(&self) -> Option<ThreadId> {
        if self.held { self.lock.slot()->0.owner() } else { None }
    }

    pub closed spec fn wf(&self) -> bool {
        &&& self.lock.wf()
        &&& self.held ==> self.lock.slot() is Some && self.lock.slot()->0.owner() is Some
            && self.lock.slot()->0.depth() == 1
        &&& !self.held ==> (self.lock.slot() is Some ==> self.lock.slot()->0.owner() is None)
    }

    /// An unlocked mutex whose backing lock is not created yet.
    pub fn new() -> (r: Self)
        ensures
            r.wf(),
            r.holder() is None,
            r.backing().slot() is None,
            r.backing().created() == 0,
            r.backing().destroyed() == 0,
            r.backing().pending() == 0,
    {
        Mutex { lock: LazyBacking::new(), held: false }
    }

    /// Nothing to do: the backing lock is created on first use.
    pub fn init(&mut self)
        ensures
            *final(self) == *old(self),
    {
    }

    /// Whether `lock` by `t` may proceed: nobody holds the mutex.
    pub fn can_lock(&self, t: ThreadId) -> (r: bool)
        requires
            self.wf(),
        ensures
            r == (self.holder() is None),
    {
        !self.held
    }

    /// Whether `t` holds the mutex.
    pub fn is_held_by(&self, t: ThreadId) -> (r: bool)
        requires
            self.wf(),
        ensures
            r == (self.holder() == Some(t)),
    {
        if !self.held {
            false
        } else {
            self.lock.is_owned_by(t)
        }
    }

    /// The backing lock and its allocation counts.
    pub fn backing_lock(&self) -> (r: &LazyBacking)
        ensures
            *r == self.backing(),
    {
        &self.lock
    }

    /// Publishes the backing lock if no thread has yet.
    fn remutex(&mut self)
        requires
            old(self).wf(),
            old(self).backing().can_allocate(),
        ensures
            final(self).wf(),
            final(self).held == old(self).held,
            final(self).holder() == old(self).holder(),
            final(self).backing().slot() is Some,
            old(self).backing().slot() is Some ==> *final(self) == *old(self),
            old(self).backing().slot() is None ==> final(self).backing().created() == old(self).backing().created() + 1
                && final(self).backing().destroyed() == old(self).backing().destroyed()
                && final(self).backing().pending() == old(self).backing().pending(),
    {
        self.lock.acquire_backing();
    }

    /// Sets the held flag and says whether it was clear.
    fn flag_locked(&mut self) -> (r: bool)
        ensures
            r == !old(self).held,
            final(self).held,
            final(self).lock == old(self).lock,
    {
        if self.held {
            false
        } else {
            self.held = true;
            true
        }
    }

    /// Takes the mutex. Enabled only while nobody holds it: a second lock by
    /// the holder is a usage error, and any other thread waits.
    pub fn lock(&mut self, t: ThreadId)
        requires
            old(self).wf(),
            old(self).holder() is None,
            old(self).backing().can_allocate(),
        ensures
            final(self).wf(),
            final(self).holder() == Some(t),
            final(self).backing().created() == old(self).backing().created()
                + (if old(self).backing().slot() is None { 1nat } else { 0 }),
            final(self).backing().destroyed() == old(self).backing().destroyed(),
            final(self).backing().pending() == old(self).backing().pending(),
    {
        self.remutex();
        self.lock.lock_backing(t);
        let fresh = self.flag_locked();
        if !fresh {
            self.lock.unlock_backing(t);
        }
    }

    /// Takes the mutex if nobody holds it; otherwise, and for a recursive
    /// attempt by the holder, returns false and changes nothing.
    pub fn try_lock(&mut self, t: ThreadId) -> (r: bool)
        requires
            old(self).wf(),
            old(self).backing().can_allocate(),
        ensures
            final(self).wf(),
            r == (old(self).holder() is None),
            r ==> final(self).holder() == Some(t)
                && final(self).backing().created() == old(self).backing().created()
                + (if old(self).backing().slot() is None { 1nat } else { 0 })
                && final(self).backing().destroyed() == old(self).backing().destroyed()
                && final(self).backing().pending() == old(self).backing().pending(),
            !r ==> *final(self) == *old(self),
    {
        self.remutex();
        if !self.lock.try_lock_backing(t) {
            false
        } else if self.flag_locked() {
            true
        } else {
            self.lock.unlock_backing(t);
            proof {
                LazyBacking::lemma_ext_equal(self.lock, old(self).lock);
            }
            false
        }
    }

    /// Releases the mutex held by `t`.
    pub fn unlock(&mut self, t: ThreadId)
        requires
            old(self).wf(),
            old(self).holder() == Some(t),
        ensures
            final(self).wf(),
            final(self).holder() is None,
            final(self).backing().slot() is Some,
            final(self).backing().created() == old(self).backing().created(),
            final(self).backing().destroyed() == old(self).backing().destroyed(),
            final(self).backing().pending() == old(self).backing().pending(),
    {
        self.held = false;
        self.lock.unlock_backing(t);
    }

    /// Tears down the backing lock, if it was ever created.
    pub fn destroy(&mut self)
        requires
            old(self).wf(),
            old(self).holder() is None,
        ensures
            final(self).wf(),
            final(self).holder() is None,
            final(self).backing().slot() is None,
            final(self).backing().live() == old(self).backing().pending(),
    {
        self.lock.destroy();
    }
}

} // verus!
