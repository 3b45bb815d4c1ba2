//! Lock primitives for a host that offers only a counting semaphore, auto- and
//! manual-reset events and a recursive critical section: a non-reentrant
//! `Mutex`, an exclusive-only `RWLock`, and a `Condvar` whose wait/notify
//! protocol hands the control token from a notifier to the waiter that
//! completes the wakeup.
//!
//! Each primitive holds the state of its host objects as plain values, and
//! every operation is a step on that state. An operation that would block is
//! enabled only when it can complete; callers that run several threads test
//! the matching `can_*` / `*_available` / `wake_enabled` query first.
use vstd::prelude::*;

pub mod condvar;
pub mod mutex;
pub mod rwlock;
pub mod word;

verus! {

} // verus!
