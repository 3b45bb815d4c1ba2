//! A condition variable built from a binary semaphore (the control token),
//! an auto-reset wake-one event and a manual-reset wake-all event.
//!
//! A waiter registers itself and releases its mutex in `enter_wait`; the host
//! then blocks it on both events, and `wait_timeout` (or `wait`) takes how that
//! wait ended and does the thread's bookkeeping. A notifier that finds sleepers
//! keeps the control token: the waiter that completes the wakeup returns it.
use vstd::prelude::*;
use crate::mutex::{Mutex, ThreadId};
use crate::word::{
    mode_bit, mode_of, sleepers_of, unpack, word_ok, WakeupMode, WAKEUP_MODE_ALL,
    WAKEUP_MODE_NONE, WAKEUP_MODE_ONE,
};

verus! {

/// The host's timeout value that never expires.
pub const INFINITE: u32 = 0xFFFF_FFFF;

/// How a sleeper's wait on the two events ended.
#[derive(Clone, Copy, Debug, PartialEq, Eq, Structural)]
pub enum WaitOutcome {
    /// The wake-one event was signaled (and consumed: it resets itself).
    WokenOne,
    /// The wake-all event was signaled.
    WokenAll,
    /// The timeout elapsed first.
    TimedOut,
}

/// What a sleeper must do once it has counted itself out of the state word.
#[derive(Clone, Copy, Debug, PartialEq, Eq, Structural)]
pub enum Duty {
    /// It consumed the wake-one credit: return the control token.
    Release,
    /// It timed out as the last sleeper while a wake-one credit was unclaimed:
    /// reset the wake-one event, clear the word, return the token.
    ResetOneAndRelease,
    /// It is the last sleeper of a broadcast: reset the wake-all event, clear
    /// the word, return the token.
    ResetAllAndRelease,
    /// Another thread finishes the pending transition.
    Nothing,
    /// No reachable state leads here.
    Invalid,
}

/// The cleanup duty of a sleeper, given how its wait ended, the mode and the
/// sleeper count left after its own subtraction, and whether its timeout was
/// finite.
pub open spec fn duty_of(outcome: WaitOutcome, m: WakeupMode, remaining: nat, finite: bool) -> Duty {
    if outcome == WaitOutcome::WokenOne {
        Duty::Release
    } else if outcome == WaitOutcome::TimedOut && m == WakeupMode::One && remaining == 0 {
        Duty::ResetOneAndRelease
    } else if m == WakeupMode::All && remaining == 0 {
        Duty::ResetAllAndRelease
    } else if (outcome == WaitOutcome::TimedOut && finite) || (outcome == WaitOutcome::WokenAll
        && m == WakeupMode::All) {
        Duty::Nothing
    } else {
        Duty::Invalid
    }
}

/// What a sleeper subtracts from the state word when its wait ends.
pub open spec fn wake_delta(outcome: WaitOutcome) -> nat {
    if outcome == WaitOutcome::WokenOne {
        1 + WAKEUP_MODE_ONE as nat
    } else {
        1
    }
}

/// Decides a sleeper's cleanup duty.
pub fn cleanup_duty(outcome: WaitOutcome, m: WakeupMode, remaining: usize, timeout_ms: u32) -> (r: Duty)
    ensures
        r == duty_of(outcome, m, remaining as nat, timeout_ms != INFINITE),
{
    let woken_one = outcome == WaitOutcome::WokenOne;
    let timed_out = outcome == WaitOutcome::TimedOut;
    if woken_one {
        Duty::Release
    } else if timed_out && m == WakeupMode::One && remaining == 0 {
        Duty::ResetOneAndRelease
    } else if m == WakeupMode::All && remaining == 0 {
        Duty::ResetAllAndRelease
    } else if (timed_out && timeout_ms != INFINITE) || (outcome == WaitOutcome::WokenAll && m
        == WakeupMode::All) {
        Duty::Nothing
    } else {
        Duty::Invalid
    }
}

/// A condition variable over an external `Mutex`.
pub struct Condvar {
    word: usize,
    token: u32,
    wake_one: bool,
    wake_all: bool,
    ready: bool,
}

impl Condvar {
    /// Threads registered as waiting and not yet done with their bookkeeping.
    pub closed spec fn sleepers(&self) -> nat {
        sleepers_of(self.word as nat)
    }

    /// The pending wakeup.
    pub closed spec fn mode(&self) -> WakeupMode {
        mode_of(self.word as nat)
    }

    /// The control token is in its semaphore.
    pub closed spec fn token_free(&self) -> bool {
        self.token == 1
    }

    /// The wake-one event is signaled.
    pub closed spec fn wake_one_set(&self) -> bool {
        self.wake_one
    }

    /// The wake-all event is signaled.
    pub closed spec fn wake_all_set(&self) -> bool {
        self.wake_all
    }

    /// The host objects exist.
    pub closed spec fn is_ready(&self) -> bool {
        self.ready
    }

    pub closed spec fn wf(&self) -> bool {
        &&& word_ok(self.word as nat)
        &&& self.token <= 1
        &&& self.ready ==> {
            &&& (self.mode() == WakeupMode::Idle <==> self.token == 1)
            &&& (self.wake_one <==> self.mode() == WakeupMode::One)
            &&& (self.wake_all <==> self.mode() == WakeupMode::All)
            &&& (self.mode() != WakeupMode::Idle ==> self.sleepers() > 0)
        }
        &&& !self.ready ==> self.word == 0 && self.token == 0 && !self.wake_one && !self.wake_all
    }

    /// No wakeup is pending: no event is signaled and the token is free.
    pub open spec fn quiescent(&self) -> bool {
        &&& self.is_ready()
        &&& self.mode() == WakeupMode::Idle
        &&& self.token_free()
        &&& !self.wake_one_set()
        &&& !self.wake_all_set()
    }

    /// Quiescent with no sleeper: as good as fresh.
    pub open spec fn is_idle(&self) -> bool {
        self.quiescent() && self.sleepers() == 0
    }

    /// A sleeper may end its wait with `outcome` under `timeout_ms`.
    pub open spec fn can_wake(&self, outcome: WaitOutcome, timeout_ms: u32) -> bool {
        &&& self.sleepers() > 0
        &&& outcome == WaitOutcome::WokenOne ==> self.wake_one_set()
        &&& outcome == WaitOutcome::WokenAll ==> self.wake_all_set()
        &&& outcome == WaitOutcome::TimedOut ==> timeout_ms != INFINITE
    }

    /// The state after one more thread registers.
    pub closed spec fn registered(self) -> Condvar {
        Condvar { word: (self.word + 1) as usize, ..self }
    }

    /// The state after a notification in mode `m` (`One` or `All`).
    pub closed spec fn notified(self, m: WakeupMode) -> Condvar {
        if self.sleepers() > 0 {
            Condvar {
                word: (self.word + mode_bit(m)) as usize,
                token: 0,
                wake_one: m == WakeupMode::One,
                wake_all: m == WakeupMode::All,
                ..self
            }
        } else {
            self
        }
    }

    /// The duty of a sleeper whose wait ended with `outcome`, read from the
    /// word after its own subtraction.
    pub closed spec fn duty_for(self, outcome: WaitOutcome, timeout_ms: u32) -> Duty {
        let w = (self.word - wake_delta(outcome)) as nat;
        duty_of(outcome, mode_of(w), sleepers_of(w), timeout_ms != INFINITE)
    }

    /// The state after a sleeper whose wait ended with `outcome` has done its
    /// bookkeeping.
    pub closed spec fn woken(self, outcome: WaitOutcome, timeout_ms: u32) -> Condvar {
        let w = (self.word - wake_delta(outcome)) as nat;
        let mid = Condvar {
            word: w as usize,
            wake_one: if outcome == WaitOutcome::WokenOne { false } else { self.wake_one },
            ..self
        };
        match self.duty_for(outcome, timeout_ms) {
            Duty::Release => Condvar { token: (mid.token + 1) as u32, ..mid },
            Duty::ResetOneAndRelease => Condvar {
                word: 0,
                wake_one: false,
                token: (mid.token + 1) as u32,
                ..mid
            },
            Duty::ResetAllAndRelease => Condvar {
                word: 0,
                wake_all: false,
                token: (mid.token + 1) as u32,
                ..mid
            },
            _ => mid,
        }
    }

    /// A condvar whose host objects are not created yet.
    pub fn new() -> (r: Self)
        ensures
            r.wf(),
            !r.is_ready(),
            r.sleepers() == 0,
            r.mode() == WakeupMode::Idle,
    {
        Condvar { word: WAKEUP_MODE_NONE, token: 0, wake_one: false, wake_all: false, ready: false }
    }

    /// Creates the control token (count 1 of 1) and the two events, unset.
    pub fn init(&mut self)
        requires
            old(self).wf(),
            !old(self).is_ready(),
        ensures
            final(self).wf(),
            final(self).is_idle(),
    {
        self.token = 1;
        self.wake_one = false;
        self.wake_all = false;
        self.ready = true;
    }

    /// Whether the control token is free, so that `enter_wait`, `notify_one`
    /// and `notify_all` may proceed.
    pub fn token_available(&self) -> (r: bool)
        ensures
            r == self.token_free(),
    {
        self.token == 1
    }

    /// The number of sleepers.
    pub fn sleepers_count(&self) -> (r: usize)
        requires
            self.wf(),
        ensures
            r as nat == self.sleepers(),
    {
        unpack(self.word).0
    }

    /// The pending wakeup.
    pub fn wakeup_mode(&self) -> (r: WakeupMode)
        requires
            self.wf(),
        ensures
            r == self.mode(),
    {
        unpack(self.word).1
    }

    /// Whether the state word is zero: no sleeper and no pending wakeup.
    pub fn idle(&self) -> (r: bool)
        requires
            self.wf(),
            self.is_ready(),
        ensures
            r == self.is_idle(),
    {
        proof {
            crate::word::lemma_pack_unpack(0, WakeupMode::Idle);
        }
        self.word == WAKEUP_MODE_NONE
    }

    /// Whether a sleeper may end its wait with `outcome` under `timeout_ms`.
    pub fn wake_enabled(&self, outcome: WaitOutcome, timeout_ms: u32) -> (r: bool)
        requires
            self.wf(),
        ensures
            r == self.can_wake(outcome, timeout_ms),
    {
        let (count, _) = unpack(self.word);
        count > 0 && match outcome {
            WaitOutcome::WokenOne => self.wake_one,
            WaitOutcome::WokenAll => self.wake_all,
            WaitOutcome::TimedOut => timeout_ms != INFINITE,
        }
    }

    /// Registers thread `t`, which holds `mutex`, as a sleeper, then releases
    /// the mutex. Takes the control token for the registration and returns it.
    pub fn enter_wait(&mut self, mutex: &mut Mutex, t: ThreadId)
        requires
            old(self).wf(),
            old(self).quiescent(),
            old(self).sleepers() + 1 < WAKEUP_MODE_ONE as nat,
            old(mutex).wf(),
            old(mutex).holder() == Some(t),
        ensures
            final(self).wf(),
            *final(self) == old(self).registered(),
            final(self).quiescent(),
            final(self).sleepers() == old(self).sleepers() + 1,
            final(mutex).wf(),
            final(mutex).holder() is None,
            final(mutex).backing().created() == old(mutex).backing().created(),
            final(mutex).backing().destroyed() == old(mutex).backing().destroyed(),
            final(mutex).backing().pending() == old(mutex).backing().pending(),
    {
        proof {
            self.lemma_registered();
        }
        self.token = self.token - 1;
        self.word = self.word + 1;
        self.token = self.token + 1;
        mutex.unlock(t);
    }

    /// Finishes the wait of sleeper `t` whose wait on the two events ended
    /// with `outcome`, `timeout_ms` being its timeout: counts it out, does its
    /// cleanup duty, and takes `mutex` again. Returns false if it timed out.
    pub fn wait_timeout(&mut self, mutex: &mut Mutex, t: ThreadId, timeout_ms: u32, outcome: WaitOutcome) -> (r: bool)
        requires
            old(self).wf(),
            old(self).is_ready(),
            old(self).can_wake(outcome, timeout_ms),
            old(mutex).wf(),
            old(mutex).holder() is None,
            old(mutex).backing().can_allocate(),
        ensures
            final(self).wf(),
            *final(self) == old(self).woken(outcome, timeout_ms),
            final(self).is_ready(),
            final(self).sleepers() + 1 == old(self).sleepers(),
            outcome == WaitOutcome::WokenOne ==> final(self).quiescent(),
            old(self).quiescent() ==> final(self).quiescent(),
            old(self).mode() == WakeupMode::All ==> {
                if old(self).sleepers() == 1 {
                    final(self).quiescent()
                } else {
                    final(self).mode() == WakeupMode::All && final(self).wake_all_set()
                }
            },
            r == (outcome != WaitOutcome::TimedOut),
            final(mutex).wf(),
            final(mutex).holder() == Some(t),
            final(mutex).backing().created() == old(mutex).backing().created()
                + (if old(mutex).backing().slot() is None { 1nat } else { 0 }),
            final(mutex).backing().destroyed() == old(mutex).backing().destroyed(),
            final(mutex).backing().pending() == old(mutex).backing().pending(),
    {
        proof {
            self.lemma_woken(outcome, timeout_ms);
            crate::word::lemma_pack_unpack(self.sleepers(), self.mode());
        }
        let sub: usize = if outcome == WaitOutcome::WokenOne {
            self.wake_one = false;
            1 + WAKEUP_MODE_ONE
        } else {
            1
        };
        self.word = self.word - sub;
        let (count, m) = unpack(self.word);
        match cleanup_duty(outcome, m, count, timeout_ms) {
            Duty::Release => {
                self.token = self.token + 1;
            },
            Duty::ResetOneAndRelease => {
                self.wake_one = false;
                self.word = WAKEUP_MODE_NONE;
                self.token = self.token + 1;
            },
            Duty::ResetAllAndRelease => {
                self.wake_all = false;
                self.word = WAKEUP_MODE_NONE;
                self.token = self.token + 1;
            },
            Duty::Nothing => {},
            // `lemma_woken`: no well-formed state reaches this duty.
            Duty::Invalid => {},
        }
        mutex.lock(t);
        outcome != WaitOutcome::TimedOut
    }

    /// Finishes a wait without timeout: `wait_timeout` with an infinite one.
    pub fn wait(&mut self, mutex: &mut Mutex, t: ThreadId, outcome: WaitOutcome)
        requires
            old(self).wf(),
            old(self).is_ready(),
            old(self).can_wake(outcome, INFINITE),
            old(mutex).wf(),
            old(mutex).holder() is None,
            old(mutex).backing().can_allocate(),
        ensures
            final(self).wf(),
            *final(self) == old(self).woken(outcome, INFINITE),
            final(self).is_ready(),
            final(self).sleepers() + 1 == old(self).sleepers(),
            outcome == WaitOutcome::WokenOne ==> final(self).quiescent(),
            old(self).mode() == WakeupMode::All ==> {
                if old(self).sleepers() == 1 {
                    final(self).quiescent()
                } else {
                    final(self).mode() == WakeupMode::All && final(self).wake_all_set()
                }
            },
            final(mutex).wf(),
            final(mutex).holder() == Some(t),
            final(mutex).backing().created() == old(mutex).backing().created()
                + (if old(mutex).backing().slot() is None { 1nat } else { 0 }),
            final(mutex).backing().destroyed() == old(mutex).backing().destroyed(),
            final(mutex).backing().pending() == old(mutex).backing().pending(),
    {
        self.wait_timeout(mutex, t, INFINITE, outcome);
    }

    /// Takes the control token and posts a wakeup in mode `m`. With sleepers,
    /// signals the mode's event and leaves the token to the waiter that
    /// completes the wakeup; without, clears the word and returns the token.
    fn wakeup(&mut self, m: WakeupMode)
        requires
            old(self).wf(),
            old(self).quiescent(),
            m != WakeupMode::Idle,
        ensures
            final(self).wf(),
            *final(self) == old(self).notified(m),
    {
        proof {
            self.lemma_notified(m);
            crate::word::lemma_pack_unpack(self.sleepers(), WakeupMode::Idle);
            crate::word::lemma_pack_unpack(self.sleepers(), m);
        }
        self.token = self.token - 1;
        let prior = self.word;
        let bit: usize = if m == WakeupMode::One { WAKEUP_MODE_ONE } else { WAKEUP_MODE_ALL };
        self.word = self.word + bit;
        let (count, _) = unpack(prior);
        if count > 0 {
            if m == WakeupMode::One {
                self.wake_one = true;
            } else {
                self.wake_all = true;
            }
        } else {
            self.word = WAKEUP_MODE_NONE;
            self.token = self.token + 1;
        }
    }

    /// Wakes one sleeper, if there is any.
    pub fn notify_one(&mut self)
        requires
            old(self).wf(),
            old(self).quiescent(),
        ensures
            final(self).wf(),
            *final(self) == old(self).notified(WakeupMode::One),
            final(self).is_ready(),
            final(self).sleepers() == old(self).sleepers(),
            old(self).sleepers() == 0 ==> *final(self) == *old(self),
            old(self).sleepers() > 0 ==> final(self).mode() == WakeupMode::One
                && final(self).wake_one_set() && !final(self).wake_all_set() && !final(self).token_free(),
    {
        proof {
            self.lemma_notified(WakeupMode::One);
        }
        self.wakeup(WakeupMode::One);
    }

    /// Wakes every sleeper.
    pub fn notify_all(&mut self)
        requires
            old(self).wf(),
            old(self).quiescent(),
        ensures
            final(self).wf(),
            *final(self) == old(self).notified(WakeupMode::All),
            final(self).is_ready(),
            final(self).sleepers() == old(self).sleepers(),
            old(self).sleepers() == 0 ==> *final(self) == *old(self),
            old(self).sleepers() > 0 ==> final(self).mode() == WakeupMode::All
                && final(self).wake_all_set() && !final(self).wake_one_set() && !final(self).token_free(),
    {
        proof {
            self.lemma_notified(WakeupMode::All);
        }
        self.wakeup(WakeupMode::All);
    }

    /// Deletes the host objects; no thread may be waiting.
    pub fn destroy(&mut self)
        requires
            old(self).wf(),
            old(self).is_ready(),
            old(self).sleepers() == 0,
        ensures
            final(self).wf(),
            !final(self).is_ready(),
            final(self).sleepers() == 0,
    {
        proof {
            self.lemma_ready_facts();
        }
        self.token = 0;
        self.ready = false;
    }

    /// A ready condvar's state is fixed by its word: which event is signaled
    /// and where the token is follow from the mode.
    pub proof fn lemma_ready_facts(&self)
        requires
            self.wf(),
            self.is_ready(),
        ensures
            self.token_free() <==> self.mode() == WakeupMode::Idle,
            self.wake_one_set() <==> self.mode() == WakeupMode::One,
            self.wake_all_set() <==> self.mode() == WakeupMode::All,
            self.mode() != WakeupMode::Idle ==> self.sleepers() > 0,
    {
    }

    /// Registration keeps the state well formed and adds one sleeper.
    pub proof fn lemma_registered(&self)
        requires
            self.wf(),
            self.quiescent(),
            self.sleepers() + 1 < WAKEUP_MODE_ONE as nat,
        ensures
            self.registered().wf(),
            self.registered().quiescent(),
            self.registered().sleepers() == self.sleepers() + 1,
    {
    }

    /// A notification keeps the state well formed; with sleepers it leaves
    /// exactly its own event signaled and keeps the token.
    pub proof fn lemma_notified(&self, m: WakeupMode)
        requires
            self.wf(),
            self.quiescent(),
            m != WakeupMode::Idle,
        ensures
            self.notified(m).wf(),
            self.notified(m).is_ready(),
            self.notified(m).sleepers() == self.sleepers(),
            self.sleepers() == 0 ==> self.notified(m) == *self,
            self.sleepers() > 0 ==> {
                &&& self.notified(m).mode() == m
                &&& !self.notified(m).token_free()
                &&& self.notified(m).wake_one_set() == (m == WakeupMode::One)
                &&& self.notified(m).wake_all_set() == (m == WakeupMode::All)
            },
    {
        if self.sleepers() > 0 {
            crate::word::lemma_pack_unpack(self.sleepers(), m);
        }
    }

    /// A sleeper's bookkeeping keeps the state well formed, removes exactly
    /// that sleeper, and never meets the invalid duty.
    pub proof fn lemma_woken(&self, outcome: WaitOutcome, timeout_ms: u32)
        requires
            self.wf(),
            self.is_ready(),
            self.can_wake(outcome, timeout_ms),
        ensures
            self.duty_for(outcome, timeout_ms) != Duty::Invalid,
            self.woken(outcome, timeout_ms).wf(),
            self.woken(outcome, timeout_ms).is_ready(),
            self.woken(outcome, timeout_ms).sleepers() + 1 == self.sleepers(),
            outcome == WaitOutcome::WokenOne ==> self.woken(outcome, timeout_ms).quiescent(),
            self.mode() == WakeupMode::All ==> {
                if self.sleepers() == 1 {
                    self.woken(outcome, timeout_ms).quiescent()
                } else {
                    self.woken(outcome, timeout_ms).mode() == WakeupMode::All
                        && self.woken(outcome, timeout_ms).wake_all_set()
                }
            },
            self.quiescent() ==> self.woken(outcome, timeout_ms).quiescent(),
    {
        let s = self.sleepers();
        let m = self.mode();
        crate::word::lemma_pack_unpack(s, m);
        crate::word::lemma_pack_unpack((s - 1) as nat, m);
        crate::word::lemma_pack_unpack((s - 1) as nat, WakeupMode::Idle);
        crate::word::lemma_pack_unpack(0, WakeupMode::Idle);
    }
}

/// `k` rounds, each a `notify_one` followed by the bookkeeping of the one
/// sleeper it wakes, if it wakes one.
pub open spec fn notify_one_rounds(cv: Condvar, k: nat) -> Condvar
    decreases k,
{
    if k == 0 {
        cv
    } else {
        let c = notify_one_rounds(cv, (k - 1) as nat).notified(WakeupMode::One);
        if c.wake_one_set() {
            c.woken(WaitOutcome::WokenOne, INFINITE)
        } else {
            c
        }
    }
}

/// A `notify_one` with sleepers signals the wake-one event alone, which one
/// sleeper consumes; until that sleeper is done the token stays out, so no
/// other notification or registration intervenes.
pub proof fn lemma_notify_one_wakes_one(cv: Condvar)
    requires
        cv.wf(),
        cv.quiescent(),
        cv.sleepers() > 0,
    ensures
        cv.notified(WakeupMode::One).wake_one_set(),
        !cv.notified(WakeupMode::One).wake_all_set(),
        !cv.notified(WakeupMode::One).token_free(),
        cv.notified(WakeupMode::One).woken(WaitOutcome::WokenOne, INFINITE).quiescent(),
        cv.notified(WakeupMode::One).woken(WaitOutcome::WokenOne, INFINITE).sleepers() + 1
            == cv.sleepers(),
{
    cv.lemma_notified(WakeupMode::One);
    cv.notified(WakeupMode::One).lemma_woken(WaitOutcome::WokenOne, INFINITE);
}

/// With `n` sleepers, `k` calls of `notify_one` release exactly `min(k, n)` of
/// them; the rest stay asleep with no event signaled, and no credit is kept
/// for threads that register later.
pub proof fn lemma_notify_one_releases_min(cv: Condvar, k: nat)
    requires
        cv.wf(),
        cv.quiescent(),
    ensures
        notify_one_rounds(cv, k).wf(),
        notify_one_rounds(cv, k).quiescent(),
        notify_one_rounds(cv, k).sleepers() == cv.sleepers() - (if k < cv.sleepers() { k } else { cv.sleepers() }),
    decreases k,
{
    if k > 0 {
        let prev = notify_one_rounds(cv, (k - 1) as nat);
        lemma_notify_one_releases_min(cv, (k - 1) as nat);
        prev.lemma_notified(WakeupMode::One);
        if prev.sleepers() > 0 {
            lemma_notify_one_wakes_one(prev);
            prev.notified(WakeupMode::One).lemma_woken(WaitOutcome::WokenOne, INFINITE);
        }
    }
}

/// The state after `k` sleepers have each finished a wait that the wake-all
/// event ended.
pub open spec fn drain_all(cv: Condvar, k: nat) -> Condvar
    decreases k,
{
    if k == 0 {
        cv
    } else {
        drain_all(cv, (k - 1) as nat).woken(WaitOutcome::WokenAll, INFINITE)
    }
}

/// A `notify_all` with `n` sleepers lets every one of them wake: the wake-all
/// event stays signaled until the last has finished, and then the state word
/// is zero, both events are reset and the token is back, so a thread that
/// registers afterwards finds no stale wakeup.
pub proof fn lemma_notify_all_releases_all(cv: Condvar, k: nat)
    requires
        cv.wf(),
        cv.quiescent(),
        cv.sleepers() > 0,
        k <= cv.sleepers(),
    ensures
        drain_all(cv.notified(WakeupMode::All), k).wf(),
        drain_all(cv.notified(WakeupMode::All), k).sleepers() + k == cv.sleepers(),
        k < cv.sleepers() ==> drain_all(cv.notified(WakeupMode::All), k).wake_all_set()
            && drain_all(cv.notified(WakeupMode::All), k).mode() == WakeupMode::All,
        k == cv.sleepers() ==> drain_all(cv.notified(WakeupMode::All), k).is_idle(),
    decreases k,
{
    cv.lemma_notified(WakeupMode::All);
    let n = cv.notified(WakeupMode::All);
    n.lemma_ready_facts();
    if k > 0 {
        lemma_notify_all_releases_all(cv, (k - 1) as nat);
        let prev = drain_all(n, (k - 1) as nat);
        prev.lemma_ready_facts();
        prev.lemma_woken(WaitOutcome::WokenAll, INFINITE);
        prev.woken(WaitOutcome::WokenAll, INFINITE).lemma_ready_facts();
    }
}

/// A lone waiter that registers on an idle condvar and times out leaves it
/// exactly as it was.
pub proof fn lemma_lone_timeout_restores(cv: Condvar, timeout_ms: u32)
    requires
        cv.wf(),
        cv.is_idle(),
        timeout_ms != INFINITE,
    ensures
        cv.registered().woken(WaitOutcome::TimedOut, timeout_ms) == cv,
        cv.registered().woken(WaitOutcome::TimedOut, timeout_ms).is_idle(),
{
    cv.lemma_registered();
    cv.registered().lemma_woken(WaitOutcome::TimedOut, timeout_ms);
    crate::word::lemma_pack_unpack(0, WakeupMode::Idle);
    crate::word::lemma_pack_unpack(1, WakeupMode::Idle);
}

} // verus!
