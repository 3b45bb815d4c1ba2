use winsync::mutex::{LazyBacking, Mutex, ReentrantMutex};
use winsync::rwlock::RWLock;

#[test]
fn reentrant_mutex_allows_recursion() {
    let mut re = ReentrantMutex::uninitialized();
    re.init();
    re.lock(1);
    assert!(re.can_lock(1));
    re.lock(1);
    assert!(!re.try_lock(2));
    re.unlock(1);
    assert!(!re.can_lock(2));
    re.unlock(1);
    assert!(re.try_lock(2));
    re.unlock(2);
    re.destroy();
}

#[test]
fn mutex_lock_and_unlock() {
    let mut m = Mutex::new();
    m.init();
    assert!(!m.backing_lock().is_published());
    m.lock(1);
    assert!(m.is_held_by(1));
    assert!(m.backing_lock().is_published());
    assert_eq!(m.backing_lock().created_count(), 1);
    m.unlock(1);
    assert!(!m.is_held_by(1));
    m.lock(1);
    m.unlock(1);
    assert_eq!(m.backing_lock().created_count(), 1);
    m.destroy();
    assert!(!m.backing_lock().is_published());
    assert_eq!(m.backing_lock().destroyed_count(), 1);
}

#[test]
fn mutex_recursive_try_lock_fails() {
    let mut m = Mutex::new();
    m.lock(1);
    assert!(!m.can_lock(1));
    assert!(!m.try_lock(1));
    assert!(m.is_held_by(1));
    m.unlock(1);
    assert!(m.try_lock(1));
    m.unlock(1);
}

#[test]
fn mutex_other_thread_waits_for_unlock() {
    let mut m = Mutex::new();
    m.lock(1);
    assert!(!m.can_lock(2));
    assert!(!m.try_lock(2));
    assert!(m.is_held_by(1));
    m.unlock(1);
    assert!(m.can_lock(2));
    m.lock(2);
    assert!(m.is_held_by(2));
    m.unlock(2);
}

#[test]
fn destroying_unused_mutex_is_a_no_op() {
    let mut m = Mutex::new();
    m.destroy();
    assert_eq!(m.backing_lock().created_count(), 0);
    assert_eq!(m.backing_lock().destroyed_count(), 0);
}

#[test]
fn racing_first_use_keeps_one_backing_lock() {
    let mut b = LazyBacking::new();
    let first = b.allocate();
    let second = b.allocate();
    let third = b.allocate();
    b.publish(second);
    assert!(b.is_published());
    b.publish(first);
    b.publish(third);
    assert_eq!(b.created_count(), 3);
    assert_eq!(b.destroyed_count(), 2);
    b.acquire_backing();
    assert_eq!(b.created_count(), 3);
    b.destroy();
    assert_eq!(b.destroyed_count(), 3);
}

#[test]
fn rwlock_is_exclusive() {
    let mut l = RWLock::new();
    l.read(1);
    assert!(!l.try_read(2));
    assert!(!l.try_write(2));
    assert!(!l.try_read(1));
    l.read_unlock(1);
    l.write(2);
    assert!(l.is_held_by(2));
    assert!(!l.can_read(1));
    l.write_unlock(2);
    assert!(l.try_write(1));
    l.write_unlock(1);
    assert!(l.try_read(2));
    l.read_unlock(2);
    assert_eq!(l.backing_lock().created_count(), 1);
    l.destroy();
    assert_eq!(l.backing_lock().destroyed_count(), 1);
}
