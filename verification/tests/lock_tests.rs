use nacl::lock::{check, Mutex};
use nacl::task::Poll;

#[test]
fn try_lock_gives_one_guard_at_a_time() {
    let mut m = Mutex::new(10u32);
    assert!(!m.is_locked());
    let g = m.try_lock().unwrap();
    assert!(m.is_locked());
    // While the guard is live, no second guard can be produced.
    assert!(m.try_lock().is_none());
    assert!(matches!(m.lock(1), Poll::Pending));
    let woken = m.unlock(g);
    assert!(!m.is_locked());
    // The suspended waiter is handed out on release.
    assert_eq!(woken, Some(1));
}

#[test]
fn guard_drop_unlocks_exactly_once() {
    let mut m = Mutex::new(5u64);
    let g = m.try_lock().unwrap();
    assert!(m.is_locked());
    let woken = m.unlock(g);
    assert_eq!(woken, None);
    assert!(!m.is_locked());
    // The lock is usable again after release.
    let g = m.try_lock().unwrap();
    assert!(m.is_locked());
    m.unlock(g);
    assert!(!m.is_locked());
}

#[test]
fn guard_carries_the_protected_value() {
    let mut m = Mutex::new(String::from("console"));
    let mut g = m.try_lock().unwrap();
    assert_eq!(g.borrow(), "console");
    let prev = g.replace(String::from("framebuffer"));
    assert_eq!(prev, "console");
    m.unlock(g);
    let g = m.try_lock().unwrap();
    assert_eq!(g.borrow(), "framebuffer");
    m.unlock(g);
}

#[test]
fn lock_fast_path_skips_registration() {
    let mut m = Mutex::new(0u8);
    let g = match m.lock(7) {
        Poll::Ready(g) => g,
        Poll::Pending => panic!("an uncontended lock must succeed"),
    };
    // The fast path registered nothing, so release wakes nobody.
    assert_eq!(m.unlock(g), None);
}

#[test]
fn second_waiter_overwrites_the_first() {
    let mut m = Mutex::new(0u8);
    let g = m.try_lock().unwrap();
    assert!(matches!(m.lock(1), Poll::Pending));
    assert!(matches!(m.lock(2), Poll::Pending));
    // Only the most recent registration survives; the first waiter's
    // notification is dropped, as the single-slot design accepts.
    assert_eq!(m.unlock(g), Some(2));
}

#[test]
fn lock_or_spin_acquires_free_lock() {
    let mut m = Mutex::new(3i32);
    let g = m.lock_or_spin();
    assert!(m.is_locked());
    assert_eq!(*g.borrow(), 3);
    assert_eq!(m.unlock(g), None);
}

#[test]
fn compare_and_swap_shape() {
    let mut locked = false;
    assert_eq!(check(&mut locked), Ok(false));
    assert!(locked);
    assert_eq!(check(&mut locked), Err(true));
    assert!(locked);
}
