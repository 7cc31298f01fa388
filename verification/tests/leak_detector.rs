use leak_detector::{AllocFailure, LeakDetector};

#[test]
fn test() {
    let mut g = LeakDetector::system();
    g.allocate(10, true).unwrap();
    g.allocate(130, true).unwrap();
    g.allocate(120, true).unwrap();
    g.allocate(140, true).unwrap();
    assert_eq!(g.get_used(), 400);
    g.deallocate(10);
    g.deallocate(130);
    g.deallocate(120);
    g.deallocate(140);
    g.assert_no_leak();
    assert_eq!(g.get_used(), 0);
}

#[test]
fn scope() {
    let g = LeakDetector::system();
    let (g, ()) = g.scope_with(|mut g| {
        g.allocate(10, true).unwrap();
        g.allocate(130, true).unwrap();
        g.allocate(120, true).unwrap();
        g.allocate(140, true).unwrap();
        g.deallocate(10);
        g.deallocate(130);
        g.deallocate(120);
        g.deallocate(140);
        (g, ())
    });
    assert_eq!(g.get_used(), 0);
}

#[test]
fn failed_allocation_leaves_counter_unchanged() {
    let mut g = LeakDetector::system();
    g.allocate(100, true).unwrap();
    let before = g.get_used();
    assert_eq!(g.allocate(50, false), Err(AllocFailure));
    assert_eq!(g.get_used(), before);
    assert_eq!(g.allocate_zeroed(50, false), Err(AllocFailure));
    assert_eq!(g.get_used(), before);
    assert!(!g.raw_alloc(50, false));
    assert_eq!(g.get_used(), before);
    assert!(!g.alloc_zeroed(50, false));
    assert_eq!(g.get_used(), before);
    assert_eq!(g.grow(100, 200, false), Err(AllocFailure));
    assert_eq!(g.get_used(), before);
    assert_eq!(g.shrink(100, 20, false), Err(AllocFailure));
    assert_eq!(g.get_used(), before);
    assert!(!g.realloc(100, 64, false));
    assert_eq!(g.get_used(), before);
    g.deallocate(100);
    g.assert_no_leak();
}

#[test]
fn grow_and_shrink_move_counter_by_exact_difference() {
    let mut g = LeakDetector::new(());
    g.allocate(100, true).unwrap();
    g.grow(100, 150, true).unwrap();
    assert_eq!(g.get_used(), 150);
    g.grow_zeroed(150, 170, true).unwrap();
    assert_eq!(g.get_used(), 170);
    g.shrink(170, 30, true).unwrap();
    assert_eq!(g.get_used(), 30);
    g.deallocate(30);
    g.assert_no_leak();
}

#[test]
fn realloc_recomputes_counter_from_both_sizes() {
    let mut g = LeakDetector::new(());
    assert!(g.raw_alloc(100, true));
    assert!(g.raw_alloc(7, true));
    let before = g.get_used();
    assert!(g.realloc(100, 64, true));
    assert_eq!(g.get_used(), before - 100 + 64);
    assert!(g.realloc(64, 256, true));
    assert_eq!(g.get_used(), before - 100 + 256);
    g.dealloc(256);
    g.dealloc(7);
    assert_eq!(g.get_used(), 0);
    g.assert_no_leak();
}

#[test]
fn leaked_block_keeps_counter_nonzero() {
    let mut g = LeakDetector::system();
    g.allocate(50, true).unwrap();
    assert_eq!(g.get_used(), 50);
    assert_ne!(g.get_used(), 0);
}

#[test]
fn unbalanced_scope_ends_off_baseline() {
    let mut g = LeakDetector::system();
    g.allocate(16, true).unwrap();
    let baseline = g.get_used();
    let _guard = g.scope();
    assert!(g.raw_alloc(64, true));
    assert_eq!(g.get_used(), baseline + 64);
    assert_ne!(g.get_used(), baseline);
}

#[test]
fn nested_scopes_capture_independent_baselines() {
    let mut g = LeakDetector::new(());
    let outer = g.scope();
    g.allocate(8, true).unwrap();
    let inner = g.scope();
    g.allocate(4, true).unwrap();
    g.deallocate(4);
    inner.close(&g);
    g.deallocate(8);
    outer.close(&g);
    g.assert_no_leak();
}

#[test]
fn scope_with_returns_the_work_result() {
    let g = LeakDetector::new(0u8);
    let (g, answer) = g.scope_with(|mut g| {
        g.allocate(32, true).unwrap();
        g.deallocate(32);
        (g, 41 + 1)
    });
    assert_eq!(answer, 42);
    assert_eq!(g.get_used(), 0);
}

#[test]
fn zero_sized_blocks_do_not_move_the_counter() {
    let mut g = LeakDetector::system();
    g.allocate(0, true).unwrap();
    assert_eq!(g.get_used(), 0);
    g.assert_no_leak();
    g.deallocate(0);
    assert_eq!(g.get_used(), 0);
}

#[test]
fn counter_starts_at_zero() {
    let g = LeakDetector::new(());
    assert_eq!(g.get_used(), 0);
    g.assert_no_leak();
    let s = LeakDetector::system();
    assert_eq!(s.get_used(), 0);
    let d = LeakDetector::<u8>::default();
    assert_eq!(d.get_used(), 0);
}
