use tailord::suspend::SuspendWatch;

#[test]
fn resume_after_suspend_completes_cycle() {
    let mut w = SuspendWatch::new();
    assert!(!w.observe(true));
    assert!(w.suspended);
    assert!(w.observe(false));
    assert!(!w.suspended);
}

#[test]
fn resume_without_suspend_completes_nothing() {
    let mut w = SuspendWatch::new();
    assert!(!w.observe(false));
    assert!(!w.observe(false));
    assert!(!w.observe(true));
    assert!(!w.observe(true));
    assert!(w.observe(false));
}

#[test]
fn observers_are_independent() {
    let mut a = SuspendWatch::new();
    let mut b = SuspendWatch::new();
    assert!(!a.observe(true));
    assert!(!b.observe(true));
    assert!(a.observe(false));
    assert!(b.observe(false));
}
