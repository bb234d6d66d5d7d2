use dybs::{fault_message, My, ReleaseOutcome};

/// A payload whose cloning is observable: each clone carries a counter one
/// higher than the value it was cloned from.
struct CloneTrack(usize);

impl Clone for CloneTrack {
    fn clone(&self) -> Self {
        Self(self.0 + 1)
    }
}

#[test]
fn constructs() {
    let mut my = My::new(());
    assert_eq!(my.release(), ReleaseOutcome::Freed);
}

#[test]
fn borrow_works() {
    let mut my = My::new(());
    let dyb = my.borrow();
    assert_eq!(*dyb.access(&my), ());
    dyb.release(&mut my);
    assert_eq!(my.release(), ReleaseOutcome::Freed);
}

#[test]
#[should_panic(
    expected = "My pointer dropped with outstanding Dybs - this will leak the resource"
)]
fn invalid_drop_order_panics() {
    let mut my = My::new(());
    let dyb = my.borrow();
    if my.release() == ReleaseOutcome::Faulted {
        panic!("{}", fault_message());
    }
    dyb.release(&mut my);
}

#[test]
fn dyb_clone_works() {
    let mut my = My::new(());
    let dyb = my.borrow();
    let dyb_2 = dyb.duplicate(&mut my);
    dyb.release(&mut my);
    dyb_2.release(&mut my);
    assert_eq!(my.release(), ReleaseOutcome::Freed);
}

#[test]
#[should_panic(
    expected = "My pointer dropped with outstanding Dybs - this will leak the resource"
)]
fn invalid_drop_order_with_dyb_clone_panics() {
    let mut my = My::new(());
    let dyb = my.borrow();
    let dyb_2 = dyb.duplicate(&mut my);
    dyb.release(&mut my);
    if my.release() == ReleaseOutcome::Faulted {
        panic!("{}", fault_message());
    }
    dyb_2.release(&mut my);
}

#[test]
fn my_clone_really_clones() {
    let mut my_1 = My::new(CloneTrack(1));
    let mut my_2 = my_1.duplicate();

    let b_1 = my_1.borrow();
    assert_eq!(b_1.access(&my_1).0, 1);
    b_1.release(&mut my_1);

    let b_2 = my_2.borrow();
    assert_eq!(b_2.access(&my_2).0, 2);
    b_2.release(&mut my_2);

    assert_eq!(my_2.release(), ReleaseOutcome::Freed);
    assert_eq!(my_1.release(), ReleaseOutcome::Freed);
}

#[test]
fn access_returns_value() {
    let mut my = My::new(42u64);
    let dyb = my.borrow();
    assert_eq!(*dyb.access(&my), 42u64);
    dyb.release(&mut my);
    assert_eq!(my.release(), ReleaseOutcome::Freed);
}

#[test]
fn owner_access_reads_value() {
    let mut my = My::new(String::from("shared"));
    assert_eq!(my.access().as_str(), "shared");
    assert_eq!(my.release(), ReleaseOutcome::Freed);
}

#[test]
fn release_order_is_irrelevant() {
    let mut my = My::new(5i32);
    let a = my.borrow();
    let b = my.borrow();
    let c = my.borrow();
    b.release(&mut my);
    a.release(&mut my);
    c.release(&mut my);
    assert_eq!(my.release(), ReleaseOutcome::Freed);
}

#[test]
fn duplication_all_released_frees() {
    let mut my = My::new(8u8);
    let d0 = my.borrow();
    let d1 = d0.duplicate(&mut my);
    let d2 = d1.duplicate(&mut my);
    d2.release(&mut my);
    d0.release(&mut my);
    d1.release(&mut my);
    assert_eq!(my.release(), ReleaseOutcome::Freed);
}

#[test]
fn duplication_outstanding_faults() {
    let mut my = My::new(8u8);
    let d0 = my.borrow();
    let d1 = d0.duplicate(&mut my);
    let d2 = d1.duplicate(&mut my);
    d0.release(&mut my);
    d2.release(&mut my);
    assert_eq!(my.release(), ReleaseOutcome::Faulted);
    d1.release(&mut my);
}

#[test]
fn fault_leaks_and_late_release_completes() {
    let mut owner = My::new(0i32);
    let b_1 = owner.borrow();
    assert_eq!(owner.release(), ReleaseOutcome::Faulted);
    assert_eq!(*b_1.access(&owner), 0);
    b_1.release(&mut owner);
}

#[test]
fn fault_message_is_fixed() {
    assert_eq!(
        fault_message(),
        "My pointer dropped with outstanding Dybs - this will leak the resource"
    );
}

#[test]
fn owner_duplicate_is_independent() {
    let mut my_1 = My::new(CloneTrack(10));
    let mut my_2 = my_1.duplicate();
    let b = my_2.borrow();
    assert_eq!(b.access(&my_2).0, 11);
    b.release(&mut my_2);
    assert_eq!(my_2.release(), ReleaseOutcome::Freed);
    assert_eq!(my_1.access().0, 10);
    assert_eq!(my_1.release(), ReleaseOutcome::Freed);
}
