use kamikaze_di::{CycleStopper, ErrorKind};

#[test]
fn allows_new_types() {
    let mut stopper: CycleStopper = Default::default();

    stopper.track(1).unwrap();
    stopper.track(2).unwrap();
}

#[test]
fn tracked_types_can_get_untracked() {
    let mut stopper: CycleStopper = Default::default();

    let guard = stopper.track(1).unwrap();
    stopper.untrack(guard);
    stopper.track(1).unwrap();
}

#[test]
fn reentry_is_reported_as_circular_dependency() {
    let mut stopper: CycleStopper = Default::default();

    let _guard = stopper.track(1).unwrap();
    let error = stopper.track(1).unwrap_err();

    assert_eq!(ErrorKind::CircularDependency, error.kind());
}
