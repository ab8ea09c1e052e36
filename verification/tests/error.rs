use kamikaze_di::{Error, ErrorKind};

#[test]
fn test_send() {
    fn assert_send<T: Send>() {}
    assert_send::<Error>();
}

#[test]
fn test_sync() {
    fn assert_sync<T: Sync>() {}
    assert_sync::<Error>();
}

#[test]
fn every_kind_names_itself() {
    assert_eq!(ErrorKind::ConstructionFailure, Error::with_message("x").kind());
    assert_eq!("x", Error::with_message("x").message());
    assert_eq!(ErrorKind::DuplicateRegistration, Error::duplicate_registration().kind());
    assert_eq!(ErrorKind::TypeNotRegistered, Error::type_not_registered().kind());
    assert_eq!(ErrorKind::CircularDependency, Error::circular_dependency().kind());
    assert_eq!(ErrorKind::InternalInconsistency, Error::internal_inconsistency().kind());
}
