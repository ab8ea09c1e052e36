//! The container's error type.
//!
//! Every failure of the container is reported as an [`Error`]: a kind from a
//! small closed taxonomy plus a human-readable message.

use vstd::prelude::*;

verus! {

/// The closed taxonomy of container failures.
#[derive(Clone, Copy, Debug, PartialEq, Eq, Structural)]
pub enum ErrorKind {
    /// A key was registered while an entry for it was already present.
    DuplicateRegistration,
    /// A key was resolved with no registration and no viable auto-resolve.
    TypeNotRegistered,
    /// A key was resolved again while a resolution of it was in flight.
    CircularDependency,
    /// A user-supplied constructor, or the resolution of one of its
    /// dependencies, failed.
    ConstructionFailure,
    /// The registry was found in a state that registration discipline rules
    /// out; reachable only through a defensive check.
    InternalInconsistency,
}

/// An error of the container: a kind plus a human-readable message.
#[derive(Clone, Debug)]
pub struct Error {
    kind: ErrorKind,
    message: String,
}

/// The library's result type: success, or an [`Error`] of the container.
pub type DiResult<T> = core::result::Result<T, Error>;

impl Error {
    /// Which failure this is.
    pub closed spec fn spec_kind(&self) -> ErrorKind {
        self.kind
    }

    /// The message carried by this error.
    pub closed spec fn spec_message(&self) -> Seq<char> {
        self.message@
    }

    /// Which failure this is.
    #[verifier::when_used_as_spec(spec_kind)]
    pub fn kind(&self) -> (r: ErrorKind)
        ensures
            r == self.spec_kind(),
    {
        self.kind
    }

    /// Builds a construction failure carrying `message`; the way a
    /// user-supplied constructor reports why it could not produce a value.
    pub fn with_message(message: &str) -> (r: Error)
        ensures
            r.kind() == ErrorKind::ConstructionFailure,
            r.spec_message() == message@,
    {
        Error { kind: ErrorKind::ConstructionFailure, message: message.to_owned() }
    }

    /// Builds the error for a key registered twice.
    pub fn duplicate_registration() -> (r: Error)
        ensures
            r.kind() == ErrorKind::DuplicateRegistration,
    {
        Error {
            kind: ErrorKind::DuplicateRegistration,
            message: "an entry for this key is already registered".to_owned(),
        }
    }

    /// Builds the error for a key with no registration and no viable
    /// auto-resolve.
    pub fn type_not_registered() -> (r: Error)
        ensures
            r.kind() == ErrorKind::TypeNotRegistered,
    {
        Error {
            kind: ErrorKind::TypeNotRegistered,
            message: "no entry is registered for this key".to_owned(),
        }
    }

    /// Builds the error for a reentrant resolution of a key.
    pub fn circular_dependency() -> (r: Error)
        ensures
            r.kind() == ErrorKind::CircularDependency,
    {
        Error {
            kind: ErrorKind::CircularDependency,
            message: "the key is already being resolved on this call chain".to_owned(),
        }
    }

    /// Builds the error for a registry state that registration discipline
    /// rules out.
    pub fn internal_inconsistency() -> (r: Error)
        ensures
            r.kind() == ErrorKind::InternalInconsistency,
    {
        Error {
            kind: ErrorKind::InternalInconsistency,
            message: "the registry entry does not have the expected kind".to_owned(),
        }
    }

    /// The message, as an owned string.
    pub fn message(&self) -> (r: String)
        ensures
            r@ == self.spec_message(),
    {
        self.message.clone()
    }
}

} // verus!
