//! The capability interface for user-supplied constructors.
//!
//! The container is monomorphic over one embedder-chosen value type and
//! knows nothing about how values are built.  All construction code lives in
//! one catalog type that implements [`Inject`]: it runs registered factories
//! and one-shot builders, and supplies the self-describing constructors that
//! let a key be resolved without prior registration.  Constructors receive
//! the container and are expected to call
//! [`Container::resolve`](crate::container::Container::resolve) for their
//! own dependencies; that recursion is what makes dependency graphs
//! compose.

use vstd::prelude::*;

use crate::container::{evolves, Container, TypeKey};
use crate::error::{DiResult, Error, ErrorKind};

verus! {

/// A catalog of user-supplied constructors for one value type.
///
/// Every method receives the resolving container and may re-enter it; each
/// promises that the container keeps its invariant, that its in-flight
/// chain is restored, that the registry only changes along the entry
/// lifecycle, and that the set of auto-resolvable keys is stable.  What a
/// constructor cannot promise — whether it succeeds, and with which value —
/// is left open, and the engine's own contract states what holds whatever
/// came back.
pub trait Inject<V>: Sized {
    /// The keys this catalog can construct without a registration: those
    /// with a self-describing constructor.
    ///
    /// The default says there are none; an implementation that is itself
    /// verified overrides it with the set its `resolve` answers for, since
    /// its contract ties the two together.
    open spec fn auto_keys(&self) -> Set<TypeKey> {
        Set::empty()
    }

    /// Runs the factory constructor registered for `key`.
    ///
    /// Called on every resolution of a key registered as a repeatable
    /// factory; the catalog's own state persists between calls, so a
    /// factory may, for instance, count its invocations.
    fn run_factory(&mut self, container: &mut Container<V>, key: TypeKey) -> (r: DiResult<V>)
        requires
            old(container).wf(),
        ensures
            final(container).wf(),
            evolves(*old(container), *final(container)),
            final(self).auto_keys() == old(self).auto_keys(),
    ;

    /// Runs the one-shot builder constructor registered for `key`.
    ///
    /// Called at most once per key: the engine consumes the pending entry
    /// first and caches the built value afterwards.
    fn run_builder(&mut self, container: &mut Container<V>, key: TypeKey) -> (r: DiResult<V>)
        requires
            old(container).wf(),
        ensures
            final(container).wf(),
            evolves(*old(container), *final(container)),
            final(self).auto_keys() == old(self).auto_keys(),
    ;

    /// Runs the self-describing constructor for `key`, or declines.
    ///
    /// Returns `None`, leaving everything untouched, exactly when `key` has
    /// no self-describing constructor; the engine then reports the key as
    /// not registered.
    fn resolve(&mut self, container: &mut Container<V>, key: TypeKey) -> (r: Option<DiResult<V>>)
        requires
            old(container).wf(),
        ensures
            final(container).wf(),
            evolves(*old(container), *final(container)),
            final(self).auto_keys() == old(self).auto_keys(),
            (r is None) == !old(self).auto_keys().contains(key),
            r is None ==> *final(container) == *old(container) && *final(self) == *old(self),
    ;
}

/// Resolves `key` through the catalog's self-describing constructor, as the
/// automatic factories registered by
/// [`ContainerBuilder::register_automatic_factory`](crate::container::builder::ContainerBuilder::register_automatic_factory)
/// do on every resolution: a key the catalog declines is reported as not
/// registered.
pub fn auto_factory<V, F: Inject<V>>(
    catalog: &mut F,
    container: &mut Container<V>,
    key: TypeKey,
) -> (r: DiResult<V>)
    requires
        old(container).wf(),
    ensures
        final(container).wf(),
        evolves(*old(container), *final(container)),
        final(catalog).auto_keys() == old(catalog).auto_keys(),
        !old(catalog).auto_keys().contains(key) ==> {
            &&& r is Err
            &&& r->Err_0.kind() == ErrorKind::TypeNotRegistered
            &&& *final(container) == *old(container)
        },
{
    match catalog.resolve(container, key) {
        Some(result) => result,
        None => Err(Error::type_not_registered()),
    }
}

/// The empty catalog: no constructors at all.
///
/// A container used with it resolves exactly what was registered as a
/// value; every factory or builder slot and every unregistered key fails.
/// It also witnesses that the contract of [`Inject`] is implementable.
impl<V> Inject<V> for () {
    open spec fn auto_keys(&self) -> Set<TypeKey> {
        Set::empty()
    }

    fn run_factory(&mut self, container: &mut Container<V>, key: TypeKey) -> (r: DiResult<V>) {
        Err(Error::with_message("the empty catalog has no factory constructors"))
    }

    fn run_builder(&mut self, container: &mut Container<V>, key: TypeKey) -> (r: DiResult<V>) {
        Err(Error::with_message("the empty catalog has no builder constructors"))
    }

    fn resolve(&mut self, container: &mut Container<V>, key: TypeKey) -> (r: Option<DiResult<V>>) {
        None
    }
}

/// A catalog with one self-describing constructor that produces copies of a
/// fixed value: the simplest shape a self-resolving type takes.
///
/// The first resolution of `key` caches a copy of `value`; every later one
/// copies the cache.
pub struct ConstantCatalog<V> {
    /// The one key this catalog constructs.
    pub key: TypeKey,
    /// The value whose copies construction returns.
    pub value: V,
}

impl<V: Clone> Inject<V> for ConstantCatalog<V> {
    open spec fn auto_keys(&self) -> Set<TypeKey> {
        set![self.key]
    }

    fn run_factory(&mut self, container: &mut Container<V>, key: TypeKey) -> (r: DiResult<V>) {
        Err(Error::with_message("this catalog has no factory constructors"))
    }

    fn run_builder(&mut self, container: &mut Container<V>, key: TypeKey) -> (r: DiResult<V>) {
        Err(Error::with_message("this catalog has no builder constructors"))
    }

    fn resolve(&mut self, container: &mut Container<V>, key: TypeKey) -> (r: Option<DiResult<V>>) {
        if key == self.key {
            Some(Ok(self.value.clone()))
        } else {
            None
        }
    }
}

} // verus!
