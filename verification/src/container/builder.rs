//! The write-once façade that populates a container.
//!
//! A [`ContainerBuilder`] accepts registrations — shared values, repeatable
//! factories, one-shot builders — and freezes into a [`Container`] with
//! [`ContainerBuilder::build`]; after that transition no registration is
//! accepted any more.  Every registration rejects a key that is already
//! present, so the first registration of a key is never overwritten.

use vstd::prelude::*;

use crate::container::cycle::CycleStopper;
use crate::container::registry::{Registry, RegistryEntry};
use crate::container::{Container, TypeKey};
use crate::error::DiResult;

verus! {

/// Accumulates registrations before the container becomes queryable.
pub struct ContainerBuilder<V> {
    resolvers: Registry<V>,
}

impl<V> ContainerBuilder<V> {
    /// The registrations collected so far.
    pub closed spec fn registry(&self) -> Map<TypeKey, RegistryEntry<V>> {
        self.resolvers.entries()
    }

    /// An empty builder.
    pub fn new() -> (r: ContainerBuilder<V>)
        ensures
            r.registry() == Map::<TypeKey, RegistryEntry<V>>::empty(),
    {
        ContainerBuilder { resolvers: Registry::new() }
    }

    /// Freezes the builder into a container.
    ///
    /// The registrations carry over unchanged and no resolution is in
    /// flight yet.
    pub fn build(self) -> (c: Container<V>)
        ensures
            c.registry() == self.registry(),
            c.chain() == Seq::<TypeKey>::empty(),
            c.wf(),
    {
        Container { resolvers: self.resolvers, cycle_stopper: CycleStopper::default() }
    }

    /// Registers `value` directly: every resolution of `key` will return a
    /// copy of it.
    ///
    /// Fails with [`ErrorKind::DuplicateRegistration`](crate::error::ErrorKind::DuplicateRegistration),
    /// leaving the first registration in place, if and only if `key` is
    /// already registered.
    pub fn register(&mut self, key: TypeKey, value: V) -> (r: DiResult<()>)
        ensures
            registration_outcome(
                old(self).registry(),
                final(self).registry(),
                key,
                RegistryEntry::Shared(value),
                r,
            ),
    {
        self.insert(key, RegistryEntry::Shared(value))
    }

    /// Registers a repeatable factory for `key`: every resolution runs the
    /// catalog's factory constructor anew.
    ///
    /// Same duplicate check as [`ContainerBuilder::register`].
    pub fn register_factory(&mut self, key: TypeKey) -> (r: DiResult<()>)
        ensures
            registration_outcome(
                old(self).registry(),
                final(self).registry(),
                key,
                RegistryEntry::Factory { automatic: false },
                r,
            ),
    {
        self.insert(key, RegistryEntry::Factory { automatic: false })
    }

    /// Registers an automatic factory for `key`: every resolution runs the
    /// key's self-describing constructor anew, so the result is never
    /// cached.
    ///
    /// Same duplicate check as [`ContainerBuilder::register`].
    pub fn register_automatic_factory(&mut self, key: TypeKey) -> (r: DiResult<()>)
        ensures
            registration_outcome(
                old(self).registry(),
                final(self).registry(),
                key,
                RegistryEntry::Factory { automatic: true },
                r,
            ),
    {
        self.insert(key, RegistryEntry::Factory { automatic: true })
    }

    /// Registers a one-shot builder for `key`: the catalog's builder
    /// constructor runs on the first resolution only, and the built value
    /// is cached for every later one.
    ///
    /// Same duplicate check as [`ContainerBuilder::register`].
    pub fn register_builder(&mut self, key: TypeKey) -> (r: DiResult<()>)
        ensures
            registration_outcome(
                old(self).registry(),
                final(self).registry(),
                key,
                RegistryEntry::PendingBuilder,
                r,
            ),
    {
        self.insert(key, RegistryEntry::PendingBuilder)
    }

    /// Returns true if `key` has a registered entry.
    pub fn has(&self, key: TypeKey) -> (r: bool)
        ensures
            r == self.registry().contains_key(key),
    {
        self.resolvers.has(key)
    }

    /// The shared duplicate check behind every registration.
    fn insert(&mut self, key: TypeKey, entry: RegistryEntry<V>) -> (r: DiResult<()>)
        ensures
            registration_outcome(old(self).registry(), final(self).registry(), key, entry, r),
    {
        self.resolvers.register(key, entry)
    }
}

/// What a registration does: inserts the entry while the key is absent, and
/// is refused with [`ErrorKind::DuplicateRegistration`](crate::error::ErrorKind::DuplicateRegistration),
/// the table unchanged, while it is present.
pub open spec fn registration_outcome<V>(
    pre: Map<TypeKey, RegistryEntry<V>>,
    post: Map<TypeKey, RegistryEntry<V>>,
    key: TypeKey,
    entry: RegistryEntry<V>,
    r: DiResult<()>,
) -> bool {
    &&& pre.contains_key(key) ==> {
        &&& r is Err
        &&& r->Err_0.kind() == crate::error::ErrorKind::DuplicateRegistration
        &&& post == pre
    }
    &&& !pre.contains_key(key) ==> {
        &&& r is Ok
        &&& post == pre.insert(key, entry)
    }
}

/// Registering the same key twice: the first registration goes through,
/// the second is refused with
/// [`ErrorKind::DuplicateRegistration`](crate::error::ErrorKind::DuplicateRegistration),
/// and the first registered entry is unaffected by the refused attempt.
pub proof fn lemma_double_registration<V>(
    reg: Map<TypeKey, RegistryEntry<V>>,
    key: TypeKey,
    first: RegistryEntry<V>,
    second: RegistryEntry<V>,
    after_first: Map<TypeKey, RegistryEntry<V>>,
    after_second: Map<TypeKey, RegistryEntry<V>>,
    r1: DiResult<()>,
    r2: DiResult<()>,
)
    requires
        !reg.contains_key(key),
        registration_outcome(reg, after_first, key, first, r1),
        registration_outcome(after_first, after_second, key, second, r2),
    ensures
        r1 is Ok,
        r2 is Err,
        r2->Err_0.kind() == crate::error::ErrorKind::DuplicateRegistration,
        after_second == after_first,
        after_first.contains_key(key),
        after_first[key] == first,
{
}

impl<V> Default for ContainerBuilder<V> {
    /// Same as [`ContainerBuilder::new`].
    fn default() -> (r: ContainerBuilder<V>)
        ensures
            r.registry() == Map::<TypeKey, RegistryEntry<V>>::empty(),
    {
        ContainerBuilder::new()
    }
}

} // verus!
