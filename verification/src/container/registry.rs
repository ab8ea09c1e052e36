//! The identity-keyed table behind the container.
//!
//! A [`Registry`] maps a [`TypeKey`] to the [`RegistryEntry`] that says how a
//! value for that key is produced.  Keys are unique: an entry may be inserted
//! only while its key is absent, so a registration is rejected rather than
//! silently overwritten.

use vstd::prelude::*;
use std::collections::HashMap;

use crate::container::TypeKey;
use crate::error::{DiResult, Error, ErrorKind};

verus! {

broadcast use vstd::std_specs::hash::group_hash_axioms;

/// How a value for a key is produced, and where that production stands.
///
/// The entry for a key starts in one of the three variants on explicit
/// registration, or appears directly as `Shared` when an unregistered key is
/// auto-resolved.  A `PendingBuilder` moves to `Shared` exactly once, on the
/// first resolution of its key; `Shared` and `Factory` entries never change
/// again.
pub enum RegistryEntry<V> {
    /// An already-built instance, returned as a copy on every resolution.
    Shared(V),
    /// A repeatable constructor, run on every resolution of the key.  When
    /// `automatic` is set the constructor is the key's self-describing one,
    /// reached through the auto-resolution fallback instead of an explicitly
    /// registered factory.
    Factory { automatic: bool },
    /// A one-shot constructor, consumed on the first resolution of the key.
    PendingBuilder,
}

/// The kind of a registry entry, without its payload.
#[derive(Clone, Copy, Debug, PartialEq, Eq, Structural)]
pub enum ResolverType {
    /// The entry is [`RegistryEntry::Shared`].
    Shared,
    /// The entry is [`RegistryEntry::Factory`] with the given `automatic`
    /// flag.
    Factory { automatic: bool },
    /// The entry is [`RegistryEntry::PendingBuilder`].
    PendingBuilder,
}

impl<V> RegistryEntry<V> {
    /// The kind of this entry.
    pub open spec fn kind(&self) -> ResolverType {
        match self {
            RegistryEntry::Shared(_) => ResolverType::Shared,
            RegistryEntry::Factory { automatic } => ResolverType::Factory {
                automatic: *automatic,
            },
            RegistryEntry::PendingBuilder => ResolverType::PendingBuilder,
        }
    }
}

/// An identity-keyed table from [`TypeKey`] to [`RegistryEntry`], keys
/// unique.
pub struct Registry<V> {
    table: HashMap<TypeKey, RegistryEntry<V>>,
}

impl<V> Registry<V> {
    /// The table's contents.
    pub closed spec fn entries(&self) -> Map<TypeKey, RegistryEntry<V>> {
        self.table@
    }

    /// An empty registry.
    pub fn new() -> (r: Self)
        ensures
            r.entries() == Map::<TypeKey, RegistryEntry<V>>::empty(),
    {
        Registry { table: HashMap::new() }
    }

    /// Whether `key` has an entry.
    pub fn has(&self, key: TypeKey) -> (r: bool)
        ensures
            r == self.entries().contains_key(key),
    {
        self.table.contains_key(&key)
    }

    /// The kind of the entry at `key`, if any.
    pub fn kind_of(&self, key: TypeKey) -> (r: Option<ResolverType>)
        ensures
            match r {
                Some(kind) => self.entries().contains_key(key) && kind == self.entries()[key].kind(),
                None => !self.entries().contains_key(key),
            },
    {
        match self.table.get(&key) {
            Some(entry) => match entry {
                RegistryEntry::Shared(_) => Some(ResolverType::Shared),
                RegistryEntry::Factory { automatic } => Some(
                    ResolverType::Factory { automatic: *automatic },
                ),
                RegistryEntry::PendingBuilder => Some(ResolverType::PendingBuilder),
            },
            None => None,
        }
    }

    /// A borrow of the entry at `key`, if any.
    pub fn peek(&self, key: TypeKey) -> (r: Option<&RegistryEntry<V>>)
        ensures
            match r {
                Some(entry) => self.entries().contains_key(key) && *entry == self.entries()[key],
                None => !self.entries().contains_key(key),
            },
    {
        self.table.get(&key)
    }

    /// Inserts `entry` at `key`.
    ///
    /// Fails with [`ErrorKind::DuplicateRegistration`], leaving the table
    /// unchanged, if and only if `key` is already present; no side effect
    /// beyond the insertion otherwise.
    pub fn register(&mut self, key: TypeKey, entry: RegistryEntry<V>) -> (r: DiResult<()>)
        ensures
            old(self).entries().contains_key(key) ==> {
                &&& r is Err
                &&& r->Err_0.kind() == ErrorKind::DuplicateRegistration
                &&& final(self).entries() == old(self).entries()
            },
            !old(self).entries().contains_key(key) ==> {
                &&& r is Ok
                &&& final(self).entries() == old(self).entries().insert(key, entry)
            },
    {
        if self.table.contains_key(&key) {
            return Err(Error::duplicate_registration());
        }
        self.table.insert(key, entry);
        Ok(())
    }

    /// Consumes the one-shot constructor slot at `key`.
    ///
    /// Removes the entry and succeeds if it is a `PendingBuilder`; fails
    /// with [`ErrorKind::InternalInconsistency`], leaving the table
    /// unchanged, if the entry is absent or of another kind — a defensive
    /// check that registration discipline makes unreachable.
    pub fn take_pending_builder(&mut self, key: TypeKey) -> (r: DiResult<()>)
        ensures
            (old(self).entries().contains_key(key) && old(self).entries()[key]
                is PendingBuilder) ==> {
                &&& r is Ok
                &&& final(self).entries() == old(self).entries().remove(key)
            },
            !(old(self).entries().contains_key(key) && old(self).entries()[key]
                is PendingBuilder) ==> {
                &&& r is Err
                &&& r->Err_0.kind() == ErrorKind::InternalInconsistency
                &&& final(self).entries() == old(self).entries()
            },
    {
        let is_pending = match self.table.get(&key) {
            Some(RegistryEntry::PendingBuilder) => true,
            _ => false,
        };
        if !is_pending {
            return Err(Error::internal_inconsistency());
        }
        self.table.remove(&key);
        Ok(())
    }

    /// Fills the slot consumed from a `PendingBuilder` with the built value.
    ///
    /// Fails with [`ErrorKind::DuplicateRegistration`] only if the key was
    /// re-registered mid-construction — impossible under the engine's
    /// single-threaded discipline, but the contract is kept for an
    /// implementer adding concurrency later.
    pub fn promote_to_shared(&mut self, key: TypeKey, value: V) -> (r: DiResult<()>)
        ensures
            old(self).entries().contains_key(key) ==> {
                &&& r is Err
                &&& r->Err_0.kind() == ErrorKind::DuplicateRegistration
                &&& final(self).entries() == old(self).entries()
            },
            !old(self).entries().contains_key(key) ==> {
                &&& r is Ok
                &&& final(self).entries() == old(self).entries().insert(
                    key,
                    RegistryEntry::Shared(value),
                )
            },
    {
        self.register(key, RegistryEntry::Shared(value))
    }
}

} // verus!
