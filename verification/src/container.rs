//! The dependency container and its resolution engine.
//!
//! A [`Container`] owns an identity-keyed [`Registry`](registry::Registry)
//! of resolution strategies and a [`CycleStopper`](cycle::CycleStopper) that
//! detects reentrant resolution.  Resolution dispatches on the entry
//! registered for the requested key — cached singleton, repeatable factory,
//! or one-shot builder — and falls back to the catalog's self-describing
//! constructors for keys with no entry at all.

use vstd::prelude::*;

pub mod builder;
pub mod cycle;
pub mod injector;
pub mod registry;

use crate::container::cycle::CycleStopper;
use crate::container::injector::{auto_factory, Inject};
use crate::container::registry::{Registry, RegistryEntry, ResolverType};
use crate::error::{DiResult, Error, ErrorKind};

verus! {

/// A stable, unique identity for a requested type.
///
/// Two requests for the same type must always carry the same key; the
/// embedder assigns one key per type of its closed catalog and uses it for
/// both registration and resolution.
pub type TypeKey = u64;

/// The dependency container: a frozen registry plus the cycle tracker.
///
/// Containers are set up through a
/// [`ContainerBuilder`](builder::ContainerBuilder) and accept no further
/// registrations afterwards; the only changes a resolution makes to the
/// registry are the internal promotions of consumed one-shot builders and
/// the caching of auto-resolved values, both of which fill a slot with a
/// `Shared` entry.
pub struct Container<V> {
    pub(crate) resolvers: Registry<V>,
    pub(crate) cycle_stopper: CycleStopper,
}

/// Settled entries — cached singletons and factories — never change or
/// disappear.
pub open spec fn preserves_settled_entries<V>(
    pre: Map<TypeKey, RegistryEntry<V>>,
    post: Map<TypeKey, RegistryEntry<V>>,
) -> bool {
    forall|k: TypeKey| #![all_triggers]
        pre.contains_key(k) && !(pre[k] is PendingBuilder) ==> post.contains_key(k) && post[k]
            == pre[k]
}

/// A pending builder either stays as it is, is promoted to a cached
/// singleton, or — when its one-shot constructor failed — is gone.
pub open spec fn builders_only_promote<V>(
    pre: Map<TypeKey, RegistryEntry<V>>,
    post: Map<TypeKey, RegistryEntry<V>>,
) -> bool {
    forall|k: TypeKey| #![all_triggers]
        pre.contains_key(k) && pre[k] is PendingBuilder && post.contains_key(k) ==> (post[k]
            == pre[k] || post[k] is Shared)
}

/// A key that had no entry can only gain a cached singleton: after freezing,
/// nothing registers factories or builders any more.
pub open spec fn growth_is_shared<V>(
    pre: Map<TypeKey, RegistryEntry<V>>,
    post: Map<TypeKey, RegistryEntry<V>>,
) -> bool {
    forall|k: TypeKey| #![all_triggers]
        !pre.contains_key(k) && post.contains_key(k) ==> post[k] is Shared
}

/// A key whose resolution is in flight and whose entry is absent stays
/// absent: resolving it again is refused before anything could cache it.
pub open spec fn absent_in_flight_stay_absent<V>(
    in_flight: Seq<TypeKey>,
    pre: Map<TypeKey, RegistryEntry<V>>,
    post: Map<TypeKey, RegistryEntry<V>>,
) -> bool {
    forall|k: TypeKey| #![all_triggers]
        in_flight.contains(k) && !pre.contains_key(k) ==> !post.contains_key(k)
}

/// How a registry may change while the resolutions in `in_flight` run.
pub open spec fn reg_evolves<V>(
    in_flight: Seq<TypeKey>,
    pre: Map<TypeKey, RegistryEntry<V>>,
    post: Map<TypeKey, RegistryEntry<V>>,
) -> bool {
    &&& preserves_settled_entries(pre, post)
    &&& builders_only_promote(pre, post)
    &&& growth_is_shared(pre, post)
    &&& absent_in_flight_stay_absent(in_flight, pre, post)
}

/// How a container may change across any run of resolution work: the chain
/// of in-flight keys is restored, and the registry follows the entry
/// lifecycle.
pub open spec fn evolves<V>(pre: Container<V>, post: Container<V>) -> bool {
    &&& post.chain() == pre.chain()
    &&& reg_evolves(pre.chain(), pre.registry(), post.registry())
}

/// A registry evolves to itself.
pub proof fn lemma_reg_evolves_refl<V>(
    in_flight: Seq<TypeKey>,
    m: Map<TypeKey, RegistryEntry<V>>,
)
    ensures
        reg_evolves(in_flight, m, m),
{
}

/// Registry evolution composes: two successive runs under the same
/// in-flight chain are one run.
pub proof fn lemma_reg_evolves_trans<V>(
    in_flight: Seq<TypeKey>,
    a: Map<TypeKey, RegistryEntry<V>>,
    b: Map<TypeKey, RegistryEntry<V>>,
    c: Map<TypeKey, RegistryEntry<V>>,
)
    requires
        reg_evolves(in_flight, a, b),
        reg_evolves(in_flight, b, c),
    ensures
        reg_evolves(in_flight, a, c),
{
    assert forall|k: TypeKey|
        a.contains_key(k) && a[k] is PendingBuilder && c.contains_key(k) implies (c[k] == a[k]
        || c[k] is Shared) by {
        if b.contains_key(k) {
            assert(b[k] == a[k] || b[k] is Shared);
        }
    }
    assert forall|k: TypeKey| !a.contains_key(k) && c.contains_key(k) implies c[k] is Shared by {
        if b.contains_key(k) {
            assert(b[k] is Shared);
        }
    }
}

/// Container evolution is reflexive.
pub proof fn lemma_evolves_refl<V>(c: Container<V>)
    ensures
        evolves(c, c),
{
}

/// Container evolution composes.
pub proof fn lemma_evolves_trans<V>(a: Container<V>, b: Container<V>, c: Container<V>)
    requires
        evolves(a, b),
        evolves(b, c),
    ensures
        evolves(a, c),
{
    lemma_reg_evolves_trans(a.chain(), a.registry(), b.registry(), c.registry());
}

/// Once a key holds a settled entry — a cached singleton or a factory — any
/// run of resolutions leaves that exact entry in place.  In particular a
/// value cached for a key is the value every later resolution of the key
/// copies, and a factory never silently becomes anything else.
pub proof fn lemma_settled_entry_persists<V>(pre: Container<V>, post: Container<V>, key: TypeKey)
    requires
        evolves(pre, post),
        pre.registry().contains_key(key),
        !(pre.registry()[key] is PendingBuilder),
    ensures
        post.registry().contains_key(key),
        post.registry()[key] == pre.registry()[key],
{
}

impl<V> Container<V> {
    /// The registry's contents.
    pub closed spec fn registry(&self) -> Map<TypeKey, RegistryEntry<V>> {
        self.resolvers.entries()
    }

    /// The keys whose resolutions are in flight, in entry order.
    pub closed spec fn chain(&self) -> Seq<TypeKey> {
        self.cycle_stopper.chain()
    }

    /// The container's invariant: no key appears twice in the in-flight
    /// chain.
    pub open spec fn wf(&self) -> bool {
        self.chain().no_duplicates()
    }

    /// Creates an empty container.
    ///
    /// Even though it is empty, it will still resolve the keys the
    /// catalog's self-describing constructors cover.
    pub fn new() -> (r: Container<V>)
        ensures
            r.registry() == Map::<TypeKey, RegistryEntry<V>>::empty(),
            r.chain() == Seq::<TypeKey>::empty(),
            r.wf(),
    {
        Container { resolvers: Registry::new(), cycle_stopper: CycleStopper::default() }
    }

    /// Returns true if `key` has a registered entry.
    pub fn has(&self, key: TypeKey) -> (r: bool)
        ensures
            r == self.registry().contains_key(key),
    {
        self.resolvers.has(key)
    }

    /// The kind of resolver registered for `key`, if any.
    pub fn get_resolver_type(&self, key: TypeKey) -> (r: Option<ResolverType>)
        ensures
            match r {
                Some(kind) => self.registry().contains_key(key) && kind
                    == self.registry()[key].kind(),
                None => !self.registry().contains_key(key),
            },
    {
        self.resolvers.kind_of(key)
    }
}

/// The contract of one resolution: how the container and the catalog may
/// stand after `resolve` returned `r` for `key`, given the states they were
/// called in.
///
/// The container evolves along the entry lifecycle with its in-flight chain
/// restored, the catalog's auto-resolvable keys are stable, and each
/// dispatch path pins its outcome: reentrancy is refused, a cached
/// singleton is copied with nothing else touched, a factory entry survives
/// as it is, a consumed builder's slot holds the cached result of its
/// one-shot run, and an unregistered key is either auto-resolved and cached
/// or reported as not registered.
pub open spec fn resolution_outcome<V: Clone, F: Inject<V>>(
    pre: Container<V>,
    cat_pre: F,
    post: Container<V>,
    cat_post: F,
    key: TypeKey,
    r: DiResult<V>,
) -> bool {
    &&& evolves(pre, post)
    &&& cat_post.auto_keys() == cat_pre.auto_keys()
    &&& (pre.chain().contains(key) ==> {
        &&& r is Err
        &&& r->Err_0.kind() == ErrorKind::CircularDependency
        &&& post.registry() == pre.registry()
        &&& cat_post == cat_pre
    })
    &&& (!pre.chain().contains(key) && pre.registry().contains_key(key) && pre.registry()[key]
        is Shared ==> {
        &&& post.registry() == pre.registry()
        &&& cat_post == cat_pre
        &&& r is Ok
        &&& cloned::<V>(pre.registry()[key]->Shared_0, r->Ok_0)
    })
    &&& (!pre.chain().contains(key) && pre.registry().contains_key(key) && pre.registry()[key]
        is Factory ==> {
        &&& post.registry().contains_key(key)
        &&& post.registry()[key] == pre.registry()[key]
        &&& (pre.registry()[key]->automatic && !cat_pre.auto_keys().contains(key) ==> r is Err
            && r->Err_0.kind() == ErrorKind::TypeNotRegistered)
    })
    &&& (!pre.chain().contains(key) && pre.registry().contains_key(key) && pre.registry()[key]
        is PendingBuilder ==> {
        &&& (r is Ok ==> post.registry().contains_key(key) && post.registry()[key] is Shared
            && cloned::<V>(post.registry()[key]->Shared_0, r->Ok_0))
        &&& (r is Err ==> !post.registry().contains_key(key))
    })
    &&& (!pre.chain().contains(key) && !pre.registry().contains_key(key) ==> {
        &&& (!cat_pre.auto_keys().contains(key) ==> {
            &&& r is Err
            &&& r->Err_0.kind() == ErrorKind::TypeNotRegistered
            &&& post.registry() == pre.registry()
            &&& cat_post == cat_pre
        })
        &&& (r is Ok ==> post.registry().contains_key(key) && post.registry()[key] is Shared
            && cloned::<V>(post.registry()[key]->Shared_0, r->Ok_0))
        &&& (r is Err ==> !post.registry().contains_key(key))
    })
}

impl<V: Clone> Container<V> {
    /// Resolves `key`: the single entry point used by application code and
    /// by the catalog's constructors alike.
    ///
    /// Dispatches on the registered entry — copies a cached singleton, runs
    /// a factory, consumes a one-shot builder — and falls back to the
    /// catalog's self-describing constructor for an unregistered key,
    /// caching its result.  A reentrant resolution of a key already in
    /// flight fails with
    /// [`ErrorKind::CircularDependency`](crate::error::ErrorKind::CircularDependency)
    /// instead of recursing without bound, and the in-flight chain is
    /// restored on every exit path.
    pub fn resolve<F: Inject<V>>(&mut self, catalog: &mut F, key: TypeKey) -> (r: DiResult<V>)
        requires
            old(self).wf(),
        ensures
            final(self).wf(),
            resolution_outcome(
                *old(self),
                *old(catalog),
                *final(self),
                *final(catalog),
                key,
                r,
            ),
    {
        self.get(catalog, key)
    }

    /// The resolution engine behind [`Container::resolve`].
    fn get<F: Inject<V>>(&mut self, catalog: &mut F, key: TypeKey) -> (r: DiResult<V>)
        requires
            old(self).wf(),
        ensures
            final(self).wf(),
            resolution_outcome(
                *old(self),
                *old(catalog),
                *final(self),
                *final(catalog),
                key,
                r,
            ),
    {
        let guard = match self.cycle_stopper.track(key) {
            Ok(guard) => guard,
            Err(e) => {
                return Err(e);
            },
        };
        let ghost entered = *self;
        proof {
            assert(entered.chain() == old(self).chain().push(key));
            assert(entered.chain().contains(key)) by {
                assert(entered.chain().last() == key);
            }
            assert forall|k: TypeKey| old(self).chain().contains(k) implies entered.chain()
                .contains(k) by {
                let i = choose|i: int|
                    0 <= i < old(self).chain().len() && old(self).chain()[i] == k;
                assert(entered.chain()[i] == k);
            }
        }
        let ghost mut mid: Container<V> = entered;
        let result = match self.resolvers.kind_of(key) {
            Some(ResolverType::Shared) => self.get_shared(key),
            Some(ResolverType::Factory { automatic: _ }) => {
                let out = self.call_factory(catalog, key);
                proof {
                    mid = *self;
                }
                out
            },
            Some(ResolverType::PendingBuilder) => {
                let consumed = self.consume_builder(catalog, key);
                proof {
                    mid = *self;
                }
                match consumed {
                    Ok(()) => self.get_shared(key),
                    Err(e) => Err(e),
                }
            },
            None => {
                let outcome = catalog.resolve(&mut *self, key);
                proof {
                    mid = *self;
                }
                match outcome {
                    Some(Ok(value)) => {
                        let copy = value.clone();
                        match self.resolvers.promote_to_shared(key, value) {
                            Ok(()) => Ok(copy),
                            Err(e) => Err(e),
                        }
                    },
                    Some(Err(e)) => Err(e),
                    None => Err(Error::type_not_registered()),
                }
            },
        };
        proof {
            assert(self.chain() == entered.chain());
            assert(self.chain().last() == key);
            assert(evolves(entered, mid));
            lemma_resolution_evolves(*old(self), entered, mid, self.registry(), key);
        }
        self.cycle_stopper.untrack(guard);
        proof {
            assert(self.chain() =~= old(self).chain());
        }
        result
    }

    /// Runs the factory registered for `key` and hands its result through:
    /// the produced value is returned, never cached, and the factory entry
    /// stays in place for the next resolution.
    ///
    /// An automatic factory runs the key's self-describing constructor
    /// through [`auto_factory`]; an explicit one runs the catalog's factory
    /// constructor.
    pub fn call_factory<F: Inject<V>>(&mut self, catalog: &mut F, key: TypeKey) -> (r: DiResult<
        V,
    >)
        requires
            old(self).wf(),
            old(self).registry().contains_key(key),
            old(self).registry()[key] is Factory,
        ensures
            final(self).wf(),
            evolves(*old(self), *final(self)),
            final(catalog).auto_keys() == old(catalog).auto_keys(),
            final(self).registry().contains_key(key),
            final(self).registry()[key] == old(self).registry()[key],
            (old(self).registry()[key]->automatic && !old(catalog).auto_keys().contains(key))
                ==> r is Err && r->Err_0.kind() == ErrorKind::TypeNotRegistered,
    {
        let automatic = match self.resolvers.kind_of(key) {
            Some(ResolverType::Factory { automatic }) => automatic,
            _ => {
                return Err(Error::internal_inconsistency());
            },
        };
        if automatic {
            auto_factory(catalog, &mut *self, key)
        } else {
            catalog.run_factory(&mut *self, key)
        }
    }

    /// Consumes the one-shot builder registered for `key`: runs it once
    /// and, on success, caches the built value as the key's shared entry.
    /// If the builder fails, its slot stays consumed: the constructor is
    /// one-shot either way.
    fn consume_builder<F: Inject<V>>(&mut self, catalog: &mut F, key: TypeKey) -> (r: DiResult<
        (),
    >)
        requires
            old(self).wf(),
            old(self).chain().contains(key),
            old(self).registry().contains_key(key),
            old(self).registry()[key] is PendingBuilder,
        ensures
            final(self).wf(),
            evolves(*old(self), *final(self)),
            final(catalog).auto_keys() == old(catalog).auto_keys(),
            r is Ok ==> final(self).registry().contains_key(key) && final(self).registry()[key]
                is Shared,
            r is Err ==> !final(self).registry().contains_key(key),
    {
        match self.resolvers.take_pending_builder(key) {
            Ok(()) => {},
            Err(e) => {
                return Err(e);
            },
        }
        let ghost consumed = *self;
        let built = catalog.run_builder(&mut *self, key);
        let ghost after = *self;
        proof {
            assert(!after.registry().contains_key(key));
        }
        let result = match built {
            Ok(value) => {
                match self.resolvers.promote_to_shared(key, value) {
                    Ok(()) => Ok(()),
                    Err(e) => Err(e),
                }
            },
            Err(e) => Err(e),
        };
        proof {
            lemma_consume_builder_evolves(*old(self), consumed, after, *self, key);
        }
        result
    }

    /// Copies the value cached for `key`.
    fn get_shared(&self, key: TypeKey) -> (r: DiResult<V>)
        requires
            self.registry().contains_key(key),
            self.registry()[key] is Shared,
        ensures
            r is Ok,
            cloned::<V>(self.registry()[key]->Shared_0, r->Ok_0),
    {
        match self.resolvers.peek(key) {
            Some(RegistryEntry::Shared(value)) => Ok(value.clone()),
            _ => Err(Error::internal_inconsistency()),
        }
    }
}

/// Resolving a key that is already being resolved on the active call chain
/// is refused with
/// [`ErrorKind::CircularDependency`](crate::error::ErrorKind::CircularDependency)
/// — a diagnosable error instead of unbounded recursion — and changes
/// nothing.
pub proof fn lemma_reentrant_resolution_refused<V: Clone, F: Inject<V>>(
    pre: Container<V>,
    cat_pre: F,
    post: Container<V>,
    cat_post: F,
    key: TypeKey,
    r: DiResult<V>,
)
    requires
        resolution_outcome(pre, cat_pre, post, cat_post, key, r),
        pre.chain().contains(key),
    ensures
        r is Err,
        r->Err_0.kind() == ErrorKind::CircularDependency,
        post.registry() == pre.registry(),
        post.chain() == pre.chain(),
        cat_post == cat_pre,
{
}

/// Resolving a key with no registration and no self-describing constructor
/// returns
/// [`ErrorKind::TypeNotRegistered`](crate::error::ErrorKind::TypeNotRegistered)
/// and changes nothing.
pub proof fn lemma_unregistered_key_not_resolvable<V: Clone, F: Inject<V>>(
    pre: Container<V>,
    cat_pre: F,
    post: Container<V>,
    cat_post: F,
    key: TypeKey,
    r: DiResult<V>,
)
    requires
        resolution_outcome(pre, cat_pre, post, cat_post, key, r),
        !pre.chain().contains(key),
        !pre.registry().contains_key(key),
        !cat_pre.auto_keys().contains(key),
    ensures
        r is Err,
        r->Err_0.kind() == ErrorKind::TypeNotRegistered,
        post.registry() == pre.registry(),
        post.chain() == pre.chain(),
        cat_post == cat_pre,
{
}

/// Resolving a key whose registered value is `value` returns `value`
/// itself, whenever the value type's `Clone` gives back its argument
/// unchanged — as a derived `Clone` does.
pub proof fn lemma_registered_value_resolves<V: Clone, F: Inject<V>>(
    pre: Container<V>,
    cat_pre: F,
    post: Container<V>,
    cat_post: F,
    key: TypeKey,
    value: V,
    r: DiResult<V>,
)
    requires
        resolution_outcome(pre, cat_pre, post, cat_post, key, r),
        !pre.chain().contains(key),
        pre.registry().contains_key(key),
        pre.registry()[key] == RegistryEntry::Shared(value),
        forall|a: V, b: V| #[trigger] cloned::<V>(a, b) ==> b == a,
    ensures
        r is Ok,
        r->Ok_0 == value,
        post.registry() == pre.registry(),
        cat_post == cat_pre,
{
}

/// A factory entry survives every resolution as the same factory: the
/// constructor runs anew each time and what it produced is never cached.
pub proof fn lemma_factory_never_cached<V: Clone, F: Inject<V>>(
    pre: Container<V>,
    cat_pre: F,
    post: Container<V>,
    cat_post: F,
    key: TypeKey,
    r: DiResult<V>,
)
    requires
        resolution_outcome(pre, cat_pre, post, cat_post, key, r),
        !pre.chain().contains(key),
        pre.registry().contains_key(key),
        pre.registry()[key] is Factory,
    ensures
        post.registry().contains_key(key),
        post.registry()[key] == pre.registry()[key],
{
}

/// After the resolution that left a key's slot holding a cached value, any
/// further run of resolutions of that key only copies that one value: every
/// result is a copy of the cache, the registry never changes again, and the
/// catalog — and with it every constructor's state — is never touched
/// again.
///
/// The run is given as the chain of states the successive resolutions went
/// through: `containers[i]` and `catalogs[i]` are the states resolution
/// `i` started in, and it ended in the next pair with result `results[i]`.
pub proof fn lemma_cached_key_serves_every_resolution<V: Clone, F: Inject<V>>(
    containers: Seq<Container<V>>,
    catalogs: Seq<F>,
    results: Seq<DiResult<V>>,
    key: TypeKey,
)
    requires
        containers.len() == results.len() + 1,
        catalogs.len() == results.len() + 1,
        !containers[0].chain().contains(key),
        containers[0].registry().contains_key(key),
        containers[0].registry()[key] is Shared,
        forall|i: int| #![trigger results[i]]
            0 <= i < results.len() ==> resolution_outcome(
                containers[i],
                catalogs[i],
                containers[i + 1],
                catalogs[i + 1],
                key,
                results[i],
            ),
    ensures
        forall|i: int|
            0 <= i < containers.len() ==> #[trigger] containers[i].registry()
                == containers[0].registry(),
        forall|i: int| 0 <= i < catalogs.len() ==> #[trigger] catalogs[i] == catalogs[0],
        forall|i: int|
            0 <= i < results.len() ==> #[trigger] results[i] is Ok && cloned::<V>(
                containers[0].registry()[key]->Shared_0,
                results[i]->Ok_0,
            ),
    decreases results.len(),
{
    if results.len() > 0 {
        assert(resolution_outcome(
            containers[0],
            catalogs[0],
            containers[1],
            catalogs[1],
            key,
            results[0],
        ));
        assert(containers[1].registry() == containers[0].registry());
        assert(containers[1].chain() == containers[0].chain());
        let tail_containers = containers.skip(1);
        let tail_catalogs = catalogs.skip(1);
        let tail_results = results.skip(1);
        assert forall|i: int|
            0 <= i < tail_results.len() implies #[trigger] resolution_outcome(
            tail_containers[i],
            tail_catalogs[i],
            tail_containers[i + 1],
            tail_catalogs[i + 1],
            key,
            tail_results[i],
        ) by {
            assert(resolution_outcome(
                containers[i + 1],
                catalogs[i + 1],
                containers[i + 2],
                catalogs[i + 2],
                key,
                results[i + 1],
            ));
        }
        lemma_cached_key_serves_every_resolution(
            tail_containers,
            tail_catalogs,
            tail_results,
            key,
        );
        assert forall|i: int|
            0 <= i < containers.len() implies #[trigger] containers[i].registry()
            == containers[0].registry() by {
            if i > 0 {
                assert(tail_containers[i - 1].registry() == tail_containers[0].registry());
            }
        }
        assert forall|i: int| 0 <= i < catalogs.len() implies #[trigger] catalogs[i]
            == catalogs[0] by {
            if i > 0 {
                assert(tail_catalogs[i - 1] == tail_catalogs[0]);
            }
        }
        assert forall|i: int|
            0 <= i < results.len() implies #[trigger] results[i] is Ok && cloned::<V>(
            containers[0].registry()[key]->Shared_0,
            results[i]->Ok_0,
        ) by {
            if i > 0 {
                assert(tail_results[i - 1] is Ok && cloned::<V>(
                    tail_containers[0].registry()[key]->Shared_0,
                    tail_results[i - 1]->Ok_0,
                ));
            }
        }
    }
}

/// A key registered as a one-shot builder, resolved any number of times:
/// the first resolution consumes the builder and caches what it built;
/// every later one copies that same cached value and leaves the catalog —
/// and with it every constructor's state — untouched.  So the builder runs
/// at most once however often the key is resolved, and all results are
/// copies of one value.
pub proof fn lemma_builder_runs_once<V: Clone, F: Inject<V>>(
    containers: Seq<Container<V>>,
    catalogs: Seq<F>,
    results: Seq<DiResult<V>>,
    key: TypeKey,
)
    requires
        containers.len() == results.len() + 1,
        catalogs.len() == results.len() + 1,
        results.len() >= 1,
        !containers[0].chain().contains(key),
        containers[0].registry().contains_key(key),
        containers[0].registry()[key] is PendingBuilder,
        forall|i: int| #![trigger results[i]]
            0 <= i < results.len() ==> resolution_outcome(
                containers[i],
                catalogs[i],
                containers[i + 1],
                catalogs[i + 1],
                key,
                results[i],
            ),
        results[0] is Ok,
    ensures
        containers[1].registry().contains_key(key),
        containers[1].registry()[key] is Shared,
        forall|i: int|
            0 <= i < results.len() ==> #[trigger] results[i] is Ok && cloned::<V>(
                containers[1].registry()[key]->Shared_0,
                results[i]->Ok_0,
            ),
        forall|i: int| 1 <= i < catalogs.len() ==> #[trigger] catalogs[i] == catalogs[1],
        forall|i: int|
            1 <= i < containers.len() ==> #[trigger] containers[i].registry()
                == containers[1].registry(),
{
    assert(resolution_outcome(
        containers[0],
        catalogs[0],
        containers[1],
        catalogs[1],
        key,
        results[0],
    ));
    assert(containers[1].chain() == containers[0].chain());
    let tail_containers = containers.skip(1);
    let tail_catalogs = catalogs.skip(1);
    let tail_results = results.skip(1);
    assert forall|i: int|
        0 <= i < tail_results.len() implies #[trigger] resolution_outcome(
        tail_containers[i],
        tail_catalogs[i],
        tail_containers[i + 1],
        tail_catalogs[i + 1],
        key,
        tail_results[i],
    ) by {
        assert(resolution_outcome(
            containers[i + 1],
            catalogs[i + 1],
            containers[i + 2],
            catalogs[i + 2],
            key,
            results[i + 1],
        ));
    }
    lemma_cached_key_serves_every_resolution(tail_containers, tail_catalogs, tail_results, key);
    assert forall|i: int|
        0 <= i < results.len() implies #[trigger] results[i] is Ok && cloned::<V>(
        containers[1].registry()[key]->Shared_0,
        results[i]->Ok_0,
    ) by {
        if i > 0 {
            assert(tail_results[i - 1] is Ok && cloned::<V>(
                tail_containers[0].registry()[key]->Shared_0,
                tail_results[i - 1]->Ok_0,
            ));
        }
    }
    assert forall|i: int| 1 <= i < catalogs.len() implies #[trigger] catalogs[i]
        == catalogs[1] by {
        assert(tail_catalogs[i - 1] == tail_catalogs[0]);
    }
    assert forall|i: int|
        1 <= i < containers.len() implies #[trigger] containers[i].registry()
        == containers[1].registry() by {
        assert(tail_containers[i - 1].registry() == tail_containers[0].registry());
    }
}

/// The first successful auto-resolution of an unregistered key caches the
/// built value as the key's shared entry; a later resolution of the key
/// copies the cache and leaves the catalog — and with it every
/// constructor's state — untouched, so the self-describing constructor is
/// not invoked again.
pub proof fn lemma_auto_resolution_cached<V: Clone, F: Inject<V>>(
    s0: Container<V>,
    cat0: F,
    s1: Container<V>,
    cat1: F,
    s2: Container<V>,
    cat2: F,
    key: TypeKey,
    r1: DiResult<V>,
    r2: DiResult<V>,
)
    requires
        !s0.chain().contains(key),
        !s0.registry().contains_key(key),
        resolution_outcome(s0, cat0, s1, cat1, key, r1),
        r1 is Ok,
        resolution_outcome(s1, cat1, s2, cat2, key, r2),
    ensures
        s1.registry().contains_key(key),
        s1.registry()[key] is Shared,
        cloned::<V>(s1.registry()[key]->Shared_0, r1->Ok_0),
        r2 is Ok,
        cloned::<V>(s1.registry()[key]->Shared_0, r2->Ok_0),
        s2.registry() == s1.registry(),
        cat2 == cat1,
{
}

/// How one full dispatch relates to the state the resolution began in: the
/// key was entered into the chain, the dispatched work evolved the
/// container under that wider chain, and the slot for the key was at most
/// filled with a cached value — so, seen from the chain the resolution began with, the
/// registry evolved along the entry lifecycle.
proof fn lemma_resolution_evolves<V>(
    pre: Container<V>,
    entered: Container<V>,
    mid: Container<V>,
    post_reg: Map<TypeKey, RegistryEntry<V>>,
    key: TypeKey,
)
    requires
        !pre.chain().contains(key),
        entered.chain() == pre.chain().push(key),
        entered.registry() == pre.registry(),
        evolves(entered, mid),
        post_reg == mid.registry() || (!mid.registry().contains_key(key) && exists|v: V|
            post_reg == mid.registry().insert(key, RegistryEntry::Shared(v))),
    ensures
        reg_evolves(pre.chain(), pre.registry(), post_reg),
{
    assert forall|k: TypeKey| pre.chain().contains(k) implies entered.chain().contains(k) by {
        let i = choose|i: int| 0 <= i < pre.chain().len() && pre.chain()[i] == k;
        assert(entered.chain()[i] == k);
    }
    assert forall|k: TypeKey|
        pre.registry().contains_key(k) && !(pre.registry()[k]
            is PendingBuilder) implies post_reg.contains_key(k) && post_reg[k]
        == pre.registry()[k] by {
        assert(mid.registry().contains_key(k) && mid.registry()[k] == pre.registry()[k]);
    }
    assert forall|k: TypeKey|
        pre.registry().contains_key(k) && pre.registry()[k] is PendingBuilder
            && post_reg.contains_key(k) implies (post_reg[k] == pre.registry()[k] || post_reg[k]
        is Shared) by {
        if post_reg == mid.registry() {
            assert(mid.registry().contains_key(k));
        } else {
            if k != key {
                assert(post_reg[k] == mid.registry()[k]);
                assert(mid.registry().contains_key(k));
            }
        }
    }
    assert forall|k: TypeKey|
        !pre.registry().contains_key(k) && post_reg.contains_key(k) implies post_reg[k]
        is Shared by {
        if post_reg == mid.registry() {
            assert(mid.registry().contains_key(k));
        } else {
            if k != key {
                assert(post_reg[k] == mid.registry()[k]);
                assert(mid.registry().contains_key(k));
            }
        }
    }
    assert forall|k: TypeKey|
        pre.chain().contains(k) && !pre.registry().contains_key(
            k,
        ) implies !post_reg.contains_key(k) by {
        assert(k != key);
        assert(entered.chain().contains(k));
        assert(!mid.registry().contains_key(k));
    }
}

/// How the registry of a consumed builder slot relates to where it began:
/// the entry for `key` went from pending to removed, the catalog's run
/// evolved the rest, and the slot was at most refilled with the built
/// value.
proof fn lemma_consume_builder_evolves<V>(
    pre: Container<V>,
    consumed: Container<V>,
    after: Container<V>,
    post: Container<V>,
    key: TypeKey,
)
    requires
        pre.chain().contains(key),
        pre.registry().contains_key(key),
        pre.registry()[key] is PendingBuilder,
        consumed.chain() == pre.chain(),
        consumed.registry() == pre.registry().remove(key),
        evolves(consumed, after),
        post.chain() == after.chain(),
        post.registry() == after.registry() || (exists|v: V|
            post.registry() == after.registry().insert(key, RegistryEntry::Shared(v))),
    ensures
        evolves(pre, post),
{
    assert(!consumed.registry().contains_key(key));
    assert(!after.registry().contains_key(key));
    assert forall|k: TypeKey|
        pre.registry().contains_key(k) && !(pre.registry()[k]
            is PendingBuilder) implies post.registry().contains_key(k) && post.registry()[k]
        == pre.registry()[k] by {
        assert(k != key);
        assert(consumed.registry().contains_key(k));
        assert(consumed.registry()[k] == pre.registry()[k]);
    }
    assert forall|k: TypeKey|
        pre.registry().contains_key(k) && pre.registry()[k] is PendingBuilder
            && post.registry().contains_key(k) implies (post.registry()[k] == pre.registry()[k]
        || post.registry()[k] is Shared) by {
        if k != key {
            assert(consumed.registry().contains_key(k));
        }
    }
    assert forall|k: TypeKey|
        !pre.registry().contains_key(k) && post.registry().contains_key(
            k,
        ) implies post.registry()[k] is Shared by {
        assert(k != key);
        assert(!consumed.registry().contains_key(k));
    }
    assert forall|k: TypeKey|
        pre.chain().contains(k) && !pre.registry().contains_key(
            k,
        ) implies !post.registry().contains_key(k) by {
        assert(k != key);
        assert(!consumed.registry().contains_key(k));
        assert(!after.registry().contains_key(k));
    }
}

impl<V> Default for Container<V> {
    /// Same as [`Container::new`].
    fn default() -> (r: Container<V>)
        ensures
            r.registry() == Map::<TypeKey, RegistryEntry<V>>::empty(),
            r.chain() == Seq::<TypeKey>::empty(),
            r.wf(),
    {
        Container::new()
    }
}

} // verus!
