//! A dependency-resolution container.
//!
//! Callers ask for a value by its type key; the container constructs or
//! returns a cached instance, resolving that instance's own dependencies
//! transitively.  Values are drawn from one embedder-chosen catalog type, and
//! construction code is supplied through a capability trait, so the whole
//! resolution engine — registration bookkeeping, the three entry lifecycles,
//! cycle detection and the auto-resolution fallback — is ordinary verified
//! code.

mod container;
mod error;

pub use container::builder::{lemma_double_registration, registration_outcome, ContainerBuilder};
pub use container::cycle::{CycleGuard, CycleStopper};
pub use container::injector::{auto_factory, ConstantCatalog, Inject};
pub use container::registry::{Registry, RegistryEntry, ResolverType};
pub use container::{
    absent_in_flight_stay_absent, builders_only_promote, evolves, growth_is_shared,
    lemma_auto_resolution_cached, lemma_builder_runs_once, lemma_cached_key_serves_every_resolution, lemma_evolves_refl, lemma_evolves_trans,
    lemma_factory_never_cached, lemma_reentrant_resolution_refused, lemma_reg_evolves_refl,
    lemma_reg_evolves_trans, lemma_registered_value_resolves, lemma_settled_entry_persists,
    lemma_unregistered_key_not_resolvable, preserves_settled_entries, reg_evolves,
    resolution_outcome, Container, TypeKey,
};
pub use error::{DiResult, Error, ErrorKind};
