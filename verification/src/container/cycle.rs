//! Reentrancy detection for the resolution engine.
//!
//! A [`CycleStopper`] records the chain of type keys whose resolutions are in
//! flight on the active call chain.  Entering the chain twice with the same
//! key is the mark of a circular dependency and is refused as a recoverable
//! error; the correctness-critical invariant is that no key ever appears
//! twice in the chain at the same time.

use vstd::prelude::*;

use crate::container::TypeKey;
use crate::error::{DiResult, Error, ErrorKind};

verus! {

/// Records which type keys are currently being resolved on the active call
/// chain, in entry order.
pub struct CycleStopper {
    in_flight: Vec<TypeKey>,
}

/// Witness that a key was entered into a [`CycleStopper`]'s chain.
///
/// The guard is handed back to [`CycleStopper::untrack`] when the resolution
/// of its key ends, on every exit path — success or failure — so that the
/// same key can be resolved again by an unrelated, later call.
#[derive(Debug)]
pub struct CycleGuard {
    guarded_type: TypeKey,
}

impl CycleGuard {
    /// The key this guard stands for.
    pub closed spec fn guarded(&self) -> TypeKey {
        self.guarded_type
    }
}

impl CycleStopper {
    /// The keys currently being resolved, in entry order.
    pub closed spec fn chain(&self) -> Seq<TypeKey> {
        self.in_flight@
    }

    /// The tracker's invariant: no key appears twice in the chain.
    pub open spec fn wf(&self) -> bool {
        self.chain().no_duplicates()
    }

    /// Whether a resolution of `type_key` is in flight.
    pub fn is_tracked(&self, type_key: TypeKey) -> (r: bool)
        ensures
            r == self.chain().contains(type_key),
    {
        let mut i: usize = 0;
        while i < self.in_flight.len()
            invariant
                i <= self.in_flight.len(),
                forall|j: int| 0 <= j < i ==> self.in_flight@[j] != type_key,
            decreases self.in_flight.len() - i,
        {
            if self.in_flight[i] == type_key {
                return true;
            }
            i += 1;
        }
        false
    }

    /// Enters `type_key` into the chain.
    ///
    /// Fails with [`ErrorKind::CircularDependency`] if a resolution of the
    /// key is already in flight; otherwise appends the key and returns the
    /// guard that will remove it again.
    pub fn track(&mut self, type_key: TypeKey) -> (r: DiResult<CycleGuard>)
        ensures
            old(self).chain().contains(type_key) ==> {
                &&& r is Err
                &&& r->Err_0.kind() == ErrorKind::CircularDependency
                &&& final(self).chain() == old(self).chain()
            },
            !old(self).chain().contains(type_key) ==> {
                &&& r is Ok
                &&& r->Ok_0.guarded() == type_key
                &&& final(self).chain() == old(self).chain().push(type_key)
            },
            old(self).wf() ==> final(self).wf(),
    {
        if self.is_tracked(type_key) {
            return Err(Error::circular_dependency());
        }
        self.in_flight.push(type_key);
        proof {
            if old(self).wf() {
                assert forall|i: int, j: int|
                    0 <= i < self.chain().len() && 0 <= j < self.chain().len() && i
                        != j implies self.chain()[i] != self.chain()[j] by {
                    if i == self.chain().len() - 1 {
                        assert(old(self).chain()[j] == self.chain()[j]);
                        assert(old(self).chain().contains(self.chain()[j])) by {
                            assert(old(self).chain()[j] == old(self).chain()[j]);
                        }
                    }
                    if j == self.chain().len() - 1 {
                        assert(old(self).chain().contains(self.chain()[i]));
                    }
                }
            }
        }
        Ok(CycleGuard { guarded_type: type_key })
    }

    /// Removes the guard's key from the chain.
    ///
    /// The guard discipline is scoped: the key being released is the one
    /// entered last.
    pub fn untrack(&mut self, guard: CycleGuard)
        requires
            old(self).chain().len() > 0,
            old(self).chain().last() == guard.guarded(),
        ensures
            final(self).chain() == old(self).chain().drop_last(),
            old(self).wf() ==> final(self).wf(),
    {
        self.in_flight.pop();
        proof {
            if old(self).wf() {
                assert(final(self).chain() =~= old(self).chain().drop_last());
            }
        }
    }
}

impl Default for CycleStopper {
    /// An empty chain: nothing is being resolved.
    fn default() -> (r: Self)
        ensures
            r.chain() == Seq::<TypeKey>::empty(),
            r.wf(),
    {
        CycleStopper { in_flight: Vec::new() }
    }
}

} // verus!
