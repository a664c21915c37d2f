use vstd::prelude::*;
use fxhash::FxHashSet;

verus! {

/// fxhash's hasher, carried opaquely as the hasher of the value registry.
#[verifier::external_type_specification]
#[verifier::external_body]
pub struct ExFxHasher(fxhash::FxHasher);

/// std's default-constructing hash builder, carried opaquely.
#[verifier::external_type_specification]
#[verifier::external_body]
#[verifier::reject_recursive_types(H)]
pub struct ExBuildHasherDefault<H>(std::hash::BuildHasherDefault<H>);

/// Relies on `HashSet::insert` over fxhash's `FxBuildHasher`: the key is
/// added, and the result says whether it was absent before. FxHasher is a
/// fixed, unseeded function of the bytes written to it.
#[verifier::external_body]
fn registry_insert(set: &mut FxHashSet<u64>, key: u64) -> (r: bool)
    ensures
        final(set)@ == old(set)@.insert(key),
        r == !old(set)@.contains(key),
{
    set.insert(key)
}

/// Relies on `HashSet::remove` over fxhash's `FxBuildHasher`: the key is
/// taken out, and the result says whether it was present before.
#[verifier::external_body]
fn registry_remove(set: &mut FxHashSet<u64>, key: u64) -> (r: bool)
    ensures
        final(set)@ == old(set)@.remove(key),
        r == old(set)@.contains(key),
{
    set.remove(&key)
}

/// Relies on `HashSet::contains` over fxhash's `FxBuildHasher`: whether the
/// key is in the set.
#[verifier::external_body]
fn registry_contains(set: &FxHashSet<u64>, key: u64) -> (r: bool)
    ensures
        r == set@.contains(key),
{
    set.contains(&key)
}

/// Bookkeeping attached to one native engine handle through its single
/// user-data slot, and reachable from inside native callbacks.
///
/// `W` is the weak back-reference to the owning runtime, `P` a captured
/// panic payload, `S` an async task spawner.
pub struct Opaque<W, P, S> {
    /// A panic raised by a host callback, held until the host re-raises it.
    pub panic: Option<P>,
    /// Non-owning reference to the runtime that owns this record.
    pub runtime: W,
    /// Keys of the foreign values registered with this runtime.
    pub registry: FxHashSet<u64>,
    /// Spawner for asynchronous tasks, once one is attached.
    pub spawner: Option<S>,
}

impl<W, P, S> Opaque<W, P, S> {
    /// A fresh record: no panic held, nothing registered, no spawner.
    pub fn new(runtime: W) -> (r: Self)
        ensures
            r.panic.is_none(),
            r.runtime == runtime,
            r.registry@ == Set::<u64>::empty(),
            r.spawner.is_none(),
    {
        Opaque {
            panic: None,
            runtime,
            registry: FxHashSet::default(),
            spawner: None,
        }
    }

    /// Holds a panic payload captured at a callback boundary; a later
    /// capture replaces an earlier one that was not yet taken.
    pub fn capture_panic(&mut self, payload: P)
        ensures
            final(self).panic == Some(payload),
            final(self).runtime == old(self).runtime,
            final(self).registry@ == old(self).registry@,
            final(self).spawner == old(self).spawner,
    {
        self.panic = Some(payload);
    }

    /// Hands out the captured panic, if any, and clears the slot.
    pub fn take_panic(&mut self) -> (r: Option<P>)
        ensures
            r == old(self).panic,
            final(self).panic.is_none(),
            final(self).runtime == old(self).runtime,
            final(self).registry@ == old(self).registry@,
            final(self).spawner == old(self).spawner,
    {
        self.panic.take()
    }

    /// Tracks a foreign value by key; true when it was not tracked before.
    pub fn register(&mut self, key: u64) -> (r: bool)
        ensures
            final(self).registry@ == old(self).registry@.insert(key),
            r == !old(self).registry@.contains(key),
            final(self).panic == old(self).panic,
            final(self).runtime == old(self).runtime,
            final(self).spawner == old(self).spawner,
    {
        registry_insert(&mut self.registry, key)
    }

    /// Stops tracking a foreign value; true when it was tracked.
    pub fn unregister(&mut self, key: u64) -> (r: bool)
        ensures
            final(self).registry@ == old(self).registry@.remove(key),
            r == old(self).registry@.contains(key),
            final(self).panic == old(self).panic,
            final(self).runtime == old(self).runtime,
            final(self).spawner == old(self).spawner,
    {
        registry_remove(&mut self.registry, key)
    }

    /// Whether a foreign value is tracked by this runtime.
    pub fn is_registered(&self, key: u64) -> (r: bool)
        ensures
            r == self.registry@.contains(key),
    {
        registry_contains(&self.registry, key)
    }
}

} // verus!
