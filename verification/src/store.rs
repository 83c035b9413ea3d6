//! The typed, lifecycle-scoped store.
//!
//! One global bucket plus one pre-allocated local bucket per test task, each
//! a mapping from type identity to at most one value of that type. A read
//! against a local scope that misses falls back to the global scope; the
//! caller always receives an independent copy, never an alias into the store.
//!
//! The phased-access rules — the global bucket is written only during the
//! two suite-level setup/teardown windows and is otherwise read-shared, and
//! only the owning task ever touches a given local bucket — are enforced by
//! construction: an execution substrate splits the store into its buckets
//! with [`State::into_parts`], hands each local bucket to its own worker by
//! ownership, and shares the global bucket immutably while tasks run.

use std::collections::HashMap;

use crate::fixture::{FixtureAbs, FixtureValue, TypeTag};
use vstd::prelude::*;

verus! {

broadcast use vstd::std_specs::hash::group_hash_axioms;

/// The reserved sentinel scope id that denotes the global bucket. Local
/// scopes are the indices `0 .. local_count`, fixed at suite construction.
pub const GLOBAL_SCOPE: usize = usize::MAX;

/// One bucket of the store: a mapping from type identity to the single live
/// value of that type.
pub struct Bucket {
    entries: HashMap<TypeTag, FixtureValue>,
}

impl View for Bucket {
    type V = Map<TypeTag, FixtureAbs>;

    closed spec fn view(&self) -> Map<TypeTag, FixtureAbs> {
        self.entries@.map_values(|v: FixtureValue| v@)
    }
}

impl Bucket {
    /// An empty bucket.
    pub fn new() -> (r: Bucket)
        ensures
            r@ == Map::<TypeTag, FixtureAbs>::empty(),
    {
        let r = Bucket { entries: HashMap::new() };
        proof {
            assert(r@ =~= Map::<TypeTag, FixtureAbs>::empty());
        }
        r
    }

    /// Type-keyed upsert: stores `value` under `tag` and returns the value of
    /// the same type that it displaced, if any.
    pub fn insert(&mut self, tag: TypeTag, value: FixtureValue) -> (prev: Option<FixtureValue>)
        ensures
            final(self)@ == old(self)@.insert(tag, value@),
            match prev {
                Some(p) => old(self)@.contains_key(tag) && p@ == old(self)@[tag],
                None => !old(self)@.contains_key(tag),
            },
    {
        let prev = self.entries.insert(tag, value);
        proof {
            assert(final(self)@ =~= old(self)@.insert(tag, value@));
        }
        prev
    }

    /// Type-keyed delete: removes and returns the value stored under `tag`,
    /// if any.
    pub fn remove(&mut self, tag: TypeTag) -> (removed: Option<FixtureValue>)
        ensures
            final(self)@ == old(self)@.remove(tag),
            match removed {
                Some(p) => old(self)@.contains_key(tag) && p@ == old(self)@[tag],
                None => !old(self)@.contains_key(tag),
            },
    {
        let removed = self.entries.remove(&tag);
        proof {
            assert(final(self)@ =~= old(self)@.remove(tag));
        }
        removed
    }

    /// Looks up the value stored under `tag` in this bucket alone.
    pub fn get(&self, tag: TypeTag) -> (r: Option<&FixtureValue>)
        ensures
            match r {
                Some(v) => self@.contains_key(tag) && v@ == self@[tag],
                None => !self@.contains_key(tag),
            },
    {
        self.entries.get(&tag)
    }
}

/// Where a lookup of `tag` lands when a local bucket is read with fallback to
/// the global bucket: the local value wins, the global value is the default,
/// and a miss in both is a miss.
pub open spec fn resolve_map(
    local: Map<TypeTag, FixtureAbs>,
    global: Map<TypeTag, FixtureAbs>,
    tag: TypeTag,
) -> Option<FixtureAbs> {
    if local.contains_key(tag) {
        Some(local[tag])
    } else if global.contains_key(tag) {
        Some(global[tag])
    } else {
        None
    }
}

/// Reads `tag` from `local`, falling back to `global` on a miss.
pub fn resolve<'a>(local: &'a Bucket, global: &'a Bucket, tag: TypeTag) -> (r: Option<
    &'a FixtureValue,
>)
    ensures
        match r {
            Some(v) => resolve_map(local@, global@, tag) == Some(v@),
            None => resolve_map(local@, global@, tag) is None,
        },
{
    match local.get(tag) {
        Some(v) => Some(v),
        None => global.get(tag),
    }
}

/// Holds state during the execution of a test suite: the global bucket plus
/// one local bucket per test task.
pub struct State {
    pub(crate) global: Bucket,
    pub(crate) locals: Vec<Bucket>,
}

impl State {
    /// The contents of the global bucket.
    pub closed spec fn global_scope(self) -> Map<TypeTag, FixtureAbs> {
        self.global@
    }

    /// How many local buckets have been created.
    pub closed spec fn local_count(self) -> nat {
        self.locals@.len()
    }

    /// The contents of the local bucket for `scope`.
    pub closed spec fn local_scope(self, scope: usize) -> Map<TypeTag, FixtureAbs> {
        self.locals@[scope as int]@
    }

    /// Whether `scope` names a bucket: the global sentinel, or a local bucket
    /// that `create_local_state` has allocated. (A local bucket can never sit
    /// at the sentinel index itself, since indices run below the length.)
    pub open spec fn is_scope(self, scope: usize) -> bool {
        scope == GLOBAL_SCOPE || (scope as nat) < self.local_count()
    }

    /// The contents of the bucket that `scope` names.
    pub open spec fn scope_map(self, scope: usize) -> Map<TypeTag, FixtureAbs> {
        if scope == GLOBAL_SCOPE {
            self.global_scope()
        } else {
            self.local_scope(scope)
        }
    }

    /// Where a read of `tag` against `scope` lands: the global scope reads
    /// the global bucket alone; a local scope reads its own bucket and falls
    /// back to the global one.
    pub open spec fn spec_resolve(self, scope: usize, tag: TypeTag) -> Option<FixtureAbs> {
        if scope == GLOBAL_SCOPE {
            resolve_map(Map::empty(), self.global_scope(), tag)
        } else {
            resolve_map(self.local_scope(scope), self.global_scope(), tag)
        }
    }

    /// A fresh store: an empty global bucket and no local buckets yet.
    pub fn new() -> (r: State)
        ensures
            r.global_scope() == Map::<TypeTag, FixtureAbs>::empty(),
            r.local_count() == 0,
    {
        State { global: Bucket::new(), locals: Vec::new() }
    }

    /// Pre-allocates empty local buckets for the scope ids `0 .. count`.
    /// Must run once, before any hook or test executes.
    pub fn create_local_state(&mut self, count: usize)
        ensures
            final(self).global_scope() == old(self).global_scope(),
            final(self).local_count() == count,
            forall|i: usize|
                i < count ==> final(self).local_scope(i) == Map::<TypeTag, FixtureAbs>::empty(),
    {
        let mut locals: Vec<Bucket> = Vec::new();
        let mut i: usize = 0;
        while i < count
            invariant
                i <= count,
                locals@.len() == i,
                forall|j: int|
                    0 <= j < i ==> locals@[j]@ == Map::<TypeTag, FixtureAbs>::empty(),
            decreases count - i,
        {
            locals.push(Bucket::new());
            i = i + 1;
        }
        self.locals = locals;
    }

    /// Inserts `value` under `tag` into the bucket named by `scope`, returning
    /// the displaced value of the same type, if any. Every other bucket is
    /// untouched.
    pub fn insert(&mut self, scope: usize, tag: TypeTag, value: FixtureValue) -> (prev: Option<
        FixtureValue,
    >)
        requires
            old(self).is_scope(scope),
        ensures
            final(self).local_count() == old(self).local_count(),
            final(self).scope_map(scope) == old(self).scope_map(scope).insert(tag, value@),
            scope != GLOBAL_SCOPE ==> final(self).global_scope() == old(self).global_scope(),
            forall|j: usize|
                j < old(self).local_count() && j != scope ==> final(self).local_scope(j) == old(
                    self,
                ).local_scope(j),
            match prev {
                Some(p) => old(self).scope_map(scope).contains_key(tag) && p@ == old(
                    self,
                ).scope_map(scope)[tag],
                None => !old(self).scope_map(scope).contains_key(tag),
            },
    {
        if scope == GLOBAL_SCOPE {
            self.global.insert(tag, value)
        } else {
            let bucket = &mut self.locals[scope];
            bucket.insert(tag, value)
        }
    }

    /// Removes the value stored under `tag` in the bucket named by `scope`.
    pub fn remove(&mut self, scope: usize, tag: TypeTag) -> (removed: Option<FixtureValue>)
        requires
            old(self).is_scope(scope),
        ensures
            final(self).local_count() == old(self).local_count(),
            final(self).scope_map(scope) == old(self).scope_map(scope).remove(tag),
            scope != GLOBAL_SCOPE ==> final(self).global_scope() == old(self).global_scope(),
            forall|j: usize|
                j < old(self).local_count() && j != scope ==> final(self).local_scope(j) == old(
                    self,
                ).local_scope(j),
            match removed {
                Some(p) => old(self).scope_map(scope).contains_key(tag) && p@ == old(
                    self,
                ).scope_map(scope)[tag],
                None => !old(self).scope_map(scope).contains_key(tag),
            },
    {
        if scope == GLOBAL_SCOPE {
            self.global.remove(tag)
        } else {
            let bucket = &mut self.locals[scope];
            bucket.remove(tag)
        }
    }

    /// Reads `tag` against `scope`: a local scope falls back to the global
    /// bucket on a miss. The caller receives an independent copy.
    pub fn get(&self, scope: usize, tag: TypeTag) -> (r: Option<FixtureValue>)
        requires
            self.is_scope(scope),
        ensures
            match r {
                Some(v) => self.spec_resolve(scope, tag) == Some(v@),
                None => self.spec_resolve(scope, tag) is None,
            },
    {
        if scope == GLOBAL_SCOPE {
            match self.global.get(tag) {
                Some(v) => Some(v.duplicate()),
                None => None,
            }
        } else {
            match resolve(&self.locals[scope], &self.global, tag) {
                Some(v) => Some(v.duplicate()),
                None => None,
            }
        }
    }

    /// Splits the store into its buckets, global first, so that an execution
    /// substrate can hand each local bucket to its own worker.
    pub fn into_parts(self) -> (r: (Bucket, Vec<Bucket>))
        ensures
            r.0@ == self.global_scope(),
            r.1@.len() == self.local_count(),
            forall|i: usize| i < self.local_count() ==> r.1@[i as int]@ == self.local_scope(i),
    {
        (self.global, self.locals)
    }

    /// Reassembles a store from its buckets.
    pub fn from_parts(global: Bucket, locals: Vec<Bucket>) -> (r: State)
        ensures
            r.global_scope() == global@,
            r.local_count() == locals@.len(),
            forall|i: usize| i < locals@.len() ==> r.local_scope(i) == locals@[i as int]@,
    {
        State { global, locals }
    }
}

} // verus!
