//! A snapshot of entity positions.
//!
//! The engine refers to entities by numeric handles that may outlive the
//! entity they name. `World` is the per-frame snapshot the coordination
//! logic reads: resolving a handle returns `None` when the handle is stale,
//! so every caller has to face the empty case explicitly instead of
//! assuming the referent is still alive.

use vstd::prelude::*;
use crate::geom::Pos;

verus! {

/// What a sequence of `(entity, position)` entries says an entity's
/// position is: the first entry carrying the entity's handle decides, and
/// an entity with no entry has no position.
pub open spec fn lookup(entries: Seq<(u64, Pos)>, entity: u64) -> Option<Pos>
    decreases entries.len(),
{
    if entries.len() == 0 {
        None
    } else if entries[0].0 == entity {
        Some(entries[0].1)
    } else {
        lookup(entries.drop_first(), entity)
    }
}

/// A snapshot of entity positions, queried by entity handle.
pub struct World {
    entries: Vec<(u64, Pos)>,
}

impl View for World {
    type V = Seq<(u64, Pos)>;

    closed spec fn view(&self) -> Seq<(u64, Pos)> {
        self.entries@
    }
}

impl World {
    /// A snapshot with no entities.
    pub fn new() -> (r: World)
        ensures
            r@.len() == 0,
    {
        World { entries: Vec::new() }
    }

    /// Records `entity` at `pos`, replacing the entry that decides
    /// `lookup` for `entity` if there is one.
    pub fn set_position(&mut self, entity: u64, pos: Pos)
        ensures
            lookup(final(self)@, entity) == Some(pos),
            forall|other: u64| other != entity
                ==> lookup(final(self)@, other) == lookup(old(self)@, other),
    {
        let n: usize = self.entries.len();
        let mut i: usize = 0;
        while i < n
            invariant
                n == self.entries.len(),
                i <= n,
                self@ == old(self)@,
                forall|j: int| 0 <= j < i ==> self@[j].0 != entity,
            decreases n - i,
        {
            if self.entries[i].0 == entity {
                self.entries.set(i, (entity, pos));
                proof {
                    lemma_lookup_update(old(self)@, i as int, entity, pos);
                }
                return;
            }
            i = i + 1;
        }
        self.entries.push((entity, pos));
        proof {
            let prior = old(self)@;
            let single = seq![(entity, pos)];
            assert(prior + single =~= self@);
            lemma_lookup_none(prior, entity);
            lemma_lookup_append(prior, single, entity);
            lemma_lookup_single((entity, pos), entity);
            assert forall|other: u64| other != entity
                implies lookup(self@, other) == lookup(prior, other) by {
                lemma_lookup_append(prior, single, other);
                lemma_lookup_single((entity, pos), other);
            }
        }
    }

    /// Resolves an entity handle to its position in this snapshot, or
    /// `None` when the handle is stale.
    pub fn resolve(&self, entity: u64) -> (r: Option<Pos>)
        ensures
            r == lookup(self@, entity),
    {
        let n: usize = self.entries.len();
        let mut i: usize = 0;
        proof {
            assert(self@.skip(0) =~= self@);
        }
        while i < n
            invariant
                n == self.entries.len(),
                i <= n,
                lookup(self@, entity) == lookup(self@.skip(i as int), entity),
            decreases n - i,
        {
            let (id, pos) = self.entries[i];
            proof {
                assert(self@.skip(i as int)[0] == self@[i as int]);
                assert(self@.skip(i as int).drop_first() =~= self@.skip(i as int + 1));
            }
            if id == entity {
                return Some(pos);
            }
            i = i + 1;
        }
        proof {
            assert(self@.skip(n as int).len() == 0);
        }
        None
    }
}

/// `lookup` over a one-entry sequence.
proof fn lemma_lookup_single(entry: (u64, Pos), entity: u64)
    ensures
        lookup(seq![entry], entity) == (if entry.0 == entity {
            Some(entry.1)
        } else {
            None::<Pos>
        }),
{
    let single = seq![entry];
    assert(single.drop_first() =~= Seq::<(u64, Pos)>::empty());
    assert(lookup(Seq::<(u64, Pos)>::empty(), entity) is None);
}

/// An entity no entry carries has no position.
proof fn lemma_lookup_none(entries: Seq<(u64, Pos)>, entity: u64)
    requires
        forall|j: int| 0 <= j < entries.len() ==> entries[j].0 != entity,
    ensures
        lookup(entries, entity) is None,
    decreases entries.len(),
{
    if entries.len() > 0 {
        lemma_lookup_none(entries.drop_first(), entity);
    }
}

/// `lookup` over a concatenation: the left part decides where it can,
/// and the right part decides only for entities the left part misses.
proof fn lemma_lookup_append(left: Seq<(u64, Pos)>, right: Seq<(u64, Pos)>, entity: u64)
    ensures
        lookup(left + right, entity) == (if lookup(left, entity) is Some {
            lookup(left, entity)
        } else {
            lookup(right, entity)
        }),
    decreases left.len(),
{
    if left.len() == 0 {
        assert(left + right =~= right);
    } else {
        assert((left + right).drop_first() =~= left.drop_first() + right);
        assert((left + right)[0] == left[0]);
        lemma_lookup_append(left.drop_first(), right, entity);
    }
}

/// Overwriting the first entry that carries `entity` — with no earlier
/// entry carrying it — redirects `lookup` for `entity` alone.
proof fn lemma_lookup_update(entries: Seq<(u64, Pos)>, i: int, entity: u64, pos: Pos)
    requires
        0 <= i < entries.len(),
        entries[i].0 == entity,
        forall|j: int| 0 <= j < i ==> entries[j].0 != entity,
    ensures
        lookup(entries.update(i, (entity, pos)), entity) == Some(pos),
        forall|other: u64| other != entity
            ==> lookup(entries.update(i, (entity, pos)), other) == lookup(entries, other),
    decreases i,
{
    let updated = entries.update(i, (entity, pos));
    if i == 0 {
        assert(updated[0] == (entity, pos));
        assert(lookup(updated, entity) == Some(pos));
        assert forall|other: u64| other != entity
            implies lookup(updated, other) == lookup(entries, other) by {
            assert(updated.drop_first() =~= entries.drop_first());
        }
    } else {
        lemma_lookup_update(entries.drop_first(), i - 1, entity, pos);
        assert(updated[0] == entries[0]);
        assert(updated.drop_first() =~= entries.drop_first().update(i - 1, (entity, pos)));
        assert(lookup(updated, entity) == Some(pos));
        assert forall|other: u64| other != entity
            implies lookup(updated, other) == lookup(entries, other) by {
            if entries[0].0 != other {
                assert(lookup(entries.drop_first().update(i - 1, (entity, pos)), other)
                    == lookup(entries.drop_first(), other));
                assert(lookup(updated, other) == lookup(updated.drop_first(), other));
                assert(lookup(entries, other) == lookup(entries.drop_first(), other));
            }
        }
    }
}

} // verus!
