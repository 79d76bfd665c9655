use vstd::prelude::*;

use dashmap::DashSet;

verus! {

/// Declares dashmap's concurrent set, so that the cache can hold it; its
/// contents are only known through `id_set`.
#[verifier::external_type_specification]
#[verifier::external_body]
#[verifier::reject_recursive_types(K)]
#[verifier::reject_recursive_types(S)]
pub struct ExDashSet<K, S>(DashSet<K, S>);

/// The identifiers a concurrent set currently holds.
pub uninterp spec fn id_set(s: DashSet<i32>) -> Set<i32>;

/// Relies on `DashSet::new`: a new set holds nothing.
#[verifier::external_body]
fn new_id_set() -> (r: DashSet<i32>)
    ensures
        id_set(r) == Set::<i32>::empty(),
{
    DashSet::new()
}

/// Relies on `DashSet::insert`: the key is added, and `true` comes back
/// exactly when it was not there before.
#[verifier::external_body]
fn id_set_insert(s: &mut DashSet<i32>, id: i32) -> (r: bool)
    ensures
        id_set(*final(s)) == id_set(*old(s)).insert(id),
        r == !id_set(*old(s)).contains(id),
{
    s.insert(id)
}

/// Relies on `DashSet::remove`: the key is taken out, and handed back exactly
/// when it was there.
#[verifier::external_body]
fn id_set_remove(s: &mut DashSet<i32>, id: i32) -> (r: Option<i32>)
    ensures
        id_set(*final(s)) == id_set(*old(s)).remove(id),
        r == (if id_set(*old(s)).contains(id) {
            Some(id)
        } else {
            None
        }),
{
    s.remove(&id)
}

/// Relies on `DashSet::contains`: membership of the key.
#[verifier::external_body]
pub(crate) fn id_set_contains(s: &DashSet<i32>, id: i32) -> (r: bool)
    ensures
        r == id_set(*s).contains(id),
{
    s.contains(&id)
}

/// A concurrent set holding exactly the given identifiers.
pub fn id_set_from(ids: &Vec<i32>) -> (r: DashSet<i32>)
    ensures
        id_set(r) == ids@.to_set(),
{
    let mut set = new_id_set();
    let mut i: usize = 0;
    while i < ids.len()
        invariant
            i <= ids.len(),
            id_set(set) == ids@.take(i as int).to_set(),
        decreases ids.len() - i,
    {
        id_set_insert(&mut set, ids[i]);
        proof {
            assert(ids@.take(i + 1) =~= ids@.take(i as int).push(ids@[i as int]));
            ids@.take(i as int).lemma_push_to_set_commute(ids@[i as int]);
            assert(ids@.take(i as int).push(ids@[i as int]).to_set() =~= ids@.take(
                i as int,
            ).to_set().insert(ids@[i as int]));
        }
        i = i + 1;
    }
    proof {
        assert(ids@.take(ids@.len() as int) =~= ids@);
    }
    set
}

/// The sets of unit and ingredient identifiers that currently exist, used to
/// check a recipe's references without asking the database.
pub struct IdentifierCache {
    unit_ids: DashSet<i32>,
    ingredient_ids: DashSet<i32>,
}

impl IdentifierCache {
    pub closed spec fn units(&self) -> Set<i32> {
        id_set(self.unit_ids)
    }

    pub closed spec fn ingredients(&self) -> Set<i32> {
        id_set(self.ingredient_ids)
    }

    pub(crate) fn unit_set(&self) -> (r: &DashSet<i32>)
        ensures
            id_set(*r) == self.units(),
    {
        &self.unit_ids
    }

    pub(crate) fn ingredient_set(&self) -> (r: &DashSet<i32>)
        ensures
            id_set(*r) == self.ingredients(),
    {
        &self.ingredient_ids
    }

    /// A cache that knows no identifier.
    pub fn new() -> (r: Self)
        ensures
            r.units() == Set::<i32>::empty(),
            r.ingredients() == Set::<i32>::empty(),
    {
        IdentifierCache { unit_ids: new_id_set(), ingredient_ids: new_id_set() }
    }

    /// A cache seeded with every identifier of the unit and ingredient tables.
    pub fn initialize(unit_ids: &Vec<i32>, ingredient_ids: &Vec<i32>) -> (r: Self)
        ensures
            r.units() == unit_ids@.to_set(),
            r.ingredients() == ingredient_ids@.to_set(),
    {
        IdentifierCache { unit_ids: id_set_from(unit_ids), ingredient_ids: id_set_from(ingredient_ids) }
    }

    pub fn contains_unit(&self, id: i32) -> (r: bool)
        ensures
            r == self.units().contains(id),
    {
        id_set_contains(&self.unit_ids, id)
    }

    pub fn contains_ingredient(&self, id: i32) -> (r: bool)
        ensures
            r == self.ingredients().contains(id),
    {
        id_set_contains(&self.ingredient_ids, id)
    }

    /// Records a unit whose insert has committed.
    pub fn record_unit_created(&mut self, id: i32)
        ensures
            final(self).units() == old(self).units().insert(id),
            final(self).ingredients() == old(self).ingredients(),
    {
        id_set_insert(&mut self.unit_ids, id);
    }

    /// Records a unit whose delete has committed.
    pub fn record_unit_deleted(&mut self, id: i32)
        ensures
            final(self).units() == old(self).units().remove(id),
            final(self).ingredients() == old(self).ingredients(),
    {
        id_set_remove(&mut self.unit_ids, id);
    }

    /// Records an ingredient whose insert has committed.
    pub fn record_ingredient_created(&mut self, id: i32)
        ensures
            final(self).ingredients() == old(self).ingredients().insert(id),
            final(self).units() == old(self).units(),
    {
        id_set_insert(&mut self.ingredient_ids, id);
    }

    /// Records an ingredient whose delete has committed.
    pub fn record_ingredient_deleted(&mut self, id: i32)
        ensures
            final(self).ingredients() == old(self).ingredients().remove(id),
            final(self).units() == old(self).units(),
    {
        id_set_remove(&mut self.ingredient_ids, id);
    }
}

/// A committed change to a table of identifiers.
#[derive(Debug, Clone, Copy, PartialEq, Eq, Structural)]
pub enum IdChange {
    Created(i32),
    Deleted(i32),
}

/// The rows of `t` without those holding `id`.
pub open spec fn rows_without(t: Seq<i32>, id: i32) -> Seq<i32>
    decreases t.len(),
{
    if t.len() == 0 {
        t
    } else if t[0] == id {
        rows_without(t.drop_first(), id)
    } else {
        seq![t[0]] + rows_without(t.drop_first(), id)
    }
}

/// The table's rows after the committed changes: an insert adds a row, a
/// delete removes the rows with that id.
pub open spec fn table_after(t: Seq<i32>, changes: Seq<IdChange>) -> Seq<i32>
    decreases changes.len(),
{
    if changes.len() == 0 {
        t
    } else {
        let next = match changes[0] {
            IdChange::Created(id) => t.push(id),
            IdChange::Deleted(id) => rows_without(t, id),
        };
        table_after(next, changes.drop_first())
    }
}

/// The cached set after recording the changes, as `record_*_created` and
/// `record_*_deleted` do: a create inserts the id, a delete removes it.
pub open spec fn cache_after(ids: Set<i32>, changes: Seq<IdChange>) -> Set<i32>
    decreases changes.len(),
{
    if changes.len() == 0 {
        ids
    } else {
        let next = match changes[0] {
            IdChange::Created(id) => ids.insert(id),
            IdChange::Deleted(id) => ids.remove(id),
        };
        cache_after(next, changes.drop_first())
    }
}

proof fn lemma_rows_without_contains(t: Seq<i32>, id: i32, v: i32)
    ensures
        rows_without(t, id).contains(v) <==> (t.contains(v) && v != id),
    decreases t.len(),
{
    if t.len() > 0 {
        let rest = t.drop_first();
        lemma_rows_without_contains(rest, id, v);
        if t.contains(v) && t[0] != v {
            let k = choose|k: int| 0 <= k < t.len() && t[k] == v;
            assert(rest[k - 1] == v);
        }
        if rest.contains(v) {
            let k = choose|k: int| 0 <= k < rest.len() && rest[k] == v;
            assert(t[k + 1] == v);
        }
        if t[0] != id {
            let out = seq![t[0]] + rows_without(rest, id);
            if out.contains(v) && out[0] != v {
                let k = choose|k: int| 0 <= k < out.len() && out[k] == v;
                assert(rows_without(rest, id)[k - 1] == v);
            }
            if rows_without(rest, id).contains(v) {
                let k = choose|k: int|
                    0 <= k < rows_without(rest, id).len() && rows_without(rest, id)[k] == v;
                assert(out[k + 1] == v);
            }
            assert(out[0] == t[0]);
        }
    }
}

proof fn lemma_rows_without_to_set(t: Seq<i32>, id: i32)
    ensures
        rows_without(t, id).to_set() == t.to_set().remove(id),
{
    assert forall|v: i32| #[trigger] rows_without(t, id).to_set().contains(v) <==> t.to_set().remove(
        id,
    ).contains(v) by {
        lemma_rows_without_contains(t, id, v);
    }
    assert(rows_without(t, id).to_set() =~= t.to_set().remove(id));
}

/// The cache agrees with the table: seeded from the table's rows and then
/// told of every committed create and delete, it holds exactly the ids of
/// the table's rows after those changes.
pub proof fn lemma_cache_agrees_with_table(t: Seq<i32>, changes: Seq<IdChange>)
    ensures
        cache_after(t.to_set(), changes) == table_after(t, changes).to_set(),
    decreases changes.len(),
{
    if changes.len() > 0 {
        let next = match changes[0] {
            IdChange::Created(id) => t.push(id),
            IdChange::Deleted(id) => rows_without(t, id),
        };
        match changes[0] {
            IdChange::Created(id) => {
                t.lemma_push_to_set_commute(id);
            },
            IdChange::Deleted(id) => {
                lemma_rows_without_to_set(t, id);
            },
        }
        lemma_cache_agrees_with_table(next, changes.drop_first());
    }
}

} // verus!
