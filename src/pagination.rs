use vstd::prelude::*;

use crate::error::AppError;
use crate::ingredient::Ingredient;
use crate::recipe::{Backed, Recipe};
use crate::recipe_ingredient::DetailedRecipeIngredient;
use crate::unit::Unit;

verus! {

/// The largest page a listing may ask for.
pub const MAX_PAGE_LIMIT: i64 = 15;

/// Listing parameters shared by units, ingredients and recipes:
/// at most `limit` rows whose id is at least `start_from`.
#[derive(Debug)]
pub struct PaginationQuery {
    pub limit: i64,
    pub start_from: i32,
}

/// Listing parameters for ingredients.
#[derive(Debug)]
pub struct IngredientsQuery {
    pub limit: i64,
    pub start_from: i32,
}

/// Listing parameters for recipes.
#[derive(Debug)]
pub struct RecipesQuery {
    pub limit: i64,
    pub start_from: i32,
}

/// A page of units, and the id the next page starts from, if there is one.
#[derive(Debug)]
pub struct GetUnitsResponse {
    pub units: Vec<Unit>,
    pub next_start_from: Option<i32>,
}

/// A page of ingredients, and the id the next page starts from, if there is one.
#[derive(Debug)]
pub struct GetIngredientsResponse {
    pub ingredients: Vec<Ingredient>,
    pub next_start_from: Option<i32>,
}

/// A page of detailed recipes, and the id the next page starts from, if there
/// is one.
pub struct GetRecipesResponse {
    pub recipes: Vec<Recipe<DetailedRecipeIngredient, Backed>>,
    pub next_start_from: Option<i32>,
}

pub open spec fn valid_limit(limit: int) -> bool {
    1 <= limit <= MAX_PAGE_LIMIT
}

/// What a page keeps of the rows fetched for it, and the cursor of the next
/// page: rows beyond `limit` are dropped, and the first dropped row's id is
/// where the next page starts (that row comes back first there).
pub open spec fn page_of(rows: Seq<i32>, limit: int) -> (Seq<i32>, Option<i32>) {
    if rows.len() <= limit {
        (rows, None)
    } else {
        (rows.take(limit), Some(rows[limit]))
    }
}

/// How many rows to fetch for a listing: one more than `limit`, so that the
/// existence of a further page is known. A limit outside `1..=15` is refused.
pub fn rows_to_fetch(limit: i64) -> (r: Result<i64, AppError>)
    ensures
        valid_limit(limit as int) ==> r == Ok::<i64, AppError>((limit + 1) as i64),
        !valid_limit(limit as int) ==> r == Err::<i64, AppError>(AppError::BadRequest),
{
    if limit < 1 || limit > MAX_PAGE_LIMIT {
        Err(AppError::BadRequest)
    } else {
        Ok(limit + 1)
    }
}

/// Splits fetched rows into the page (the first `limit`) and the first row
/// past it, if any.
pub fn split_page<T>(rows: Vec<T>, limit: i64) -> (r: (Vec<T>, Option<T>))
    requires
        valid_limit(limit as int),
    ensures
        rows@.len() <= limit ==> r.0@ == rows@ && r.1 is None,
        rows@.len() > limit ==> r.0@ == rows@.take(limit as int) && r.1 == Some(rows@[limit as int]),
        r.0@.len() <= limit,
{
    let mut rows = rows;
    let keep = limit as usize;
    if rows.len() <= keep {
        return (rows, None);
    }
    let mut rest = rows.split_off(keep);
    let next = rest.remove(0);
    (rows, Some(next))
}

/// The page of recipe ids to fetch in detail, and the next cursor.
pub fn page_recipe_ids(ids: Vec<i32>, limit: i64) -> (r: (Vec<i32>, Option<i32>))
    requires
        valid_limit(limit as int),
    ensures
        (r.0@, r.1) == page_of(ids@, limit as int),
        r.0@.len() <= limit,
        r.1 is Some <==> ids@.len() > limit,
{
    split_page(ids, limit)
}

/// The ids of a sequence of units, `None` standing for a missing id.
pub open spec fn unit_ids(units: Seq<Unit>) -> Seq<Option<i32>> {
    units.map_values(|u: Unit| u.unit_id)
}

impl GetUnitsResponse {
    /// The response for the rows fetched for a listing with `limit`; every
    /// fetched row is a stored unit, so it carries its id.
    pub fn from_rows(rows: Vec<Unit>, limit: i64) -> (r: Self)
        requires
            valid_limit(limit as int),
            forall|i: int| 0 <= i < rows@.len() ==> (#[trigger] rows@[i]).unit_id is Some,
        ensures
            r.units@.len() <= limit,
            r.next_start_from is Some <==> rows@.len() > limit,
            rows@.len() <= limit ==> r.units@ == rows@ && r.next_start_from is None,
            rows@.len() > limit ==> r.units@ == rows@.take(limit as int) && r.next_start_from
                == rows@[limit as int].unit_id,
    {
        let (units, next) = split_page(rows, limit);
        let next_start_from = match next {
            Some(unit) => unit.unit_id,
            None => None,
        };
        GetUnitsResponse { units, next_start_from }
    }
}

impl GetIngredientsResponse {
    /// The response for the rows fetched for a listing with `limit`; every
    /// fetched row is a stored ingredient, so it carries its id.
    pub fn from_rows(rows: Vec<Ingredient>, limit: i64) -> (r: Self)
        requires
            valid_limit(limit as int),
            forall|i: int| 0 <= i < rows@.len() ==> (#[trigger] rows@[i]).ingredient_id is Some,
        ensures
            r.ingredients@.len() <= limit,
            r.next_start_from is Some <==> rows@.len() > limit,
            rows@.len() <= limit ==> r.ingredients@ == rows@ && r.next_start_from is None,
            rows@.len() > limit ==> r.ingredients@ == rows@.take(limit as int)
                && r.next_start_from == rows@[limit as int].ingredient_id,
    {
        let (ingredients, next) = split_page(rows, limit);
        let next_start_from = match next {
            Some(ingredient) => ingredient.ingredient_id,
            None => None,
        };
        GetIngredientsResponse { ingredients, next_start_from }
    }
}

// A model of the listing query, to state what repeated listing yields.

pub open spec fn strictly_ascending(t: Seq<i32>) -> bool {
    forall|i: int, j: int| 0 <= i < j < t.len() ==> t[i] < t[j]
}

/// The ids of an ascending table that are at least `start`.
pub open spec fn ids_from(t: Seq<i32>, start: int) -> Seq<i32>
    decreases t.len(),
{
    if t.len() == 0 {
        t
    } else if t[0] >= start {
        t
    } else {
        ids_from(t.drop_first(), start)
    }
}

/// The rows the listing query returns: the ids at least `start`, ascending,
/// capped at `limit + 1`.
pub open spec fn listing_rows(t: Seq<i32>, start: int, limit: int) -> Seq<i32> {
    let u = ids_from(t, start);
    if u.len() <= limit + 1 {
        u
    } else {
        u.take(limit + 1)
    }
}

/// The ids collected by listing from `start`, then from each returned cursor
/// until none is returned, making at most `calls` listings.
pub open spec fn walk_pages(t: Seq<i32>, start: int, limit: int, calls: nat) -> Seq<i32>
    decreases calls,
{
    if calls == 0 {
        Seq::empty()
    } else {
        let (page, next) = page_of(listing_rows(t, start, limit), limit);
        match next {
            None => page,
            Some(n) => page + walk_pages(t, n as int, limit, (calls - 1) as nat),
        }
    }
}

proof fn lemma_ids_from_suffix(t: Seq<i32>, start: int, k: int)
    requires
        0 <= k <= t.len(),
        forall|i: int| 0 <= i < k ==> t[i] < start,
        k < t.len() ==> t[k] >= start,
    ensures
        ids_from(t, start) == t.skip(k),
    decreases t.len(),
{
    if k == 0 {
        assert(t.skip(0) =~= t);
    } else {
        lemma_ids_from_suffix(t.drop_first(), start, k - 1);
        assert(t.drop_first().skip(k - 1) =~= t.skip(k));
    }
}

proof fn lemma_ids_from_is_suffix(t: Seq<i32>, start: int) -> (k: int)
    ensures
        0 <= k <= t.len(),
        ids_from(t, start) == t.skip(k),
        forall|i: int| 0 <= i < k ==> t[i] < start,
    decreases t.len(),
{
    if t.len() == 0 || t[0] >= start {
        assert(t.skip(0) =~= t);
        0
    } else {
        let k0 = lemma_ids_from_is_suffix(t.drop_first(), start);
        assert(t.drop_first().skip(k0) =~= t.skip(k0 + 1));
        assert forall|i: int| 0 <= i < k0 + 1 implies t[i] < start by {
            if i > 0 {
                assert(t[i] == t.drop_first()[i - 1]);
            }
        }
        k0 + 1
    }
}

proof fn lemma_walk_from(t: Seq<i32>, start: int, limit: int, calls: nat)
    requires
        strictly_ascending(t),
        valid_limit(limit),
        calls >= ids_from(t, start).len(),
    ensures
        walk_pages(t, start, limit, calls) == ids_from(t, start),
    decreases calls,
{
    let u = ids_from(t, start);
    if u.len() <= limit {
        if calls == 0 {
            assert(u =~= Seq::<i32>::empty());
        }
    } else {
        let k = lemma_ids_from_is_suffix(t, start);
        let n = u[limit];
        assert(n == t[k + limit]);
        lemma_ids_from_suffix(t, n as int, k + limit);
        assert(t.skip(k + limit) =~= u.skip(limit));
        assert(u.take(limit + 1).take(limit) =~= u.take(limit));
        lemma_walk_from(t, n as int, limit, (calls - 1) as nat);
        assert(u.take(limit) + u.skip(limit) =~= u);
    }
}

/// Listing from a cursor no greater than every id, then from each returned
/// `next_start_from` until it is `None`, yields every id of the table exactly
/// once, in ascending order, for any limit in `1..=15`; one call more than
/// there are ids is always enough.
pub proof fn lemma_pagination_exhaustive(t: Seq<i32>, start: i32, limit: i64, calls: nat)
    requires
        strictly_ascending(t),
        valid_limit(limit as int),
        forall|i: int| 0 <= i < t.len() ==> start <= t[i],
        calls >= t.len(),
    ensures
        walk_pages(t, start as int, limit as int, calls) == t,
{
    lemma_ids_from_suffix(t, start as int, 0);
    assert(t.skip(0) =~= t);
    lemma_walk_from(t, start as int, limit as int, calls);
}

/// Listing recipes from the default cursor 0, then from each returned
/// `next_start_from` until it is `None`, yields every recipe id exactly once,
/// in ascending order, when ids are non-negative: every page holds at most
/// `limit` ids and no id comes back in two pages.
pub proof fn lemma_pagination_from_default_cursor(t: Seq<i32>, limit: i64, calls: nat)
    requires
        strictly_ascending(t),
        valid_limit(limit as int),
        forall|i: int| 0 <= i < t.len() ==> 0 <= #[trigger] t[i],
        calls >= t.len(),
    ensures
        walk_pages(t, 0, limit as int, calls) == t,
{
    lemma_pagination_exhaustive(t, 0, limit, calls);
}

/// Whatever the table and the cursor, a page never holds more than `limit`
/// ids, and it carries a next cursor exactly when strictly more than `limit`
/// ids matched the query.
pub proof fn lemma_page_overfetch(t: Seq<i32>, start: i32, limit: i64)
    requires
        valid_limit(limit as int),
    ensures
        page_of(listing_rows(t, start as int, limit as int), limit as int).0.len() <= limit,
        page_of(listing_rows(t, start as int, limit as int), limit as int).1 is Some
            <==> ids_from(t, start as int).len() > limit,
{
}

} // verus!
