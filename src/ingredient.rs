use vstd::prelude::*;

verus! {

/// An ingredient; `ingredient_id` is set once the ingredient is persisted.
#[derive(Debug)]
pub struct Ingredient {
    pub ingredient_id: Option<i32>,
    pub singular_name: String,
    pub plural_name: String,
}

} // verus!
