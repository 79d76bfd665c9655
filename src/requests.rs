use vstd::prelude::*;

verus! {

/// Body of a request to delete a recipe.
#[derive(Debug)]
pub struct RemoveRecipeRequest {
    pub recipe_id: i32,
}

/// Body of a request to delete an ingredient.
#[derive(Debug)]
pub struct RemoveIngredientRequest {
    pub ingredient_id: i32,
}

/// Body of a request to delete a unit.
#[derive(Debug)]
pub struct DeleteUnitRequest {
    pub unit_id: i32,
}

} // verus!
