use vstd::prelude::*;

use crate::ingredient::Ingredient;
use crate::unit::Unit;

verus! {

/// The glue between a recipe, an ingredient, a unit and a quantity.
pub trait RecipeIngredient {
    type IngredientType;

    type UnitType;

    /// The ingredient the line refers to: an id, or the whole record.
    spec fn ingredient_view(&self) -> Self::IngredientType;

    /// The unit the line refers to: an id, or the whole record.
    spec fn unit_view(&self) -> Self::UnitType;

    /// The free-text quantity, such as "3/4".
    spec fn quantity_view(&self) -> Seq<char>;

    fn ingredient(&self) -> (r: &Self::IngredientType)
        ensures
            *r == self.ingredient_view(),
    ;

    fn unit(&self) -> (r: &Self::UnitType)
        ensures
            *r == self.unit_view(),
    ;

    fn quantity(&self) -> (r: &str)
        ensures
            r@ == self.quantity_view(),
    ;
}

/// An ingredient line that refers to its ingredient and unit by id.
pub struct CompactRecipeIngredient {
    pub recipe_id: i32,
    pub unit_id: i32,
    pub ingredient_id: i32,
    pub quantity: String,
}

/// An ingredient line that embeds the full ingredient and unit records.
pub struct DetailedRecipeIngredient {
    pub recipe_id: i32,
    pub ingredient: Ingredient,
    pub unit: Unit,
    pub quantity: String,
}

impl CompactRecipeIngredient {
    pub fn new(recipe_id: i32, unit_id: i32, ingredient_id: i32, quantity: String) -> (r: Self)
        ensures
            r.recipe_id == recipe_id,
            r.unit_id == unit_id,
            r.ingredient_id == ingredient_id,
            r.quantity == quantity,
    {
        CompactRecipeIngredient { recipe_id, unit_id, ingredient_id, quantity }
    }
}

impl DetailedRecipeIngredient {
    pub fn new(recipe_id: i32, ingredient: Ingredient, unit: Unit, quantity: String) -> (r: Self)
        ensures
            r.recipe_id == recipe_id,
            r.ingredient == ingredient,
            r.unit == unit,
            r.quantity == quantity,
    {
        DetailedRecipeIngredient { recipe_id, unit, ingredient, quantity }
    }
}

impl RecipeIngredient for CompactRecipeIngredient {
    type IngredientType = i32;

    type UnitType = i32;

    open spec fn ingredient_view(&self) -> i32 {
        self.ingredient_id
    }

    open spec fn unit_view(&self) -> i32 {
        self.unit_id
    }

    open spec fn quantity_view(&self) -> Seq<char> {
        self.quantity@
    }

    fn ingredient(&self) -> (r: &i32) {
        &self.ingredient_id
    }

    fn unit(&self) -> (r: &i32) {
        &self.unit_id
    }

    fn quantity(&self) -> (r: &str) {
        self.quantity.as_str()
    }
}

impl RecipeIngredient for DetailedRecipeIngredient {
    type IngredientType = Ingredient;

    type UnitType = Unit;

    open spec fn ingredient_view(&self) -> Ingredient {
        self.ingredient
    }

    open spec fn unit_view(&self) -> Unit {
        self.unit
    }

    open spec fn quantity_view(&self) -> Seq<char> {
        self.quantity@
    }

    fn ingredient(&self) -> (r: &Ingredient) {
        &self.ingredient
    }

    fn unit(&self) -> (r: &Unit) {
        &self.unit
    }

    fn quantity(&self) -> (r: &str) {
        self.quantity.as_str()
    }
}

/// One row of the join of a recipe's ingredient lines with their ingredient
/// and unit records.
pub struct IngredientLineRow {
    pub ingredient_id: i32,
    pub singular_name: String,
    pub plural_name: String,
    pub unit_id: i32,
    pub unit_singular: String,
    pub unit_plural: String,
    pub quantity: String,
}

/// `line` is the detailed line that `row` describes for `recipe_id`.
pub open spec fn line_from_row(line: DetailedRecipeIngredient, row: IngredientLineRow, recipe_id: i32) -> bool {
    &&& line.recipe_id == recipe_id
    &&& line.ingredient.ingredient_id == Some(row.ingredient_id)
    &&& line.ingredient.singular_name@ == row.singular_name@
    &&& line.ingredient.plural_name@ == row.plural_name@
    &&& line.unit.unit_id == Some(row.unit_id)
    &&& line.unit.singular_name@ == row.unit_singular@
    &&& line.unit.plural_name@ == row.unit_plural@
    &&& line.quantity@ == row.quantity@
}

/// The detailed ingredient lines of recipe `recipe_id`, one per joined row,
/// in the order of the rows.
pub fn detailed_lines_from_rows(recipe_id: i32, rows: &Vec<IngredientLineRow>) -> (r: Vec<
    DetailedRecipeIngredient,
>)
    ensures
        r@.len() == rows@.len(),
        forall|i: int| 0 <= i < rows@.len() ==> line_from_row(#[trigger] r@[i], rows@[i], recipe_id),
{
    let mut lines: Vec<DetailedRecipeIngredient> = Vec::new();
    let mut i: usize = 0;
    while i < rows.len()
        invariant
            i <= rows@.len(),
            lines@.len() == i,
            forall|k: int| 0 <= k < i ==> line_from_row(#[trigger] lines@[k], rows@[k], recipe_id),
        decreases rows@.len() - i,
    {
        let row = &rows[i];
        let ingredient = Ingredient {
            ingredient_id: Some(row.ingredient_id),
            singular_name: row.singular_name.clone(),
            plural_name: row.plural_name.clone(),
        };
        let unit = Unit {
            unit_id: Some(row.unit_id),
            singular_name: row.unit_singular.clone(),
            plural_name: row.unit_plural.clone(),
        };
        lines.push(DetailedRecipeIngredient::new(recipe_id, ingredient, unit, row.quantity.clone()));
        i = i + 1;
    }
    lines
}

} // verus!
