use vstd::prelude::*;

use core::marker::PhantomData;
use dashmap::DashSet;

use crate::error::{AppError, RecipeParsingError};
use crate::id_cache::{id_set, id_set_contains, IdentifierCache};
use crate::recipe_ingredient::{CompactRecipeIngredient, DetailedRecipeIngredient, RecipeIngredient};
use crate::recipe_step::{check_step_numbers, steps_contiguous, RecipeStep};

verus! {

/// Phase of a recipe whose references have been checked.
pub struct Backed;

/// Phase of a recipe as it was received, with no guarantee.
pub struct NotBacked;

/// A recipe with its ingredient lines and steps. `BackedState` records at the
/// type level whether the recipe has been validated. A compact `Backed`
/// recipe comes only from `to_backed` or `validate_for_write`, which run the
/// structural checks and then check every referenced unit and ingredient; a
/// detailed one from checking its embedded records, or from reading a stored
/// recipe back with `new`.
pub struct Recipe<I: RecipeIngredient, BackedState = NotBacked> {
    recipe_id: Option<i32>,
    name: String,
    description: String,
    ingredients: Vec<I>,
    steps: Vec<RecipeStep>,
    backed_state: PhantomData<BackedState>,
}

/// Some line refers to an ingredient that `ingredients` does not hold.
pub open spec fn has_unknown_ingredient(
    lines: Seq<CompactRecipeIngredient>,
    ingredients: Set<i32>,
) -> bool {
    exists|i: int| 0 <= i < lines.len() && !ingredients.contains(#[trigger] lines[i].ingredient_id)
}

/// Some line refers to a unit that `units` does not hold.
pub open spec fn has_unknown_unit(lines: Seq<CompactRecipeIngredient>, units: Set<i32>) -> bool {
    exists|i: int| 0 <= i < lines.len() && !units.contains(#[trigger] lines[i].unit_id)
}

/// Every line's ingredient id is in `ingredients` and its unit id in `units`.
pub open spec fn all_references_known(
    lines: Seq<CompactRecipeIngredient>,
    units: Set<i32>,
    ingredients: Set<i32>,
) -> bool {
    forall|i: int|
        0 <= i < lines.len() ==> ingredients.contains(#[trigger] lines[i].ingredient_id)
            && units.contains(lines[i].unit_id)
}

/// The error of structural validation, if any: a negative explicit id first,
/// then step numbers that are not `1..=n`.
pub open spec fn structural_error(recipe_id: Option<i32>, steps: Seq<RecipeStep>) -> Option<
    RecipeParsingError,
> {
    if recipe_id is Some && recipe_id->0 < 0 {
        Some(RecipeParsingError::RecipeIdNotPositive)
    } else if !steps_contiguous(steps) {
        Some(RecipeParsingError::StepNumbersOutOfOrder)
    } else {
        None
    }
}

/// The error of referential validation, if any: unknown ingredients are
/// reported before unknown units.
pub open spec fn reference_error(
    lines: Seq<CompactRecipeIngredient>,
    units: Set<i32>,
    ingredients: Set<i32>,
) -> Option<RecipeParsingError> {
    if has_unknown_ingredient(lines, ingredients) {
        Some(RecipeParsingError::InvalidIngredientId)
    } else if has_unknown_unit(lines, units) {
        Some(RecipeParsingError::InvalidUnitId)
    } else {
        None
    }
}

impl<I: RecipeIngredient, BackedState> Recipe<I, BackedState> {
    pub closed spec fn spec_recipe_id(&self) -> Option<i32> {
        self.recipe_id
    }

    pub closed spec fn spec_name(&self) -> Seq<char> {
        self.name@
    }

    pub closed spec fn spec_description(&self) -> Seq<char> {
        self.description@
    }

    pub closed spec fn spec_ingredients(&self) -> Seq<I> {
        self.ingredients@
    }

    pub closed spec fn spec_steps(&self) -> Seq<RecipeStep> {
        self.steps@
    }

    /// The two recipes carry the same data, whatever their phases.
    pub open spec fn same_contents<P>(&self, other: &Recipe<I, P>) -> bool {
        &&& self.spec_recipe_id() == other.spec_recipe_id()
        &&& self.spec_name() == other.spec_name()
        &&& self.spec_description() == other.spec_description()
        &&& self.spec_ingredients() == other.spec_ingredients()
        &&& self.spec_steps() == other.spec_steps()
    }

    pub fn recipe_id(&self) -> (r: Option<&i32>)
        ensures
            r matches Some(id) ==> self.spec_recipe_id() == Some(*id),
            r is None ==> self.spec_recipe_id() is None,
    {
        self.recipe_id.as_ref()
    }

    pub fn name(&self) -> (r: &str)
        ensures
            r@ == self.spec_name(),
    {
        self.name.as_str()
    }

    pub fn description(&self) -> (r: &str)
        ensures
            r@ == self.spec_description(),
    {
        self.description.as_str()
    }

    pub fn ingredients(&self) -> (r: &[I])
        ensures
            r@ == self.spec_ingredients(),
    {
        self.ingredients.as_slice()
    }

    pub fn steps(&self) -> (r: &[RecipeStep])
        ensures
            r@ == self.spec_steps(),
    {
        self.steps.as_slice()
    }

    /// Whether a stored name and description differ from this recipe's, so
    /// that the stored row needs a write.
    pub fn differs_from_stored(&self, name: &String, description: &String) -> (r: bool)
        ensures
            r == (self.spec_name() != name@ || self.spec_description() != description@),
    {
        !(self.name == *name && self.description == *description)
    }

    /// Moves the recipe's data into the other phase. Private: a phase change
    /// is only made after the checks that it stands for.
    fn into_phase<P>(self) -> (r: Recipe<I, P>)
        ensures
            r.same_contents(&self),
    {
        Recipe {
            recipe_id: self.recipe_id,
            name: self.name,
            description: self.description,
            ingredients: self.ingredients,
            steps: self.steps,
            backed_state: PhantomData,
        }
    }
}

impl Recipe<DetailedRecipeIngredient, Backed> {
    /// A recipe as read back from the database.
    pub fn new(
        recipe_id: i32,
        name: String,
        description: String,
        ingredients: Vec<DetailedRecipeIngredient>,
        steps: Vec<RecipeStep>,
    ) -> (r: Recipe<DetailedRecipeIngredient, Backed>)
        ensures
            r.spec_recipe_id() == Some(recipe_id),
            r.spec_name() == name@,
            r.spec_description() == description@,
            r.spec_ingredients() == ingredients@,
            r.spec_steps() == steps@,
    {
        Recipe { recipe_id: Some(recipe_id), name, description, ingredients, steps, backed_state: PhantomData }
    }
}

impl Recipe<CompactRecipeIngredient, NotBacked> {
    /// A recipe as received from a client, not yet validated.
    pub fn unvalidated(
        recipe_id: Option<i32>,
        name: String,
        description: String,
        ingredients: Vec<CompactRecipeIngredient>,
        steps: Vec<RecipeStep>,
    ) -> (r: Self)
        ensures
            r.spec_recipe_id() == recipe_id,
            r.spec_name() == name@,
            r.spec_description() == description@,
            r.spec_ingredients() == ingredients@,
            r.spec_steps() == steps@,
    {
        Recipe { recipe_id, name, description, ingredients, steps, backed_state: PhantomData }
    }

    /// Checks every line's references: each ingredient id must be in
    /// `ingredient_ids` and each unit id in `unit_ids`, ingredients first.
    /// Private: a `Backed` recipe also needs the structural checks, which
    /// `to_backed` runs before this.
    fn check_references(self, unit_ids: &DashSet<i32>, ingredient_ids: &DashSet<i32>) -> (r: Result<
        Recipe<CompactRecipeIngredient, Backed>,
        AppError,
    >)
        ensures
            match reference_error(self.spec_ingredients(), id_set(*unit_ids), id_set(*ingredient_ids)) {
                Some(e) => r == Err::<Recipe<CompactRecipeIngredient, Backed>, AppError>(
                    AppError::RecipeParsingError(e),
                ),
                None => r matches Ok(backed) && backed.same_contents(&self),
            },
    {
        let mut i: usize = 0;
        while i < self.ingredients.len()
            invariant
                i <= self.ingredients@.len(),
                forall|k: int|
                    0 <= k < i ==> id_set(*ingredient_ids).contains(
                        #[trigger] self.ingredients@[k].ingredient_id,
                    ),
            decreases self.ingredients@.len() - i,
        {
            if !id_set_contains(ingredient_ids, self.ingredients[i].ingredient_id) {
                return Err(AppError::RecipeParsingError(RecipeParsingError::InvalidIngredientId));
            }
            i = i + 1;
        }
        let mut j: usize = 0;
        while j < self.ingredients.len()
            invariant
                j <= self.ingredients@.len(),
                !has_unknown_ingredient(self.ingredients@, id_set(*ingredient_ids)),
                forall|k: int|
                    0 <= k < j ==> id_set(*unit_ids).contains(#[trigger] self.ingredients@[k].unit_id),
            decreases self.ingredients@.len() - j,
        {
            if !id_set_contains(unit_ids, self.ingredients[j].unit_id) {
                return Err(AppError::RecipeParsingError(RecipeParsingError::InvalidUnitId));
            }
            j = j + 1;
        }
        Ok(self.into_phase())
    }

    /// Validation for a write: the structural checks of `validate` first,
    /// then every line's references, each ingredient id in `ingredient_ids`
    /// and each unit id in `unit_ids`, ingredients before units.
    pub fn to_backed(self, unit_ids: &DashSet<i32>, ingredient_ids: &DashSet<i32>) -> (r: Result<
        Recipe<CompactRecipeIngredient, Backed>,
        AppError,
    >)
        ensures
            match structural_error(self.spec_recipe_id(), self.spec_steps()) {
                Some(e) => r == Err::<Recipe<CompactRecipeIngredient, Backed>, AppError>(
                    AppError::RecipeParsingError(e),
                ),
                None => match reference_error(
                    self.spec_ingredients(),
                    id_set(*unit_ids),
                    id_set(*ingredient_ids),
                ) {
                    Some(e) => r == Err::<Recipe<CompactRecipeIngredient, Backed>, AppError>(
                        AppError::RecipeParsingError(e),
                    ),
                    None => r matches Ok(backed) && backed.same_contents(&self),
                },
            },
    {
        let checked = self.validate()?;
        checked.check_references(unit_ids, ingredient_ids)
    }

    /// Full validation for a write against the identifier cache.
    pub fn validate_for_write(self, cache: &IdentifierCache) -> (r: Result<
        Recipe<CompactRecipeIngredient, Backed>,
        AppError,
    >)
        ensures
            match structural_error(self.spec_recipe_id(), self.spec_steps()) {
                Some(e) => r == Err::<Recipe<CompactRecipeIngredient, Backed>, AppError>(
                    AppError::RecipeParsingError(e),
                ),
                None => match reference_error(
                    self.spec_ingredients(),
                    cache.units(),
                    cache.ingredients(),
                ) {
                    Some(e) => r == Err::<Recipe<CompactRecipeIngredient, Backed>, AppError>(
                        AppError::RecipeParsingError(e),
                    ),
                    None => r matches Ok(backed) && backed.same_contents(&self),
                },
            },
    {
        self.to_backed(cache.unit_set(), cache.ingredient_set())
    }
}

/// The first line whose references do not check out decides the error: a
/// line fails on its ingredient when the ingredient has no id or no stored
/// record with its id and names, and otherwise on its unit likewise.
pub open spec fn detailed_reference_error(
    lines: Seq<DetailedRecipeIngredient>,
    ingredient_found: Seq<bool>,
    unit_found: Seq<bool>,
) -> Option<RecipeParsingError>
    decreases lines.len(),
{
    if lines.len() == 0 || ingredient_found.len() == 0 || unit_found.len() == 0 {
        None
    } else if lines[0].ingredient.ingredient_id is None || !ingredient_found[0] {
        Some(RecipeParsingError::InvalidIngredientId)
    } else if lines[0].unit.unit_id is None || !unit_found[0] {
        Some(RecipeParsingError::InvalidUnitId)
    } else {
        detailed_reference_error(
            lines.drop_first(),
            ingredient_found.drop_first(),
            unit_found.drop_first(),
        )
    }
}

impl Recipe<DetailedRecipeIngredient, NotBacked> {
    /// A detailed recipe as received, not yet checked against the store.
    pub fn unvalidated(
        recipe_id: Option<i32>,
        name: String,
        description: String,
        ingredients: Vec<DetailedRecipeIngredient>,
        steps: Vec<RecipeStep>,
    ) -> (r: Self)
        ensures
            r.spec_recipe_id() == recipe_id,
            r.spec_name() == name@,
            r.spec_description() == description@,
            r.spec_ingredients() == ingredients@,
            r.spec_steps() == steps@,
    {
        Recipe { recipe_id, name, description, ingredients, steps, backed_state: PhantomData }
    }

    /// Checks the embedded records against the store. `ingredient_found[i]`
    /// and `unit_found[i]` tell whether a stored record has the id and names
    /// of line `i`'s ingredient and unit.
    pub fn to_backed(self, ingredient_found: &Vec<bool>, unit_found: &Vec<bool>) -> (r: Result<
        Recipe<DetailedRecipeIngredient, Backed>,
        AppError,
    >)
        requires
            ingredient_found@.len() == self.spec_ingredients().len(),
            unit_found@.len() == self.spec_ingredients().len(),
        ensures
            match detailed_reference_error(self.spec_ingredients(), ingredient_found@, unit_found@) {
                Some(e) => r == Err::<Recipe<DetailedRecipeIngredient, Backed>, AppError>(
                    AppError::RecipeParsingError(e),
                ),
                None => r matches Ok(backed) && backed.same_contents(&self),
            },
    {
        let n = self.ingredients.len();
        let mut i: usize = 0;
        proof {
            assert(self.ingredients@.skip(0) =~= self.ingredients@);
            assert(ingredient_found@.skip(0) =~= ingredient_found@);
            assert(unit_found@.skip(0) =~= unit_found@);
        }
        while i < n
            invariant
                n == self.ingredients@.len(),
                ingredient_found@.len() == n,
                unit_found@.len() == n,
                i <= n,
                detailed_reference_error(self.ingredients@, ingredient_found@, unit_found@)
                    == detailed_reference_error(
                    self.ingredients@.skip(i as int),
                    ingredient_found@.skip(i as int),
                    unit_found@.skip(i as int),
                ),
            decreases n - i,
        {
            proof {
                assert(self.ingredients@.skip(i as int).drop_first() =~= self.ingredients@.skip(
                    i + 1,
                ));
                assert(ingredient_found@.skip(i as int).drop_first() =~= ingredient_found@.skip(
                    i + 1,
                ));
                assert(unit_found@.skip(i as int).drop_first() =~= unit_found@.skip(i + 1));
            }
            let line = &self.ingredients[i];
            if line.ingredient.ingredient_id.is_none() || !ingredient_found[i] {
                return Err(AppError::RecipeParsingError(RecipeParsingError::InvalidIngredientId));
            }
            if line.unit.unit_id.is_none() || !unit_found[i] {
                return Err(AppError::RecipeParsingError(RecipeParsingError::InvalidUnitId));
            }
            i = i + 1;
        }
        Ok(self.into_phase())
    }
}

impl<BackedState> Recipe<CompactRecipeIngredient, BackedState> {
    /// Structural validation: an explicit id must not be negative, and the
    /// step numbers, once sorted, must be exactly `1..=n` with `n >= 1`.
    pub fn validate(self) -> (r: Result<Self, AppError>)
        ensures
            match structural_error(self.spec_recipe_id(), self.spec_steps()) {
                Some(e) => r == Err::<Self, AppError>(AppError::RecipeParsingError(e)),
                None => r == Ok::<Self, AppError>(self),
            },
    {
        if let Some(id) = self.recipe_id {
            if id < 0 {
                return Err(AppError::RecipeParsingError(RecipeParsingError::RecipeIdNotPositive));
            }
        }
        if !check_step_numbers(&self.steps) {
            return Err(AppError::RecipeParsingError(RecipeParsingError::StepNumbersOutOfOrder));
        }
        Ok(self)
    }
}

/// Lines whose ingredient and unit ids are all known pass the reference
/// check, whether or not an ingredient id repeats.
pub proof fn lemma_known_references_pass(
    lines: Seq<CompactRecipeIngredient>,
    units: Set<i32>,
    ingredients: Set<i32>,
)
    requires
        all_references_known(lines, units, ingredients),
    ensures
        reference_error(lines, units, ingredients) is None,
{
    if has_unknown_ingredient(lines, ingredients) {
        let w = choose|i: int|
            0 <= i < lines.len() && !ingredients.contains(#[trigger] lines[i].ingredient_id);
        assert(ingredients.contains(lines[w].ingredient_id));
    }
    if has_unknown_unit(lines, units) {
        let w = choose|i: int| 0 <= i < lines.len() && !units.contains(#[trigger] lines[i].unit_id);
        assert(ingredients.contains(lines[w].ingredient_id));
        assert(units.contains(lines[w].unit_id));
    }
}

/// The referential gate: lines whose ingredient and unit ids are all known
/// pass, duplicates or not; inserting one line with an unknown ingredient id
/// at any position makes the check fail with `InvalidIngredientId`, whatever
/// the other lines and the units hold.
pub proof fn lemma_referential_gate(
    lines: Seq<CompactRecipeIngredient>,
    units: Set<i32>,
    ingredients: Set<i32>,
    extra: CompactRecipeIngredient,
    pos: int,
)
    requires
        0 <= pos <= lines.len(),
        !ingredients.contains(extra.ingredient_id),
    ensures
        all_references_known(lines, units, ingredients) ==> reference_error(
            lines,
            units,
            ingredients,
        ) is None,
        reference_error(lines.insert(pos, extra), units, ingredients) == Some(
            RecipeParsingError::InvalidIngredientId,
        ),
{
    if all_references_known(lines, units, ingredients) {
        lemma_known_references_pass(lines, units, ingredients);
    }
    let longer = lines.insert(pos, extra);
    assert(longer[pos] == extra);
    assert(has_unknown_ingredient(longer, ingredients));
}

} // verus!
