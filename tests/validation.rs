use dashmap::DashSet;
use just_recipe::error::{AppError, RecipeParsingError};
use just_recipe::id_cache::IdentifierCache;
use just_recipe::ingredient::Ingredient;
use just_recipe::recipe::{Backed, NotBacked, Recipe};
use just_recipe::recipe_ingredient::{
    detailed_lines_from_rows, CompactRecipeIngredient, DetailedRecipeIngredient,
    IngredientLineRow, RecipeIngredient,
};
use just_recipe::recipe_step::{check_step_numbers, sort_step_numbers, RecipeStep};
use just_recipe::unit::Unit;

fn step(step_number: i32, instruction: &str) -> RecipeStep {
    RecipeStep { step_id: 0, recipe_id: 0, step_number, instruction: instruction.to_string() }
}

fn line(ingredient_id: i32, unit_id: i32) -> CompactRecipeIngredient {
    CompactRecipeIngredient::new(0, unit_id, ingredient_id, "3/4".to_string())
}

fn recipe(
    id: Option<i32>,
    lines: Vec<CompactRecipeIngredient>,
    steps: Vec<RecipeStep>,
) -> Recipe<CompactRecipeIngredient, NotBacked> {
    Recipe::<CompactRecipeIngredient, NotBacked>::unvalidated(id, "Soup".to_string(), "Hot".to_string(), lines, steps)
}

fn parsing(e: RecipeParsingError) -> AppError {
    AppError::RecipeParsingError(e)
}

#[test]
fn unsorted_steps_are_accepted_and_keep_their_numbers() {
    let r = recipe(None, vec![], vec![step(2, "b"), step(1, "a")]);
    let ok = r.validate().expect("steps 2 and 1 are contiguous");
    let steps = ok.steps();
    assert_eq!(steps.len(), 2);
    assert_eq!(steps[0].step_number, 2);
    assert_eq!(steps[0].instruction, "b");
    assert_eq!(steps[1].step_number, 1);
    assert_eq!(steps[1].instruction, "a");
    assert_eq!(sort_step_numbers(&steps.to_vec()), vec![1, 2]);
}

#[test]
fn gap_in_steps_is_out_of_order() {
    let r = recipe(None, vec![], vec![step(1, "a"), step(3, "c")]);
    assert_eq!(r.validate().err(), Some(parsing(RecipeParsingError::StepNumbersOutOfOrder)));
}

#[test]
fn duplicate_step_number_is_out_of_order() {
    let r = recipe(None, vec![], vec![step(1, "a"), step(2, "b"), step(2, "c")]);
    assert_eq!(r.validate().err(), Some(parsing(RecipeParsingError::StepNumbersOutOfOrder)));
}

#[test]
fn steps_not_starting_at_one_are_out_of_order() {
    let r = recipe(None, vec![], vec![step(2, "b"), step(3, "c")]);
    assert_eq!(r.validate().err(), Some(parsing(RecipeParsingError::StepNumbersOutOfOrder)));
}

#[test]
fn zero_steps_are_out_of_order() {
    let r = recipe(None, vec![], vec![]);
    assert_eq!(r.validate().err(), Some(parsing(RecipeParsingError::StepNumbersOutOfOrder)));
}

#[test]
fn largest_step_number_does_not_overflow() {
    assert!(!check_step_numbers(&vec![step(1, "a"), step(i32::MAX, "z")]));
    assert!(!check_step_numbers(&vec![step(i32::MIN, "a"), step(1, "z")]));
}

#[test]
fn long_shuffled_steps_are_contiguous() {
    let steps: Vec<RecipeStep> = [5, 3, 1, 4, 2, 6].iter().map(|n| step(*n, "x")).collect();
    assert!(check_step_numbers(&steps));
    assert_eq!(sort_step_numbers(&steps), vec![1, 2, 3, 4, 5, 6]);
}

#[test]
fn negative_recipe_id_is_refused_before_steps() {
    let r = recipe(Some(-1), vec![], vec![step(1, "a"), step(3, "c")]);
    assert_eq!(r.validate().err(), Some(parsing(RecipeParsingError::RecipeIdNotPositive)));
}

#[test]
fn zero_recipe_id_is_accepted() {
    let r = recipe(Some(0), vec![], vec![step(1, "a")]);
    assert!(r.validate().is_ok());
}

fn cache() -> IdentifierCache {
    IdentifierCache::initialize(&vec![1, 2], &vec![10, 20, 30])
}

#[test]
fn known_references_pass() {
    let r = recipe(None, vec![line(10, 1), line(20, 2)], vec![step(1, "a")]);
    let backed: Recipe<CompactRecipeIngredient, Backed> =
        r.validate_for_write(&cache()).expect("all ids are known");
    assert_eq!(backed.name(), "Soup");
    assert_eq!(backed.description(), "Hot");
    assert_eq!(backed.ingredients().len(), 2);
    assert_eq!(*backed.ingredients()[1].ingredient(), 20);
    assert_eq!(*backed.ingredients()[1].unit(), 2);
    assert_eq!(backed.ingredients()[1].quantity(), "3/4");
}

#[test]
fn unknown_ingredient_fails_at_any_position() {
    for pos in 0..3 {
        let mut lines = vec![line(10, 1), line(20, 2)];
        lines.insert(pos, line(99, 1));
        let r = recipe(None, lines, vec![step(1, "a")]);
        assert_eq!(
            r.validate_for_write(&cache()).err(),
            Some(parsing(RecipeParsingError::InvalidIngredientId))
        );
    }
}

fn id_sets() -> (DashSet<i32>, DashSet<i32>) {
    let units = DashSet::new();
    units.insert(1);
    units.insert(2);
    let ingredients = DashSet::new();
    ingredients.insert(10);
    ingredients.insert(20);
    (units, ingredients)
}

#[test]
fn unknown_unit_fails() {
    let (units, ingredients) = id_sets();
    let r = recipe(None, vec![line(10, 1), line(20, 7)], vec![step(1, "a")]);
    assert_eq!(
        r.to_backed(&units, &ingredients).err(),
        Some(parsing(RecipeParsingError::InvalidUnitId))
    );
}

#[test]
fn to_backed_runs_structural_checks_first() {
    let (units, ingredients) = id_sets();
    let r = recipe(Some(-1), vec![], vec![]);
    assert_eq!(
        r.to_backed(&units, &ingredients).err(),
        Some(parsing(RecipeParsingError::RecipeIdNotPositive))
    );
    let r = recipe(None, vec![line(99, 99)], vec![]);
    assert_eq!(
        r.to_backed(&units, &ingredients).err(),
        Some(parsing(RecipeParsingError::StepNumbersOutOfOrder))
    );
    let r = recipe(None, vec![line(10, 2)], vec![step(1, "a")]);
    let backed = r.to_backed(&units, &ingredients).expect("valid and known");
    assert_eq!(*backed.ingredients()[0].unit(), 2);
}

#[test]
fn unknown_ingredient_reported_before_unknown_unit() {
    let r = recipe(None, vec![line(10, 7), line(99, 1)], vec![step(1, "a")]);
    assert_eq!(
        r.validate_for_write(&cache()).err(),
        Some(parsing(RecipeParsingError::InvalidIngredientId))
    );
}

#[test]
fn structural_errors_come_before_references() {
    let r = recipe(None, vec![line(99, 99)], vec![step(2, "a")]);
    assert_eq!(
        r.validate_for_write(&cache()).err(),
        Some(parsing(RecipeParsingError::StepNumbersOutOfOrder))
    );
}

#[test]
fn duplicate_ingredients_pass_validation() {
    let r = recipe(None, vec![line(10, 1), line(10, 2)], vec![step(1, "a")]);
    assert!(r.validate_for_write(&cache()).is_ok());
}

fn row(ingredient_id: i32, unit_id: i32) -> IngredientLineRow {
    IngredientLineRow {
        ingredient_id,
        singular_name: "apple".to_string(),
        plural_name: "apples".to_string(),
        unit_id,
        unit_singular: "cup".to_string(),
        unit_plural: "cups".to_string(),
        quantity: "1/2".to_string(),
    }
}

#[test]
fn detailed_recipe_is_built_from_rows() {
    let lines = detailed_lines_from_rows(7, &vec![row(3, 4), row(5, 6)]);
    assert_eq!(lines.len(), 2);
    assert_eq!(lines[1].recipe_id, 7);
    assert_eq!(lines[1].ingredient.ingredient_id, Some(5));
    assert_eq!(lines[1].unit.unit_id, Some(6));
    assert_eq!(lines[0].ingredient.plural_name, "apples");
    assert_eq!(lines[0].unit.singular_name, "cup");
    assert_eq!(lines[0].quantity(), "1/2");
    let r = Recipe::new(7, "Pie".to_string(), "Sweet".to_string(), lines, vec![step(1, "bake")]);
    assert_eq!(r.recipe_id(), Some(&7));
    assert_eq!(r.name(), "Pie");
    assert_eq!(r.steps()[0].instruction, "bake");
    assert_eq!(r.ingredients()[0].ingredient().singular_name, "apple");
    assert_eq!(r.ingredients()[0].unit().plural_name, "cups");
}

fn detailed(ingredient_id: Option<i32>, unit_id: Option<i32>) -> DetailedRecipeIngredient {
    DetailedRecipeIngredient::new(
        1,
        Ingredient {
            ingredient_id,
            singular_name: "egg".to_string(),
            plural_name: "eggs".to_string(),
        },
        Unit { unit_id, singular_name: "piece".to_string(), plural_name: "pieces".to_string() },
        "2".to_string(),
    )
}

fn detailed_recipe(lines: Vec<DetailedRecipeIngredient>) -> Recipe<DetailedRecipeIngredient, NotBacked> {
    Recipe::<DetailedRecipeIngredient, NotBacked>::unvalidated(
        Some(1),
        "Omelette".to_string(),
        "Quick".to_string(),
        lines,
        vec![step(1, "whisk")],
    )
}

#[test]
fn detailed_records_found_are_backed() {
    let r = detailed_recipe(vec![detailed(Some(1), Some(2))]);
    let backed = r.to_backed(&vec![true], &vec![true]).expect("records exist");
    assert_eq!(backed.name(), "Omelette");
}

#[test]
fn detailed_first_failing_line_decides() {
    let r = detailed_recipe(vec![detailed(Some(1), Some(2)), detailed(Some(1), None)]);
    assert_eq!(
        r.to_backed(&vec![true, true], &vec![true, true]).err(),
        Some(parsing(RecipeParsingError::InvalidUnitId))
    );
    let r = detailed_recipe(vec![detailed(Some(1), Some(2)), detailed(Some(1), Some(2))]);
    assert_eq!(
        r.to_backed(&vec![true, false], &vec![false, true]).err(),
        Some(parsing(RecipeParsingError::InvalidUnitId))
    );
    let r = detailed_recipe(vec![detailed(None, Some(2))]);
    assert_eq!(
        r.to_backed(&vec![true], &vec![true]).err(),
        Some(parsing(RecipeParsingError::InvalidIngredientId))
    );
}
