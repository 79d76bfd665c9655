use just_recipe::error::{AppError, DbFailure, RecipeParsingError};
use just_recipe::id_cache::IdentifierCache;
use just_recipe::persistence::{
    ingredient_line_columns, step_columns, RecipeWrite, WriteAction, WriteEvent,
};
use just_recipe::recipe::{Backed, Recipe};
use just_recipe::recipe_ingredient::CompactRecipeIngredient;
use just_recipe::recipe_step::RecipeStep;

fn step(step_number: i32, instruction: &str) -> RecipeStep {
    RecipeStep { step_id: 0, recipe_id: 0, step_number, instruction: instruction.to_string() }
}

fn backed(lines: Vec<CompactRecipeIngredient>, steps: Vec<RecipeStep>) -> Recipe<CompactRecipeIngredient, Backed> {
    let cache = IdentifierCache::initialize(&vec![1, 2], &vec![10, 20]);
    Recipe::<CompactRecipeIngredient, just_recipe::recipe::NotBacked>::unvalidated(None, "Soup".to_string(), "Hot".to_string(), lines, steps)
        .validate_for_write(&cache)
        .expect("valid recipe")
}

fn simple() -> Recipe<CompactRecipeIngredient, Backed> {
    backed(
        vec![CompactRecipeIngredient::new(0, 1, 10, "3/4".to_string())],
        vec![step(2, "b"), step(1, "a")],
    )
}

#[test]
fn create_runs_statements_in_order_and_commits() {
    let (mut w, first) = RecipeWrite::create(simple());
    assert_eq!(first, WriteAction::BeginTransaction);
    assert_eq!(w.advance(WriteEvent::Done), WriteAction::InsertRecipeRow);
    assert_eq!(w.advance(WriteEvent::Inserted(42)), WriteAction::InsertIngredientLines(42));
    assert_eq!(w.advance(WriteEvent::Done), WriteAction::InsertSteps(42));
    assert_eq!(w.advance(WriteEvent::Done), WriteAction::Commit);
    assert_eq!(w.advance(WriteEvent::Done), WriteAction::Finish(Ok(())));
    assert_eq!(w.advance(WriteEvent::Done), WriteAction::Finish(Ok(())));
}

#[test]
fn create_stores_unsorted_steps_with_their_numbers() {
    let (w, _) = RecipeWrite::create(simple());
    let cols = step_columns(w.recipe().steps(), 42);
    assert_eq!(cols.recipe_ids, vec![42, 42]);
    let mut pairs: Vec<(i32, String)> =
        cols.step_numbers.iter().copied().zip(cols.instructions.iter().cloned()).collect();
    pairs.sort();
    assert_eq!(pairs, vec![(1, "a".to_string()), (2, "b".to_string())]);
}

#[test]
fn failed_ingredient_lines_roll_back_without_commit() {
    let (mut w, _) = RecipeWrite::create(simple());
    w.advance(WriteEvent::Done);
    w.advance(WriteEvent::Inserted(5));
    assert_eq!(w.advance(WriteEvent::Failed(DbFailure::ForeignKeyViolation)), WriteAction::Rollback);
    let outcome = Err(AppError::RecipeParsingError(RecipeParsingError::InvalidIngredientId));
    assert_eq!(w.advance(WriteEvent::Done), WriteAction::Finish(outcome));
    assert_eq!(w.advance(WriteEvent::Done), WriteAction::Finish(outcome));
}

#[test]
fn duplicate_ingredient_is_rejected_at_persistence() {
    let r = backed(
        vec![
            CompactRecipeIngredient::new(0, 1, 10, "1".to_string()),
            CompactRecipeIngredient::new(0, 2, 10, "2".to_string()),
        ],
        vec![step(1, "a")],
    );
    let (mut w, _) = RecipeWrite::create(r);
    w.advance(WriteEvent::Done);
    w.advance(WriteEvent::Inserted(9));
    assert_eq!(w.advance(WriteEvent::Failed(DbFailure::UniqueViolation)), WriteAction::Rollback);
    assert_eq!(
        w.advance(WriteEvent::Done),
        WriteAction::Finish(Err(AppError::RecipeParsingError(
            RecipeParsingError::DuplicateIngredientId
        )))
    );
}

#[test]
fn other_line_failure_is_internal() {
    let (mut w, _) = RecipeWrite::create(simple());
    w.advance(WriteEvent::Done);
    w.advance(WriteEvent::Inserted(9));
    assert_eq!(w.advance(WriteEvent::Failed(DbFailure::Other)), WriteAction::Rollback);
    assert_eq!(w.advance(WriteEvent::Done), WriteAction::Finish(Err(AppError::InternalServerError)));
}

#[test]
fn failed_begin_finishes_without_rollback() {
    let (mut w, _) = RecipeWrite::create(simple());
    assert_eq!(
        w.advance(WriteEvent::Failed(DbFailure::Other)),
        WriteAction::Finish(Err(AppError::InternalServerError))
    );
}

#[test]
fn update_of_missing_recipe_is_not_found() {
    let (mut w, first) = RecipeWrite::update(simple(), -1);
    assert_eq!(first, WriteAction::BeginTransaction);
    assert_eq!(w.advance(WriteEvent::Done), WriteAction::FetchRecipeRow(-1));
    assert_eq!(w.advance(WriteEvent::Missing), WriteAction::Rollback);
    assert_eq!(w.advance(WriteEvent::Done), WriteAction::Finish(Err(AppError::NotFound)));
}

#[test]
fn update_with_changed_name_rewrites_row_and_children() {
    let (mut w, _) = RecipeWrite::update(simple(), 3);
    w.advance(WriteEvent::Done);
    let stored = WriteEvent::StoredRow { name: "Old".to_string(), description: "Hot".to_string() };
    assert_eq!(w.advance(stored), WriteAction::UpdateRecipeRow(3));
    assert_eq!(w.advance(WriteEvent::Done), WriteAction::DeleteIngredientLines(3));
    assert_eq!(w.advance(WriteEvent::Done), WriteAction::DeleteSteps(3));
    assert_eq!(w.advance(WriteEvent::Done), WriteAction::InsertIngredientLines(3));
    assert_eq!(w.advance(WriteEvent::Done), WriteAction::InsertSteps(3));
    assert_eq!(w.advance(WriteEvent::Done), WriteAction::Commit);
    assert_eq!(w.advance(WriteEvent::Done), WriteAction::Finish(Ok(())));
}

#[test]
fn update_with_same_text_skips_row_write() {
    let (mut w, _) = RecipeWrite::update(simple(), 3);
    w.advance(WriteEvent::Done);
    let stored = WriteEvent::StoredRow { name: "Soup".to_string(), description: "Hot".to_string() };
    assert_eq!(w.advance(stored), WriteAction::DeleteIngredientLines(3));
}

#[test]
fn failed_commit_is_internal() {
    let (mut w, _) = RecipeWrite::create(simple());
    w.advance(WriteEvent::Done);
    w.advance(WriteEvent::Inserted(1));
    w.advance(WriteEvent::Done);
    w.advance(WriteEvent::Done);
    assert_eq!(
        w.advance(WriteEvent::Failed(DbFailure::Other)),
        WriteAction::Finish(Err(AppError::InternalServerError))
    );
}

#[test]
fn ingredient_columns_follow_lines() {
    let lines = vec![
        CompactRecipeIngredient::new(0, 1, 10, "3/4".to_string()),
        CompactRecipeIngredient::new(0, 2, 20, "1/2".to_string()),
    ];
    let cols = ingredient_line_columns(&lines, 8);
    assert_eq!(cols.recipe_ids, vec![8, 8]);
    assert_eq!(cols.ingredient_ids, vec![10, 20]);
    assert_eq!(cols.unit_ids, vec![1, 2]);
    assert_eq!(cols.quantities, vec!["3/4".to_string(), "1/2".to_string()]);
    let empty = ingredient_line_columns(&[], 8);
    assert!(empty.recipe_ids.is_empty());
}
