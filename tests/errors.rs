use just_recipe::error::{affected_rows_outcome, AppError, DbFailure, RecipeParsingError};

#[test]
fn status_codes() {
    assert_eq!(AppError::InternalServerError.status_code(), 500);
    assert_eq!(AppError::NotFound.status_code(), 404);
    assert_eq!(AppError::Conflict.status_code(), 409);
    assert_eq!(AppError::BadRequest.status_code(), 400);
    assert_eq!(AppError::RecipeParsingError(RecipeParsingError::InvalidUnitId).status_code(), 422);
}

#[test]
fn parsing_error_converts() {
    let e: AppError = RecipeParsingError::RecipeIdNotPositive.into();
    assert_eq!(e, AppError::RecipeParsingError(RecipeParsingError::RecipeIdNotPositive));
}

#[test]
fn ingredient_line_failures_are_classified() {
    assert_eq!(
        AppError::from_ingredient_lines_failure(DbFailure::ForeignKeyViolation),
        AppError::RecipeParsingError(RecipeParsingError::InvalidIngredientId)
    );
    assert_eq!(
        AppError::from_ingredient_lines_failure(DbFailure::UniqueViolation),
        AppError::RecipeParsingError(RecipeParsingError::DuplicateIngredientId)
    );
    assert_eq!(AppError::from_ingredient_lines_failure(DbFailure::Other), AppError::InternalServerError);
}

#[test]
fn named_insert_failures_are_classified() {
    assert_eq!(AppError::from_named_insert_failure(DbFailure::UniqueViolation), AppError::Conflict);
    assert_eq!(
        AppError::from_named_insert_failure(DbFailure::ForeignKeyViolation),
        AppError::InternalServerError
    );
    assert_eq!(AppError::from_db_failure(DbFailure::UniqueViolation), AppError::InternalServerError);
}

#[test]
fn no_affected_row_is_not_found() {
    assert_eq!(affected_rows_outcome(0), Err(AppError::NotFound));
    assert_eq!(affected_rows_outcome(1), Ok(()));
}

#[test]
fn messages() {
    assert_eq!(AppError::NotFound.message(), "Resource was not found.");
    assert_eq!(AppError::BadRequest.message(), "The request was in incorrect format.");
    assert_eq!(
        AppError::RecipeParsingError(RecipeParsingError::StepNumbersOutOfOrder).message(),
        "There was an error parsing the recipe: Step numbers are out of order."
    );
    assert_eq!(RecipeParsingError::DuplicateIngredientId.message(), "Duplicate ingredient ID.");
}
