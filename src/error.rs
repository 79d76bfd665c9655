use vstd::prelude::*;
use vstd::string::StringExecFns;

verus! {

/// Why a recipe was refused, either before any write or by the database.
#[derive(Debug, Clone, Copy, PartialEq, Eq, Structural)]
pub enum RecipeParsingError {
    StepNumbersOutOfOrder,
    RecipeIdNotPositive,
    InvalidUnitId,
    InvalidIngredientId,
    DuplicateIngredientId,
}

/// Every failure the core reports to its caller.
#[derive(Debug, Clone, Copy, PartialEq, Eq, Structural)]
pub enum AppError {
    /// An unclassified database or transport failure.
    InternalServerError,
    /// The addressed resource does not exist.
    NotFound,
    /// A unit or ingredient with the same names already exists.
    Conflict,
    /// Malformed pagination parameters.
    BadRequest,
    RecipeParsingError(RecipeParsingError),
}

/// How the database driver reported a failed statement, reduced to what the
/// core distinguishes.
#[derive(Debug, Clone, Copy, PartialEq, Eq, Structural)]
pub enum DbFailure {
    ForeignKeyViolation,
    UniqueViolation,
    Other,
}

impl From<RecipeParsingError> for AppError {
    fn from(err: RecipeParsingError) -> (r: AppError)
        ensures
            r == AppError::RecipeParsingError(err),
    {
        AppError::RecipeParsingError(err)
    }
}

impl vstd::std_specs::convert::FromSpecImpl<RecipeParsingError> for AppError {
    open spec fn obeys_from_spec() -> bool {
        true
    }

    open spec fn from_spec(err: RecipeParsingError) -> AppError {
        AppError::RecipeParsingError(err)
    }
}

/// The response status category of each error kind.
pub open spec fn status_of(e: AppError) -> u16 {
    match e {
        AppError::InternalServerError => 500,
        AppError::NotFound => 404,
        AppError::Conflict => 409,
        AppError::BadRequest => 400,
        AppError::RecipeParsingError(_) => 422,
    }
}

/// The error a failed bulk insert of ingredient lines stands for: a missing
/// referenced row is an unknown ingredient, a repeated (recipe, ingredient)
/// pair is a duplicate ingredient.
pub open spec fn ingredient_lines_error(f: DbFailure) -> AppError {
    match f {
        DbFailure::ForeignKeyViolation => AppError::RecipeParsingError(
            RecipeParsingError::InvalidIngredientId,
        ),
        DbFailure::UniqueViolation => AppError::RecipeParsingError(
            RecipeParsingError::DuplicateIngredientId,
        ),
        DbFailure::Other => AppError::InternalServerError,
    }
}

/// The error a failed unit or ingredient insert stands for.
pub open spec fn named_insert_error(f: DbFailure) -> AppError {
    match f {
        DbFailure::UniqueViolation => AppError::Conflict,
        _ => AppError::InternalServerError,
    }
}

/// The human-readable description of a recipe error.
pub open spec fn parsing_message(e: RecipeParsingError) -> Seq<char> {
    match e {
        RecipeParsingError::StepNumbersOutOfOrder => "Step numbers are out of order."@,
        RecipeParsingError::RecipeIdNotPositive => "Recipe ID must be positive."@,
        RecipeParsingError::InvalidUnitId => "Invalid unit ID."@,
        RecipeParsingError::InvalidIngredientId => "Invalid ingredient ID."@,
        RecipeParsingError::DuplicateIngredientId => "Duplicate ingredient ID."@,
    }
}

/// The human-readable description of an error.
pub open spec fn error_message(e: AppError) -> Seq<char> {
    match e {
        AppError::InternalServerError => "Something unexpected happened. Internal server error."@,
        AppError::NotFound => "Resource was not found."@,
        AppError::Conflict => "Conflicting resources."@,
        AppError::BadRequest => "The request was in incorrect format."@,
        AppError::RecipeParsingError(inner) => "There was an error parsing the recipe: "@
            + parsing_message(inner),
    }
}

impl RecipeParsingError {
    pub fn message(&self) -> (r: &'static str)
        ensures
            r@ == parsing_message(*self),
    {
        match self {
            RecipeParsingError::StepNumbersOutOfOrder => "Step numbers are out of order.",
            RecipeParsingError::RecipeIdNotPositive => "Recipe ID must be positive.",
            RecipeParsingError::InvalidUnitId => "Invalid unit ID.",
            RecipeParsingError::InvalidIngredientId => "Invalid ingredient ID.",
            RecipeParsingError::DuplicateIngredientId => "Duplicate ingredient ID.",
        }
    }
}

impl AppError {
    /// The numeric response status for this error.
    pub fn status_code(&self) -> (r: u16)
        ensures
            r == status_of(*self),
    {
        match self {
            AppError::InternalServerError => 500,
            AppError::NotFound => 404,
            AppError::Conflict => 409,
            AppError::BadRequest => 400,
            AppError::RecipeParsingError(_) => 422,
        }
    }

    pub fn message(&self) -> (r: String)
        ensures
            r@ == error_message(*self),
    {
        match self {
            AppError::InternalServerError => "Something unexpected happened. Internal server error.".to_owned(),
            AppError::NotFound => "Resource was not found.".to_owned(),
            AppError::Conflict => "Conflicting resources.".to_owned(),
            AppError::BadRequest => "The request was in incorrect format.".to_owned(),
            AppError::RecipeParsingError(inner) => {
                let prefix = "There was an error parsing the recipe: ".to_owned();
                prefix.concat(inner.message())
            },
        }
    }

    /// Any failure of a statement that has no domain meaning of its own.
    pub fn from_db_failure(f: DbFailure) -> (r: AppError)
        ensures
            r == AppError::InternalServerError,
    {
        AppError::InternalServerError
    }

    /// Classifies a failed bulk insert of ingredient lines.
    pub fn from_ingredient_lines_failure(f: DbFailure) -> (r: AppError)
        ensures
            r == ingredient_lines_error(f),
    {
        match f {
            DbFailure::ForeignKeyViolation => AppError::RecipeParsingError(
                RecipeParsingError::InvalidIngredientId,
            ),
            DbFailure::UniqueViolation => AppError::RecipeParsingError(
                RecipeParsingError::DuplicateIngredientId,
            ),
            DbFailure::Other => AppError::InternalServerError,
        }
    }

    /// Classifies a failed insert of a unit or an ingredient.
    pub fn from_named_insert_failure(f: DbFailure) -> (r: AppError)
        ensures
            r == named_insert_error(f),
    {
        match f {
            DbFailure::UniqueViolation => AppError::Conflict,
            _ => AppError::InternalServerError,
        }
    }
}

/// The outcome of an update or delete addressed by id: no affected row means
/// the id does not exist.
pub fn affected_rows_outcome(rows_affected: u64) -> (r: Result<(), AppError>)
    ensures
        rows_affected == 0 ==> r == Err::<(), AppError>(AppError::NotFound),
        rows_affected != 0 ==> r == Ok::<(), AppError>(()),
{
    if rows_affected == 0 {
        Err(AppError::NotFound)
    } else {
        Ok(())
    }
}

} // verus!
