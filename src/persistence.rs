use vstd::prelude::*;

use crate::error::{ingredient_lines_error, AppError, DbFailure};
use crate::recipe::{Backed, Recipe};
use crate::recipe_ingredient::CompactRecipeIngredient;
use crate::recipe_step::RecipeStep;

verus! {

/// The parallel columns of one multi-row insert of ingredient lines.
pub struct IngredientLineColumns {
    pub recipe_ids: Vec<i32>,
    pub ingredient_ids: Vec<i32>,
    pub unit_ids: Vec<i32>,
    pub quantities: Vec<String>,
}

/// The parallel columns of one multi-row insert of steps.
pub struct StepColumns {
    pub recipe_ids: Vec<i32>,
    pub step_numbers: Vec<i32>,
    pub instructions: Vec<String>,
}

/// One row per line, each tagged with `recipe_id`, in the order of `lines`.
pub fn ingredient_line_columns(lines: &[CompactRecipeIngredient], recipe_id: i32) -> (r:
    IngredientLineColumns)
    ensures
        r.recipe_ids@.len() == lines@.len(),
        r.ingredient_ids@.len() == lines@.len(),
        r.unit_ids@.len() == lines@.len(),
        r.quantities@.len() == lines@.len(),
        forall|i: int|
            0 <= i < lines@.len() ==> {
                &&& #[trigger] r.recipe_ids@[i] == recipe_id
                &&& r.ingredient_ids@[i] == lines@[i].ingredient_id
                &&& r.unit_ids@[i] == lines@[i].unit_id
                &&& r.quantities@[i]@ == lines@[i].quantity@
            },
{
    let mut recipe_ids: Vec<i32> = Vec::new();
    let mut ingredient_ids: Vec<i32> = Vec::new();
    let mut unit_ids: Vec<i32> = Vec::new();
    let mut quantities: Vec<String> = Vec::new();
    let mut i: usize = 0;
    while i < lines.len()
        invariant
            i <= lines@.len(),
            recipe_ids@.len() == i,
            ingredient_ids@.len() == i,
            unit_ids@.len() == i,
            quantities@.len() == i,
            forall|k: int|
                0 <= k < i ==> {
                    &&& #[trigger] recipe_ids@[k] == recipe_id
                    &&& ingredient_ids@[k] == lines@[k].ingredient_id
                    &&& unit_ids@[k] == lines@[k].unit_id
                    &&& quantities@[k]@ == lines@[k].quantity@
                },
        decreases lines@.len() - i,
    {
        let line = &lines[i];
        recipe_ids.push(recipe_id);
        ingredient_ids.push(line.ingredient_id);
        unit_ids.push(line.unit_id);
        quantities.push(line.quantity.clone());
        i = i + 1;
    }
    IngredientLineColumns { recipe_ids, ingredient_ids, unit_ids, quantities }
}

/// One row per step, each tagged with `recipe_id`, in the order of `steps`.
pub fn step_columns(steps: &[RecipeStep], recipe_id: i32) -> (r: StepColumns)
    ensures
        r.recipe_ids@.len() == steps@.len(),
        r.step_numbers@.len() == steps@.len(),
        r.instructions@.len() == steps@.len(),
        forall|i: int|
            0 <= i < steps@.len() ==> {
                &&& #[trigger] r.recipe_ids@[i] == recipe_id
                &&& r.step_numbers@[i] == steps@[i].step_number
                &&& r.instructions@[i]@ == steps@[i].instruction@
            },
{
    let mut recipe_ids: Vec<i32> = Vec::new();
    let mut step_numbers: Vec<i32> = Vec::new();
    let mut instructions: Vec<String> = Vec::new();
    let mut i: usize = 0;
    while i < steps.len()
        invariant
            i <= steps@.len(),
            recipe_ids@.len() == i,
            step_numbers@.len() == i,
            instructions@.len() == i,
            forall|k: int|
                0 <= k < i ==> {
                    &&& #[trigger] recipe_ids@[k] == recipe_id
                    &&& step_numbers@[k] == steps@[k].step_number
                    &&& instructions@[k]@ == steps@[k].instruction@
                },
        decreases steps@.len() - i,
    {
        let step = &steps[i];
        recipe_ids.push(recipe_id);
        step_numbers.push(step.step_number);
        instructions.push(step.instruction.clone());
        i = i + 1;
    }
    StepColumns { recipe_ids, step_numbers, instructions }
}

/// Which write a [`RecipeWrite`] performs.
#[derive(Debug, Clone, Copy, PartialEq, Eq, Structural)]
pub enum WriteKind {
    Create,
    Update(i32),
}

/// The statement the caller is to run next, inside one transaction.
#[derive(Debug, Clone, Copy, PartialEq, Eq)]
pub enum WriteAction {
    BeginTransaction,
    /// Insert the recipe's name and description, returning the generated id.
    InsertRecipeRow,
    /// Read the stored name and description of the recipe with this id.
    FetchRecipeRow(i32),
    /// Write the recipe's name and description to the row with this id.
    UpdateRecipeRow(i32),
    DeleteIngredientLines(i32),
    DeleteSteps(i32),
    /// Insert all ingredient lines, tagged with this recipe id.
    InsertIngredientLines(i32),
    /// Insert all steps, tagged with this recipe id.
    InsertSteps(i32),
    Commit,
    Rollback,
    /// The write is over, with this outcome.
    Finish(Result<(), AppError>),
}

/// What running the last statement gave.
pub enum WriteEvent {
    /// The statement succeeded and returns nothing of interest.
    Done,
    /// The recipe row was inserted with this id.
    Inserted(i32),
    /// The stored row of the recipe.
    StoredRow { name: String, description: String },
    /// The addressed row does not exist.
    Missing,
    Failed(DbFailure),
}

/// What the write waits for.
#[derive(Debug, Clone, Copy, PartialEq, Eq)]
pub enum WriteStage {
    AwaitBegin,
    AwaitRecipeRow,
    AwaitStoredRow(i32),
    AwaitRowUpdate(i32),
    AwaitLinesCleared(i32),
    AwaitStepsCleared(i32),
    AwaitLines(i32),
    AwaitSteps(i32),
    AwaitCommit,
    AwaitRollback(AppError),
    Finished(Result<(), AppError>),
}

/// The statements that persist a validated recipe, as a state machine: the
/// caller runs each action and reports the event it gave. Every failure after
/// the transaction began leads to a rollback, so no partial recipe is ever
/// committed.
pub struct RecipeWrite {
    recipe: Recipe<CompactRecipeIngredient, Backed>,
    kind: WriteKind,
    stage: WriteStage,
}

/// Abort the open transaction and finish with `e`.
pub open spec fn abort_with(e: AppError) -> (WriteStage, WriteAction) {
    (WriteStage::AwaitRollback(e), WriteAction::Rollback)
}

/// The next stage and action, from the stage and the event just reported.
/// `name` and `description` are the recipe's own.
pub open spec fn transition(
    kind: WriteKind,
    name: Seq<char>,
    description: Seq<char>,
    stage: WriteStage,
    event: WriteEvent,
) -> (WriteStage, WriteAction) {
    match stage {
        WriteStage::AwaitBegin => match event {
            WriteEvent::Done => match kind {
                WriteKind::Create => (WriteStage::AwaitRecipeRow, WriteAction::InsertRecipeRow),
                WriteKind::Update(id) => (
                    WriteStage::AwaitStoredRow(id),
                    WriteAction::FetchRecipeRow(id),
                ),
            },
            _ => (
                WriteStage::Finished(Err(AppError::InternalServerError)),
                WriteAction::Finish(Err(AppError::InternalServerError)),
            ),
        },
        WriteStage::AwaitRecipeRow => match event {
            WriteEvent::Inserted(id) => (
                WriteStage::AwaitLines(id),
                WriteAction::InsertIngredientLines(id),
            ),
            _ => abort_with(AppError::InternalServerError),
        },
        WriteStage::AwaitStoredRow(id) => match event {
            WriteEvent::StoredRow { name: stored_name, description: stored_description } => {
                if stored_name@ != name || stored_description@ != description {
                    (WriteStage::AwaitRowUpdate(id), WriteAction::UpdateRecipeRow(id))
                } else {
                    (WriteStage::AwaitLinesCleared(id), WriteAction::DeleteIngredientLines(id))
                }
            },
            WriteEvent::Missing => abort_with(AppError::NotFound),
            _ => abort_with(AppError::InternalServerError),
        },
        WriteStage::AwaitRowUpdate(id) => match event {
            WriteEvent::Done => (
                WriteStage::AwaitLinesCleared(id),
                WriteAction::DeleteIngredientLines(id),
            ),
            WriteEvent::Missing => abort_with(AppError::NotFound),
            _ => abort_with(AppError::InternalServerError),
        },
        WriteStage::AwaitLinesCleared(id) => match event {
            WriteEvent::Done => (WriteStage::AwaitStepsCleared(id), WriteAction::DeleteSteps(id)),
            _ => abort_with(AppError::InternalServerError),
        },
        WriteStage::AwaitStepsCleared(id) => match event {
            WriteEvent::Done => (
                WriteStage::AwaitLines(id),
                WriteAction::InsertIngredientLines(id),
            ),
            _ => abort_with(AppError::InternalServerError),
        },
        WriteStage::AwaitLines(id) => match event {
            WriteEvent::Done => (WriteStage::AwaitSteps(id), WriteAction::InsertSteps(id)),
            WriteEvent::Failed(f) => abort_with(ingredient_lines_error(f)),
            _ => abort_with(AppError::InternalServerError),
        },
        WriteStage::AwaitSteps(id) => match event {
            WriteEvent::Done => (WriteStage::AwaitCommit, WriteAction::Commit),
            _ => abort_with(AppError::InternalServerError),
        },
        WriteStage::AwaitCommit => match event {
            WriteEvent::Done => (WriteStage::Finished(Ok(())), WriteAction::Finish(Ok(()))),
            _ => (
                WriteStage::Finished(Err(AppError::InternalServerError)),
                WriteAction::Finish(Err(AppError::InternalServerError)),
            ),
        },
        WriteStage::AwaitRollback(e) => (WriteStage::Finished(Err(e)), WriteAction::Finish(Err(e))),
        WriteStage::Finished(r) => (WriteStage::Finished(r), WriteAction::Finish(r)),
    }
}

impl RecipeWrite {
    pub closed spec fn spec_kind(&self) -> WriteKind {
        self.kind
    }

    pub closed spec fn spec_stage(&self) -> WriteStage {
        self.stage
    }

    pub closed spec fn spec_recipe(&self) -> Recipe<CompactRecipeIngredient, Backed> {
        self.recipe
    }

    /// Starts creating `recipe`; the first action is to begin the transaction.
    pub fn create(recipe: Recipe<CompactRecipeIngredient, Backed>) -> (r: (Self, WriteAction))
        ensures
            r.0.spec_kind() == WriteKind::Create,
            r.0.spec_stage() == WriteStage::AwaitBegin,
            r.0.spec_recipe() == recipe,
            r.1 == WriteAction::BeginTransaction,
    {
        (RecipeWrite { recipe, kind: WriteKind::Create, stage: WriteStage::AwaitBegin }, WriteAction::BeginTransaction)
    }

    /// Starts replacing the recipe stored under `recipe_id` by `recipe`; the
    /// first action is to begin the transaction.
    pub fn update(recipe: Recipe<CompactRecipeIngredient, Backed>, recipe_id: i32) -> (r: (
        Self,
        WriteAction,
    ))
        ensures
            r.0.spec_kind() == WriteKind::Update(recipe_id),
            r.0.spec_stage() == WriteStage::AwaitBegin,
            r.0.spec_recipe() == recipe,
            r.1 == WriteAction::BeginTransaction,
    {
        (
            RecipeWrite { recipe, kind: WriteKind::Update(recipe_id), stage: WriteStage::AwaitBegin },
            WriteAction::BeginTransaction,
        )
    }

    /// The recipe being written, whose lines and steps the inserts take.
    pub fn recipe(&self) -> (r: &Recipe<CompactRecipeIngredient, Backed>)
        ensures
            *r == self.spec_recipe(),
    {
        &self.recipe
    }

    /// Takes the event the last action gave and returns the next action.
    pub fn advance(&mut self, event: WriteEvent) -> (r: WriteAction)
        ensures
            (final(self).spec_stage(), r) == transition(
                old(self).spec_kind(),
                old(self).spec_recipe().spec_name(),
                old(self).spec_recipe().spec_description(),
                old(self).spec_stage(),
                event,
            ),
            final(self).spec_kind() == old(self).spec_kind(),
            final(self).spec_recipe() == old(self).spec_recipe(),
    {
        let (stage, action) = match self.stage {
            WriteStage::AwaitBegin => match event {
                WriteEvent::Done => match self.kind {
                    WriteKind::Create => (WriteStage::AwaitRecipeRow, WriteAction::InsertRecipeRow),
                    WriteKind::Update(id) => (
                        WriteStage::AwaitStoredRow(id),
                        WriteAction::FetchRecipeRow(id),
                    ),
                },
                _ => (
                    WriteStage::Finished(Err(AppError::InternalServerError)),
                    WriteAction::Finish(Err(AppError::InternalServerError)),
                ),
            },
            WriteStage::AwaitRecipeRow => match event {
                WriteEvent::Inserted(id) => (
                    WriteStage::AwaitLines(id),
                    WriteAction::InsertIngredientLines(id),
                ),
                _ => Self::abort(AppError::InternalServerError),
            },
            WriteStage::AwaitStoredRow(id) => match event {
                WriteEvent::StoredRow { name, description } => {
                    if self.recipe.differs_from_stored(&name, &description) {
                        (WriteStage::AwaitRowUpdate(id), WriteAction::UpdateRecipeRow(id))
                    } else {
                        (WriteStage::AwaitLinesCleared(id), WriteAction::DeleteIngredientLines(id))
                    }
                },
                WriteEvent::Missing => Self::abort(AppError::NotFound),
                _ => Self::abort(AppError::InternalServerError),
            },
            WriteStage::AwaitRowUpdate(id) => match event {
                WriteEvent::Done => (
                    WriteStage::AwaitLinesCleared(id),
                    WriteAction::DeleteIngredientLines(id),
                ),
                WriteEvent::Missing => Self::abort(AppError::NotFound),
                _ => Self::abort(AppError::InternalServerError),
            },
            WriteStage::AwaitLinesCleared(id) => match event {
                WriteEvent::Done => (WriteStage::AwaitStepsCleared(id), WriteAction::DeleteSteps(id)),
                _ => Self::abort(AppError::InternalServerError),
            },
            WriteStage::AwaitStepsCleared(id) => match event {
                WriteEvent::Done => (
                    WriteStage::AwaitLines(id),
                    WriteAction::InsertIngredientLines(id),
                ),
                _ => Self::abort(AppError::InternalServerError),
            },
            WriteStage::AwaitLines(id) => match event {
                WriteEvent::Done => (WriteStage::AwaitSteps(id), WriteAction::InsertSteps(id)),
                WriteEvent::Failed(f) => Self::abort(AppError::from_ingredient_lines_failure(f)),
                _ => Self::abort(AppError::InternalServerError),
            },
            WriteStage::AwaitSteps(id) => match event {
                WriteEvent::Done => (WriteStage::AwaitCommit, WriteAction::Commit),
                _ => Self::abort(AppError::InternalServerError),
            },
            WriteStage::AwaitCommit => match event {
                WriteEvent::Done => (WriteStage::Finished(Ok(())), WriteAction::Finish(Ok(()))),
                _ => (
                    WriteStage::Finished(Err(AppError::InternalServerError)),
                    WriteAction::Finish(Err(AppError::InternalServerError)),
                ),
            },
            WriteStage::AwaitRollback(e) => (WriteStage::Finished(Err(e)), WriteAction::Finish(Err(e))),
            WriteStage::Finished(r) => (WriteStage::Finished(r), WriteAction::Finish(r)),
        };
        self.stage = stage;
        action
    }

    fn abort(e: AppError) -> (r: (WriteStage, WriteAction))
        ensures
            r == abort_with(e),
    {
        (WriteStage::AwaitRollback(e), WriteAction::Rollback)
    }
}

/// The actions produced when the events `events` are reported one after the
/// other, starting at `stage`.
pub open spec fn actions_of(
    kind: WriteKind,
    name: Seq<char>,
    description: Seq<char>,
    stage: WriteStage,
    events: Seq<WriteEvent>,
) -> Seq<WriteAction>
    decreases events.len(),
{
    if events.len() == 0 {
        Seq::empty()
    } else {
        let (next, action) = transition(kind, name, description, stage, events[0]);
        seq![action] + actions_of(kind, name, description, next, events.drop_first())
    }
}

proof fn lemma_finished_stays(
    kind: WriteKind,
    name: Seq<char>,
    description: Seq<char>,
    outcome: Result<(), AppError>,
    events: Seq<WriteEvent>,
)
    ensures
        actions_of(kind, name, description, WriteStage::Finished(outcome), events).len()
            == events.len(),
        forall|i: int|
            0 <= i < events.len() ==> #[trigger] actions_of(
                kind,
                name,
                description,
                WriteStage::Finished(outcome),
                events,
            )[i] == WriteAction::Finish(outcome),
    decreases events.len(),
{
    if events.len() > 0 {
        lemma_finished_stays(kind, name, description, outcome, events.drop_first());
        let rest = actions_of(
            kind,
            name,
            description,
            WriteStage::Finished(outcome),
            events.drop_first(),
        );
        let actions = actions_of(kind, name, description, WriteStage::Finished(outcome), events);
        assert(actions =~= seq![WriteAction::Finish(outcome)] + rest);
        assert forall|i: int| 0 <= i < events.len() implies #[trigger] actions[i]
            == WriteAction::Finish(outcome) by {
            if i > 0 {
                assert(actions[i] == rest[i - 1]);
            }
        }
    }
}

/// When the bulk insert of ingredient lines fails, the transaction is rolled
/// back at once, and whatever is reported afterwards no commit follows: every
/// later action finishes the write with the error that the failure stands for.
pub proof fn lemma_failed_lines_never_commit(
    recipe: Recipe<CompactRecipeIngredient, Backed>,
    kind: WriteKind,
    recipe_id: i32,
    failure: DbFailure,
    later: Seq<WriteEvent>,
)
    ensures
        ({
            let name = recipe.spec_name();
            let description = recipe.spec_description();
            let actions = actions_of(
                kind,
                name,
                description,
                WriteStage::AwaitLines(recipe_id),
                seq![WriteEvent::Failed(failure)] + later,
            );
            &&& actions[0] == WriteAction::Rollback
            &&& !actions.contains(WriteAction::Commit)
            &&& forall|i: int|
                1 <= i < actions.len() ==> #[trigger] actions[i] == WriteAction::Finish(
                    Err(ingredient_lines_error(failure)),
                )
        }),
{
    let name = recipe.spec_name();
    let description = recipe.spec_description();
    let events = seq![WriteEvent::Failed(failure)] + later;
    let e = ingredient_lines_error(failure);
    assert(events.drop_first() =~= later);
    let actions = actions_of(kind, name, description, WriteStage::AwaitLines(recipe_id), events);
    if later.len() == 0 {
        let rest = actions_of(kind, name, description, WriteStage::AwaitRollback(e), later);
        assert(rest =~= Seq::<WriteAction>::empty());
        assert(actions =~= seq![WriteAction::Rollback] + rest);
    } else {
        let finished = WriteStage::Finished(Err(e));
        lemma_finished_stays(kind, name, description, Err(e), later.drop_first());
        let tail = actions_of(kind, name, description, finished, later.drop_first());
        let rest = actions_of(kind, name, description, WriteStage::AwaitRollback(e), later);
        assert(rest =~= seq![WriteAction::Finish(Err(e))] + tail);
        assert(actions =~= seq![WriteAction::Rollback] + rest);
        assert forall|i: int| 1 <= i < actions.len() implies #[trigger] actions[i]
            == WriteAction::Finish(Err(e)) by {
            if i > 1 {
                assert(actions[i] == tail[i - 2]);
            }
        }
    }
    if actions.contains(WriteAction::Commit) {
        let i = choose|i: int| 0 <= i < actions.len() && actions[i] == WriteAction::Commit;
        assert(actions[i] == WriteAction::Commit);
    }
}

/// Two lines with the same ingredient id pass validation when their ids are
/// known, and are then refused by the store: the unique violation of the
/// ingredient-line insert rolls the write back and finishes it with
/// `DuplicateIngredientId`.
pub proof fn lemma_duplicate_ingredient_rejected_at_persistence(
    lines: Seq<CompactRecipeIngredient>,
    units: Set<i32>,
    ingredients: Set<i32>,
    i: int,
    j: int,
    kind: WriteKind,
    name: Seq<char>,
    description: Seq<char>,
    recipe_id: i32,
    later: WriteEvent,
)
    requires
        0 <= i < j < lines.len(),
        lines[i].ingredient_id == lines[j].ingredient_id,
        crate::recipe::all_references_known(lines, units, ingredients),
    ensures
        crate::recipe::reference_error(lines, units, ingredients) is None,
        transition(
            kind,
            name,
            description,
            WriteStage::AwaitLines(recipe_id),
            WriteEvent::Failed(DbFailure::UniqueViolation),
        ) == (
            WriteStage::AwaitRollback(
                AppError::RecipeParsingError(crate::error::RecipeParsingError::DuplicateIngredientId),
            ),
            WriteAction::Rollback,
        ),
        transition(
            kind,
            name,
            description,
            WriteStage::AwaitRollback(
                AppError::RecipeParsingError(crate::error::RecipeParsingError::DuplicateIngredientId),
            ),
            later,
        ).1 == WriteAction::Finish(
            Err(AppError::RecipeParsingError(crate::error::RecipeParsingError::DuplicateIngredientId)),
        ),
{
    crate::recipe::lemma_known_references_pass(lines, units, ingredients);
}

} // verus!
