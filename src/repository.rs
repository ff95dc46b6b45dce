//! What the exercise repository returns for each outcome of a store round
//! trip. The round trips themselves are made by the caller, which hands the
//! outcome in as a plain value.
use vstd::prelude::*;

use crate::error::{ErrorModel, ExerciseError};
use crate::exercise::{
    convert_view, exercise_result_view, Exercise, ExerciseDTO, ExerciseModel, RowModel,
};
use crate::muscle::TargetMuscle;

verus! {

/// The fields of an exercise to be inserted; the store assigns its id.
pub struct NewExercise<'a> {
    pub name: &'a str,
    pub target_group: TargetMuscle,
}

/// How a lookup of one exercise row went.
#[derive(Debug)]
pub enum FetchOutcome {
    /// The row, with its secondary groups aggregated.
    Found(ExerciseDTO),
    /// No row has the requested id.
    Missing,
    /// The store could not be reached.
    Unavailable,
}

/// The models of a sequence of rows.
pub open spec fn rows_view(rows: Seq<ExerciseDTO>) -> Seq<RowModel> {
    rows.map_values(|d: ExerciseDTO| d@)
}

/// The models of a sequence of exercises.
pub open spec fn exercises_view(xs: Seq<Exercise>) -> Seq<ExerciseModel> {
    xs.map_values(|x: Exercise| x@)
}

/// A listing result with both sides seen through their models.
pub open spec fn list_result_view(r: Result<Vec<Exercise>, ExerciseError>) -> Result<
    Seq<ExerciseModel>,
    ErrorModel,
> {
    match r {
        Ok(xs) => Ok(exercises_view(xs@)),
        Err(e) => Err(e@),
    }
}

/// The result of `get_exercise(id)` given how the lookup went.
pub open spec fn fetch_view(id: i32, outcome: FetchOutcome) -> Result<ExerciseModel, ErrorModel> {
    match outcome {
        FetchOutcome::Found(row) => convert_view(row@),
        FetchOutcome::Missing => Err(ErrorModel::NotFound(id)),
        FetchOutcome::Unavailable => Err(ErrorModel::StoreUnavailable),
    }
}

/// Converts every row in order; the first row that fails decides the error.
pub open spec fn convert_all_view(rows: Seq<RowModel>) -> Result<Seq<ExerciseModel>, ErrorModel>
    decreases rows.len(),
{
    if rows.len() == 0 {
        Ok(Seq::empty())
    } else {
        match convert_all_view(rows.drop_last()) {
            Err(e) => Err(e),
            Ok(xs) => match convert_view(rows.last()) {
                Ok(x) => Ok(xs.push(x)),
                Err(e) => Err(e),
            },
        }
    }
}

/// Once a prefix of the rows fails, every longer prefix fails the same way.
pub proof fn lemma_convert_all_error_sticks(rows: Seq<RowModel>, k: int, j: int)
    requires
        0 <= k <= j <= rows.len(),
        convert_all_view(rows.take(k)) is Err,
    ensures
        convert_all_view(rows.take(j)) == convert_all_view(rows.take(k)),
    decreases j - k,
{
    if j > k {
        lemma_convert_all_error_sticks(rows, k, j - 1);
        assert(rows.take(j).drop_last() =~= rows.take(j - 1));
    }
}

/// The result of `get_exercise(id)`: the converted row when one was found,
/// `NotFound(id)` when none was, `StoreUnavailable` when the store failed.
pub fn exercise_from_fetch(id: i32, outcome: FetchOutcome) -> (r: Result<Exercise, ExerciseError>)
    ensures
        exercise_result_view(r) == fetch_view(id, outcome),
{
    match outcome {
        FetchOutcome::Found(row) => Exercise::try_from(row),
        FetchOutcome::Missing => Err(ExerciseError::NotFound(id)),
        FetchOutcome::Unavailable => Err(ExerciseError::StoreUnavailable),
    }
}

/// The result of `add_exercise(new)` given the id the store assigned, or
/// `None` when the insert could not reach the store. A new exercise has no
/// secondary groups.
pub fn exercise_from_insert(new: &NewExercise, assigned_id: Option<i32>) -> (r: Result<
    Exercise,
    ExerciseError,
>)
    ensures
        assigned_id matches Some(id) ==> exercise_result_view(r) == Ok::<
            ExerciseModel,
            ErrorModel,
        >(
            ExerciseModel {
                id,
                target_group: new.target_group,
                additional_groups: Seq::empty(),
                name: new.name@,
            },
        ),
        assigned_id is None ==> exercise_result_view(r) == Err::<ExerciseModel, ErrorModel>(
            ErrorModel::StoreUnavailable,
        ),
{
    match assigned_id {
        Some(id) => Ok(
            Exercise {
                id,
                target_group: new.target_group,
                additional_groups: Vec::new(),
                name: String::from_str(new.name),
            },
        ),
        None => Err(ExerciseError::StoreUnavailable),
    }
}

/// The result of `list_exercises()` given the rows read, or `None` when the
/// store could not be reached. A single row that fails conversion fails the
/// whole listing with its error; no row is skipped.
pub fn exercises_from_rows(rows: Option<Vec<ExerciseDTO>>) -> (r: Result<
    Vec<Exercise>,
    ExerciseError,
>)
    ensures
        rows is None ==> list_result_view(r) == Err::<Seq<ExerciseModel>, ErrorModel>(
            ErrorModel::StoreUnavailable,
        ),
        rows matches Some(rs) ==> list_result_view(r) == convert_all_view(rows_view(rs@)),
{
    let all = match rows {
        Some(all) => all,
        None => return Err(ExerciseError::StoreUnavailable),
    };
    let ghost models = rows_view(all@);
    let n = all.len();
    let mut out: Vec<Exercise> = Vec::new();
    let mut rest = all;
    let mut i: usize = 0;
    assert(models.take(0) =~= Seq::<RowModel>::empty());
    assert(exercises_view(out@) =~= Seq::<ExerciseModel>::empty());
    while i < n
        invariant
            rows matches Some(rs) && models == rows_view(rs@),
            models.len() == n,
            rest@.len() == n - i,
            forall|j: int| 0 <= j < n - i ==> #[trigger] rest@[j]@ == models[i + j],
            0 <= i <= n,
            convert_all_view(models.take(i as int)) == Ok::<Seq<ExerciseModel>, ErrorModel>(
                exercises_view(out@),
            ),
        decreases n - i,
    {
        let ghost old_rest = rest@;
        let row = rest.remove(0);
        proof {
            assert(old_rest[0]@ == models[i as int]);
            assert forall|j: int| 0 <= j < n - (i + 1) implies #[trigger] rest@[j]@ == models[i
                + 1 + j] by {
                assert(rest@[j] == old_rest[j + 1]);
                assert(old_rest[j + 1]@ == models[i + (j + 1)]);
            }
            assert(models.take(i + 1).drop_last() =~= models.take(i as int));
            assert(models.take(i + 1).last() == models[i as int]);
        }
        match Exercise::try_from(row) {
            Ok(x) => {
                let ghost before = out@;
                out.push(x);
                assert(exercises_view(out@) =~= exercises_view(before).push(x@));
            },
            Err(e) => {
                proof {
                    lemma_convert_all_error_sticks(models, i + 1, n as int);
                    assert(models.take(n as int) =~= models);
                }
                return Err(e);
            },
        }
        i = i + 1;
    }
    assert(models.take(n as int) =~= models);
    Ok(out)
}

} // verus!
