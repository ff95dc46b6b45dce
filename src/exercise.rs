//! The validated `Exercise` entity and its conversion from a raw store row.
use vstd::prelude::*;

use crate::error::{ErrorModel, ExerciseError};
use crate::muscle::{parse_view, TargetMuscle};

verus! {

/// A validated exercise: its muscle groups have all been parsed.
#[derive(Debug, Clone)]
pub struct Exercise {
    pub id: i32,
    pub target_group: TargetMuscle,
    /// Further groups engaged besides `target_group`, in stored order; may be empty.
    pub additional_groups: Vec<TargetMuscle>,
    pub name: String,
}

/// A row as read from the store, before any validation.
#[derive(Debug, Clone)]
pub struct ExerciseDTO {
    pub id: i32,
    pub target_group: String,
    pub name: String,
    /// Aggregated secondary groups; empty, never absent, when there are none.
    pub additional_groups: Vec<String>,
}

/// What an `Exercise` holds.
pub ghost struct ExerciseModel {
    pub id: i32,
    pub target_group: TargetMuscle,
    pub additional_groups: Seq<TargetMuscle>,
    pub name: Seq<char>,
}

/// What an `ExerciseDTO` holds.
pub ghost struct RowModel {
    pub id: i32,
    pub target_group: Seq<char>,
    pub name: Seq<char>,
    pub additional_groups: Seq<Seq<char>>,
}

impl View for Exercise {
    type V = ExerciseModel;

    open spec fn view(&self) -> ExerciseModel {
        ExerciseModel {
            id: self.id,
            target_group: self.target_group,
            additional_groups: self.additional_groups@,
            name: self.name@,
        }
    }
}

impl View for ExerciseDTO {
    type V = RowModel;

    open spec fn view(&self) -> RowModel {
        RowModel {
            id: self.id,
            target_group: self.target_group@,
            name: self.name@,
            additional_groups: self.additional_groups@.map_values(|s: String| s@),
        }
    }
}

/// Parses each text in order; the first that fails decides the error.
pub open spec fn parse_all_view(texts: Seq<Seq<char>>) -> Result<Seq<TargetMuscle>, ErrorModel>
    decreases texts.len(),
{
    if texts.len() == 0 {
        Ok(Seq::empty())
    } else {
        match parse_all_view(texts.drop_last()) {
            Err(e) => Err(e),
            Ok(groups) => match parse_view(texts.last()) {
                Ok(g) => Ok(groups.push(g)),
                Err(e) => Err(e),
            },
        }
    }
}

/// The result of converting a row: the primary group is parsed first, then
/// the secondary groups in order.
pub open spec fn convert_view(row: RowModel) -> Result<ExerciseModel, ErrorModel> {
    match parse_view(row.target_group) {
        Err(e) => Err(e),
        Ok(g) => match parse_all_view(row.additional_groups) {
            Err(e) => Err(e),
            Ok(groups) => Ok(
                ExerciseModel {
                    id: row.id,
                    target_group: g,
                    additional_groups: groups,
                    name: row.name,
                },
            ),
        },
    }
}

/// A conversion result with both sides seen through their models.
pub open spec fn exercise_result_view(r: Result<Exercise, ExerciseError>) -> Result<
    ExerciseModel,
    ErrorModel,
> {
    match r {
        Ok(x) => Ok(x@),
        Err(e) => Err(e@),
    }
}

/// Once a prefix of the texts fails, every longer prefix fails the same way.
pub proof fn lemma_parse_all_error_sticks(texts: Seq<Seq<char>>, k: int, j: int)
    requires
        0 <= k <= j <= texts.len(),
        parse_all_view(texts.take(k)) is Err,
    ensures
        parse_all_view(texts.take(j)) == parse_all_view(texts.take(k)),
    decreases j - k,
{
    if j > k {
        lemma_parse_all_error_sticks(texts, k, j - 1);
        assert(texts.take(j).drop_last() =~= texts.take(j - 1));
    }
}

impl Exercise {
    /// Converts a store row into an exercise. Fails with the error of the
    /// primary group if it does not parse, else with that of the first
    /// secondary group in order that does not parse; an empty list of
    /// secondary groups is valid.
    pub fn try_from(dto: ExerciseDTO) -> (r: Result<Exercise, ExerciseError>)
        ensures
            exercise_result_view(r) == convert_view(dto@),
    {
        let ghost texts = dto@.additional_groups;
        let target_group = match TargetMuscle::try_from(dto.target_group.as_str()) {
            Ok(g) => g,
            Err(e) => return Err(e),
        };
        let n = dto.additional_groups.len();
        let mut groups: Vec<TargetMuscle> = Vec::new();
        let mut i: usize = 0;
        while i < n
            invariant
                n == dto.additional_groups@.len(),
                texts == dto@.additional_groups,
                texts.len() == n,
                parse_view(dto@.target_group) == Ok::<TargetMuscle, ErrorModel>(target_group),
                0 <= i <= n,
                parse_all_view(texts.take(i as int)) == Ok::<Seq<TargetMuscle>, ErrorModel>(
                    groups@,
                ),
            decreases n - i,
        {
            let parsed = TargetMuscle::try_from(dto.additional_groups[i].as_str());
            proof {
                assert(texts.take(i + 1).drop_last() =~= texts.take(i as int));
                assert(texts.take(i + 1).last() == texts[i as int]);
                assert(texts[i as int] == dto.additional_groups@[i as int]@);
            }
            match parsed {
                Ok(g) => {
                    groups.push(g);
                },
                Err(e) => {
                    proof {
                        lemma_parse_all_error_sticks(texts, i + 1, n as int);
                        assert(texts.take(n as int) =~= texts);
                    }
                    return Err(e);
                },
            }
            i = i + 1;
        }
        assert(texts.take(n as int) =~= texts);
        Ok(Exercise { id: dto.id, target_group, additional_groups: groups, name: dto.name })
    }
}

} // verus!
