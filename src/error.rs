//! Errors reported by parsing, conversion and the repository.
use vstd::prelude::*;

verus! {

/// What an `ExerciseError` says, with its text as a sequence of characters.
pub ghost enum ErrorModel {
    InvalidMuscleGroup(Seq<char>),
    NotFound(i32),
    StoreUnavailable,
}

/// The three ways an exercise operation can fail.
#[derive(Debug)]
pub enum ExerciseError {
    /// Input or stored text names none of the six muscle groups; holds that text.
    InvalidMuscleGroup(String),
    /// No exercise exists under the identifier.
    NotFound(i32),
    /// The store could not be reached; the operation may be retried.
    StoreUnavailable,
}

impl View for ExerciseError {
    type V = ErrorModel;

    open spec fn view(&self) -> ErrorModel {
        match self {
            ExerciseError::InvalidMuscleGroup(s) => ErrorModel::InvalidMuscleGroup(s@),
            ExerciseError::NotFound(id) => ErrorModel::NotFound(*id),
            ExerciseError::StoreUnavailable => ErrorModel::StoreUnavailable,
        }
    }
}

/// The text shown for an error.
pub open spec fn message_of(e: ErrorModel) -> Seq<char> {
    match e {
        ErrorModel::InvalidMuscleGroup(text) => "Unknown target muscle: "@ + text,
        ErrorModel::NotFound(_) => "Exercise not found"@,
        ErrorModel::StoreUnavailable => "Store unavailable"@,
    }
}

impl ExerciseError {
    /// A human-readable description; an invalid muscle group names its text.
    pub fn message(&self) -> (r: String)
        ensures
            r@ == message_of(self@),
    {
        match self {
            ExerciseError::InvalidMuscleGroup(text) => {
                let prefix = String::from_str("Unknown target muscle: ");
                prefix.concat(text.as_str())
            },
            ExerciseError::NotFound(_) => String::from_str("Exercise not found"),
            ExerciseError::StoreUnavailable => String::from_str("Store unavailable"),
        }
    }
}

} // verus!
