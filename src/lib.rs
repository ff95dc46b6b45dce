//! Exercise domain model for a fitness-tracking backend: muscle groups, the
//! validated `Exercise` entity, the conversion of raw store rows into it, and
//! the results the exercise repository returns for each store outcome.
pub mod error;
pub mod exercise;
pub mod laws;
pub mod muscle;
pub mod repository;

pub use error::{ErrorModel, ExerciseError};
pub use exercise::{Exercise, ExerciseDTO};
pub use muscle::TargetMuscle;
pub use repository::{FetchOutcome, NewExercise};
