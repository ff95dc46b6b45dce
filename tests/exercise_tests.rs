use fitness_backend::repository::{exercise_from_fetch, exercise_from_insert, exercises_from_rows};
use fitness_backend::{Exercise, ExerciseDTO, ExerciseError, FetchOutcome, NewExercise, TargetMuscle};

fn create_exercise_dto(
    target_group: &str,
    additional_groups: Option<&str>,
    name: &str,
) -> ExerciseDTO {
    ExerciseDTO {
        id: 1,
        target_group: target_group.into(),
        name: name.into(),
        additional_groups: additional_groups
            .map(|s| s.split(',').map(String::from).collect())
            .unwrap_or_default(),
    }
}

fn row(id: i32, name: &str, primary: &str, secondary: &[&str]) -> ExerciseDTO {
    ExerciseDTO {
        id,
        target_group: primary.to_string(),
        name: name.to_string(),
        additional_groups: secondary.iter().map(|s| s.to_string()).collect(),
    }
}

#[test]
fn test_try_from_exercise_dto_success() -> Result<(), ExerciseError> {
    let dto = create_exercise_dto("Chest", Some("Back,Arms"), "Push Up");
    let exercise = Exercise::try_from(dto)?;

    assert_eq!(exercise.id, 1);
    assert_eq!(exercise.name, "Push Up");
    assert_eq!(exercise.target_group, TargetMuscle::Chest);

    let additional_groups = exercise.additional_groups;
    assert_eq!(additional_groups.len(), 2);
    assert!(additional_groups.contains(&TargetMuscle::Back));
    assert!(additional_groups.contains(&TargetMuscle::Arms));

    Ok(())
}

#[test]
fn test_try_from_exercise_dto_invalid_target_group() {
    let dto = create_exercise_dto("InvalidMuscle", None, "Invalid Exercise");
    let result = Exercise::try_from(dto);

    assert!(result.is_err());
    match result {
        Err(ExerciseError::InvalidMuscleGroup(t)) => assert_eq!(t, "InvalidMuscle"),
        other => panic!("unexpected result: {:?}", other),
    }
}

#[test]
fn push_up_row_converts() {
    let x = Exercise::try_from(row(1, "Push Up", "chest", &["back", "arms"])).unwrap();
    assert_eq!(x.id, 1);
    assert_eq!(x.name, "Push Up");
    assert_eq!(x.target_group, TargetMuscle::Chest);
    assert_eq!(x.additional_groups, vec![TargetMuscle::Back, TargetMuscle::Arms]);
}

#[test]
fn mystery_move_row_fails() {
    match Exercise::try_from(row(2, "Mystery Move", "elbow", &[])) {
        Err(ExerciseError::InvalidMuscleGroup(t)) => assert_eq!(t, "elbow"),
        other => panic!("unexpected result: {:?}", other),
    }
}

#[test]
fn empty_secondary_groups_are_valid() {
    let x = Exercise::try_from(row(3, "Plank", "core", &[])).unwrap();
    assert_eq!(x.target_group, TargetMuscle::Core);
    assert!(x.additional_groups.is_empty());
}

#[test]
fn empty_name_is_accepted() {
    let x = Exercise::try_from(row(4, "", "legs", &["core"])).unwrap();
    assert_eq!(x.name, "");
    assert_eq!(x.additional_groups, vec![TargetMuscle::Core]);
}

#[test]
fn first_invalid_secondary_group_is_reported() {
    let r = Exercise::try_from(row(5, "Row", "back", &["arms", "neck", "tail", "core"]));
    match r {
        Err(ExerciseError::InvalidMuscleGroup(t)) => assert_eq!(t, "neck"),
        other => panic!("unexpected result: {:?}", other),
    }
}

#[test]
fn invalid_primary_wins_over_invalid_secondary() {
    match Exercise::try_from(row(6, "Odd", "wing", &["fin"])) {
        Err(ExerciseError::InvalidMuscleGroup(t)) => assert_eq!(t, "wing"),
        other => panic!("unexpected result: {:?}", other),
    }
}

#[test]
fn secondary_groups_keep_order_and_ignore_case() {
    let x = Exercise::try_from(row(7, "Burpee", "LEGS", &["Core", "chest", "ARMS"])).unwrap();
    assert_eq!(x.target_group, TargetMuscle::Legs);
    assert_eq!(
        x.additional_groups,
        vec![TargetMuscle::Core, TargetMuscle::Chest, TargetMuscle::Arms]
    );
}

#[test]
fn missing_row_is_not_found() {
    match exercise_from_fetch(42, FetchOutcome::Missing) {
        Err(ExerciseError::NotFound(id)) => assert_eq!(id, 42),
        other => panic!("unexpected result: {:?}", other),
    }
}

#[test]
fn unreachable_store_on_fetch() {
    assert!(matches!(
        exercise_from_fetch(1, FetchOutcome::Unavailable),
        Err(ExerciseError::StoreUnavailable)
    ));
}

#[test]
fn found_row_is_converted() {
    let x = exercise_from_fetch(1, FetchOutcome::Found(row(1, "Squat", "legs", &["core"]))).unwrap();
    assert_eq!(x.name, "Squat");
    assert_eq!(x.target_group, TargetMuscle::Legs);
    assert_eq!(x.additional_groups, vec![TargetMuscle::Core]);
    assert!(matches!(
        exercise_from_fetch(1, FetchOutcome::Found(row(1, "Squat", "knee", &[]))),
        Err(ExerciseError::InvalidMuscleGroup(_))
    ));
}

#[test]
fn inserted_exercise_has_assigned_id_and_no_secondary_groups() {
    let new = NewExercise { name: "Push-up", target_group: TargetMuscle::Chest };
    let x = exercise_from_insert(&new, Some(17)).unwrap();
    assert_eq!(x.id, 17);
    assert_eq!(x.name, "Push-up");
    assert_eq!(x.target_group, TargetMuscle::Chest);
    assert!(x.additional_groups.is_empty());
    assert!(matches!(
        exercise_from_insert(&new, None),
        Err(ExerciseError::StoreUnavailable)
    ));
}

#[test]
fn listing_converts_all_rows_or_fails_on_first_bad_one() {
    let xs = exercises_from_rows(Some(vec![
        row(1, "Push Up", "chest", &[]),
        row(2, "Squat", "legs", &[]),
    ]))
    .unwrap();
    assert_eq!(xs.len(), 2);
    assert_eq!(xs[0].id, 1);
    assert_eq!(xs[1].target_group, TargetMuscle::Legs);

    let bad = exercises_from_rows(Some(vec![
        row(1, "Push Up", "chest", &[]),
        row(2, "Mystery", "elbow", &[]),
        row(3, "Other", "nose", &[]),
    ]));
    match bad {
        Err(ExerciseError::InvalidMuscleGroup(t)) => assert_eq!(t, "elbow"),
        other => panic!("unexpected result: {:?}", other),
    }

    assert!(exercises_from_rows(Some(vec![])).unwrap().is_empty());
    assert!(matches!(exercises_from_rows(None), Err(ExerciseError::StoreUnavailable)));
}
