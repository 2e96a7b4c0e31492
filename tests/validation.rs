use cube_solver::validation::{
    decimal_string, check_lightweight, interpret_solver_reply, split_tokens, CubeSolverResource, CubeState,
    CubeValidation, Min2PhaseError, SolveFailure, ValidationError,
};

const SOLVED: &str = "UUUUUUUUURRRRRRRRRFFFFFFFFFDDDDDDDDDLLLLLLLLLBBBBBBBBB";

fn with(s: &str, edits: &[(usize, char)]) -> String {
    let mut v: Vec<char> = s.chars().collect();
    for &(i, c) in edits {
        v[i] = c;
    }
    v.into_iter().collect()
}

#[test]
fn count_mismatch_fails_lightweight_validation() {
    // One D facelet (not a centre) turned into U: ten U, eight D.
    let s = with(SOLVED, &[(27, 'U')]);
    assert_eq!(s.chars().filter(|&c| c == 'U').count(), 10);
    assert_eq!(s.chars().filter(|&c| c == 'D').count(), 8);
    assert_eq!(check_lightweight(&s), Err(ValidationError::Count { label: 'U', count: 10 }));
    let state = CubeState::from_facelets(s);
    assert!(matches!(state.validation(), CubeValidation::Invalid(ValidationError::Count { label: 'U', count: 10 })));
    assert_eq!(state.solution(), None);
}

#[test]
fn lightweight_failures_in_order() {
    assert_eq!(check_lightweight("UUU"), Err(ValidationError::Length { len: 3 }));
    assert_eq!(
        check_lightweight(&with(SOLVED, &[(0, ' '), (1, ' ')])),
        Err(ValidationError::Incomplete { blanks: 2 })
    );
    assert_eq!(
        check_lightweight(&with(SOLVED, &[(7, 'X')])),
        Err(ValidationError::Character { index: 7, found: 'X' })
    );
    // Centres swapped: counts are right, centres are not.
    assert_eq!(
        check_lightweight(&with(SOLVED, &[(4, 'R'), (13, 'U')])),
        Err(ValidationError::Center { index: 4, expected: 'U', found: 'R' })
    );
    assert_eq!(check_lightweight(SOLVED), Ok(()));
}

#[test]
fn error_code_mapping() {
    assert_eq!(Min2PhaseError::from_error_code("Error 6"), Some(Min2PhaseError::ParityError));
    assert!(!Min2PhaseError::ParityError.suggestions().is_empty());
    assert!(!Min2PhaseError::ParityError.description().is_empty());
    assert!(!Min2PhaseError::ParityError.detailed_explanation().is_empty());
    assert_eq!(Min2PhaseError::from_error_code("Error 1"), Some(Min2PhaseError::IncorrectColorCount));
    assert_eq!(Min2PhaseError::from_error_code("Error 8"), Some(Min2PhaseError::ProbeLimitExceeded));
    assert_eq!(Min2PhaseError::from_error_code("Error 9"), None);
    assert_eq!(Min2PhaseError::from_error_code("Error 66"), None);
    assert_eq!(Min2PhaseError::from_verify_code(-3), Some(Min2PhaseError::EdgeFlipError));
    assert_eq!(Min2PhaseError::from_verify_code(0), None);
}

#[test]
fn solver_reply_interpretation() {
    let (v, sol) = interpret_solver_reply("Error 6".to_string());
    assert!(matches!(v, CubeValidation::SolvingFailed(SolveFailure { error: Some(Min2PhaseError::ParityError), .. })));
    assert_eq!(sol, None);
    let (v, sol) = interpret_solver_reply("Error 42".to_string());
    assert!(matches!(v, CubeValidation::SolvingFailed(SolveFailure { error: None, ref reply }) if reply == "Error 42"));
    assert_eq!(sol, None);
    let (v, sol) = interpret_solver_reply("F R U".to_string());
    assert!(v.is_valid());
    assert_eq!(sol.as_deref(), Some("F R U"));
    assert_eq!(split_tokens("F R U"), vec!["F", "R", "U"]);
    assert_eq!(split_tokens("  R2  U' \n"), vec!["R2", "U'"]);
    assert_eq!(split_tokens(""), Vec::<String>::new());
}

#[test]
fn full_validation_runs_the_solver() {
    // The state after one R turn.
    let scrambled = min2phase::from_moves(&"R".to_string()).unwrap();
    let state = CubeState::from_facelets(scrambled.clone());
    assert!(state.validation().is_valid());
    let moves = state.solution_moves();
    assert_eq!(moves.len(), 1);
    assert!(moves[0].starts_with('R'));
    assert_eq!(state.facelets(), scrambled);
}

#[test]
fn full_validation_reports_solver_errors() {
    // One edge flipped (UF edge: facelets 7 and 19): counts and centres are fine.
    let flipped = with(SOLVED, &[(7, 'F'), (19, 'U')]);
    assert_eq!(check_lightweight(&flipped), Ok(()));
    let state = CubeState::from_facelets(flipped);
    assert!(matches!(state.validation(), CubeValidation::SolvingFailed(SolveFailure { error: Some(Min2PhaseError::EdgeFlipError), .. })));
    assert!(state.solution_moves().is_empty());
}

#[test]
fn resource_lifecycle() {
    let mut r = CubeSolverResource::new();
    assert!(!r.is_valid());
    assert!(!r.perform_full_solve());
    r.update_from_entities("UUU".to_string());
    assert_eq!(r.facelets(), None);
    let scrambled = min2phase::from_moves(&"U2".to_string()).unwrap();
    r.update_from_entities(scrambled.clone());
    assert_eq!(r.facelets(), Some(scrambled.as_str()));
    // A derived state is only checked lightly: valid, but not yet solved.
    assert!(r.is_valid());
    assert!(!r.is_solvable());
    r.perform_lightweight_validation();
    assert!(r.is_valid());
    assert!(!r.is_solvable());
    assert!(r.perform_full_solve());
    assert!(r.is_solving());
    assert_eq!(r.solve_moves().len(), 1);
    r.clear_solution();
    assert!(!r.is_solving());
    assert!(r.solve_moves().is_empty());
}

#[test]
fn new_state_is_not_validated() {
    let s = CubeState::new();
    assert!(matches!(s.validation(), CubeValidation::NotValidated));
    assert_eq!(s.facelets(), "");
    assert!(s.solution_moves().is_empty());
}

#[test]
fn validation_messages() {
    assert_eq!(ValidationError::Length { len: 3 }.message(), "Invalid facelet length: 3 (expected 54)");
    assert_eq!(ValidationError::Incomplete { blanks: 12 }.message(), "Incomplete cube: 12 faces are not colored");
    assert_eq!(
        ValidationError::Character { index: 7, found: 'X' }.message(),
        "Invalid character 'X' at position 7"
    );
    assert_eq!(
        ValidationError::Count { label: 'U', count: 10 }.message(),
        "Invalid color count: U appears 10 times (expected 9)"
    );
    assert_eq!(
        ValidationError::Center { index: 13, expected: 'R', found: 'U' }.message(),
        "Center piece at position 13 should be R, but is U"
    );
    assert_eq!(decimal_string(0), "0");
    assert_eq!(decimal_string(1234), "1234");
}

#[test]
fn solver_failure_messages() {
    let (v, _) = interpret_solver_reply("Error 6".to_string());
    let m = v.error_message().unwrap();
    assert!(m.starts_with("Invalid cube: two corners or two edges have to be exchanged (Error: Error 6)"));
    assert!(m.ends_with(Min2PhaseError::ParityError.suggestions()));
    let (v, _) = interpret_solver_reply("Error 0".to_string());
    assert_eq!(v.error_message().unwrap(), "Unknown min2phase error: Error 0");
    let (v, _) = interpret_solver_reply("R U".to_string());
    assert_eq!(v.error_message(), None);
}

#[test]
fn status_messages() {
    let mut r = CubeSolverResource::new();
    assert_eq!(r.get_validation_message(), "No cube state available");
    let scrambled = min2phase::from_moves(&"F".to_string()).unwrap();
    r.update_from_entities(scrambled);
    assert_eq!(r.get_validation_message(), "Valid cube (press Solve to find solution)");
    assert!(r.perform_full_solve());
    assert_eq!(r.get_validation_message(), "Valid cube, solvable in 1 moves");
    r.perform_lightweight_validation();
    assert_eq!(r.get_validation_message(), "Valid cube (press Solve to find solution)");
    r.update_from_entities(with(SOLVED, &[(27, 'U')]));
    assert_eq!(
        r.get_validation_message(),
        "Invalid: Invalid color count: U appears 10 times (expected 9)"
    );
    r.update_from_entities(with(SOLVED, &[(7, 'F'), (19, 'U')]));
    assert_eq!(r.get_validation_message(), "Valid cube (press Solve to find solution)");
    assert!(!r.perform_full_solve());
    assert!(r.get_validation_message().starts_with("Solving failed: Invalid cube: one edge has to be flipped"));
}

#[test]
fn error_reply_with_trailing_text_is_mapped() {
    assert_eq!(Min2PhaseError::from_error_code("Error 6\n"), Some(Min2PhaseError::ParityError));
    assert_eq!(Min2PhaseError::from_error_code("Error 3 (flip)"), Some(Min2PhaseError::EdgeFlipError));
    assert_eq!(Min2PhaseError::from_error_code("Error 12"), None);
    assert_eq!(Min2PhaseError::from_error_code("Error"), None);
    let (v, sol) = interpret_solver_reply("Error 6\n".to_string());
    assert!(matches!(v, CubeValidation::SolvingFailed(SolveFailure { error: Some(Min2PhaseError::ParityError), .. })));
    assert_eq!(sol, None);
}

#[test]
fn derived_state_is_checked_lightly_only() {
    let mut r = CubeSolverResource::new();
    r.update_from_entities(min2phase::from_moves(&"L".to_string()).unwrap());
    assert!(r.is_valid());
    assert!(r.solve_moves().is_empty());
    assert!(!r.is_solving());
}
