use pathcheck::filesystem::path_is_absolute;
use pathcheck::filesystem::Validation;
use pathcheck::filesystem::ValidationError;

fn classifying_path(state: &Validation) -> &str {
    match state {
        Validation::Classifying { path } => path,
        other => panic!("expected Classifying, got {:?}", other),
    }
}

fn done_outcome(state: Validation) -> Result<String, ValidationError> {
    match state {
        Validation::Done { outcome } => outcome,
        other => panic!("expected Done, got {:?}", other),
    }
}

#[test]
fn absolute_paths_are_recognized() {
    assert!(path_is_absolute("/home/u/out.txt"));
    assert!(path_is_absolute("/"));
    assert!(!path_is_absolute("reports/out.txt"));
    assert!(!path_is_absolute("./out.txt"));
    assert!(!path_is_absolute("../out.txt"));
    assert!(!path_is_absolute(""));
}

#[test]
fn absolute_input_skips_resolution() {
    let state = Validation::start("/home/u/out.txt".to_string());
    assert_eq!(classifying_path(&state), "/home/u/out.txt");
}

#[test]
fn absolute_input_with_dot_segments_is_not_normalized() {
    // An already-absolute input skips canonicalization, so its `..`
    // segments are kept as they are.
    let state = Validation::start("/home/u/../v/out.txt".to_string());
    assert_eq!(classifying_path(&state), "/home/u/../v/out.txt");
}

#[test]
fn empty_input_counts_as_relative() {
    let state = Validation::start(String::new());
    assert!(matches!(state, Validation::Resolving { .. }));
}

#[test]
fn relative_input_is_sent_to_resolution() {
    let state = Validation::start("reports/out.txt".to_string());
    match state {
        Validation::Resolving { original } => assert_eq!(original, "reports/out.txt"),
        other => panic!("expected Resolving, got {:?}", other),
    }
}

#[test]
fn successful_resolution_replaces_the_input() {
    let state = Validation::start("reports/out.txt".to_string());
    let state = state.resolved(Ok("/home/u/reports/out.txt".to_string()));
    assert_eq!(classifying_path(&state), "/home/u/reports/out.txt");
}

#[test]
fn failed_resolution_is_an_env_error() {
    let state = Validation::start("reports/out.txt".to_string());
    let state = state.resolved(Err("No such file or directory (os error 2)".to_string()));
    match done_outcome(state) {
        Err(ValidationError::EnvError(msg)) => {
            assert_eq!(msg, "No such file or directory (os error 2)");
        }
        other => panic!("expected EnvError, got {:?}", other),
    }
}

#[test]
fn existing_regular_file_is_accepted_unchanged() {
    let state = Validation::start("/home/u/out.txt".to_string());
    let state = state.classified(true, true, true);
    assert_eq!(done_outcome(state).unwrap(), "/home/u/out.txt");
}

#[test]
fn existing_directory_is_rejected() {
    let state = Validation::start("/home/u".to_string());
    let state = state.classified(true, false, true);
    match done_outcome(state) {
        Err(ValidationError::TargetIsADir) => {}
        other => panic!("expected TargetIsADir, got {:?}", other),
    }
}

#[test]
fn missing_target_with_existing_parent_is_accepted() {
    let state = Validation::start("/home/u/new.txt".to_string());
    let state = state.classified(false, false, true);
    assert_eq!(done_outcome(state).unwrap(), "/home/u/new.txt");
}

#[test]
fn missing_parent_leads_to_a_prompt() {
    let state = Validation::start("/home/u/reports/out.txt".to_string());
    let state = state.classified(false, false, false);
    assert!(matches!(state, Validation::Prompting { .. }));
}

#[test]
fn declining_creation_aborts() {
    let state = Validation::start("/home/u/reports/out.txt".to_string());
    let state = state.classified(false, false, false);
    let state = state.answered("n\n");
    match done_outcome(state) {
        Err(ValidationError::UserAbort) => {}
        other => panic!("expected UserAbort, got {:?}", other),
    }
}

#[test]
fn unrecognized_answers_keep_prompting() {
    let mut state = Validation::start("/home/u/reports/out.txt".to_string());
    state = state.classified(false, false, false);
    for line in ["", "Y", "maybe\n", "  "] {
        state = state.answered(line);
        assert!(matches!(state, Validation::Prompting { .. }));
    }
    state = state.answered(" yes \n");
    assert!(matches!(state, Validation::Creating { .. }));
}

#[test]
fn confirmed_creation_accepts_the_target() {
    let state = Validation::start("/home/u/reports/out.txt".to_string());
    let state = state.classified(false, false, false);
    let state = state.answered("y");
    let state = state.created(Ok(()));
    assert_eq!(done_outcome(state).unwrap(), "/home/u/reports/out.txt");
}

#[test]
fn failed_creation_is_a_build_dir_error() {
    let state = Validation::start("/home/u/reports/out.txt".to_string());
    let state = state.classified(false, false, false);
    let state = state.answered("yes");
    let state = state.created(Err("Permission denied (os error 13)".to_string()));
    match done_outcome(state) {
        Err(ValidationError::BuildDirErr(msg)) => {
            assert_eq!(msg, "Permission denied (os error 13)");
        }
        other => panic!("expected BuildDirErr, got {:?}", other),
    }
}

#[test]
fn revalidation_of_materialized_file_succeeds() {
    // First run: the target is missing but its parent exists.
    let first = Validation::start("/home/u/out.txt".to_string());
    let accepted = done_outcome(first.classified(false, false, true)).unwrap();
    // The caller creates the file at the accepted path; a second run on
    // that path takes the existing-regular-file branch.
    let second = Validation::start(accepted.clone());
    assert_eq!(done_outcome(second.classified(true, true, true)).unwrap(), accepted);
}

#[test]
fn relative_target_with_confirmed_creation() {
    // Input "reports/out.txt" under working directory /home/u, with no
    // "reports" directory present: the prompt is shown, "yes" creates the
    // parent chain, and the resolved path is returned.
    let state = Validation::start("reports/out.txt".to_string());
    let state = state.resolved(Ok("/home/u/reports/out.txt".to_string()));
    let state = state.classified(false, false, false);
    let question = pathcheck::prompt::creation_question();
    assert_eq!(
        pathcheck::prompt::render_prompt(&question),
        "The path to the target directory does not exist. Create it? (y/n) "
    );
    let state = state.answered("yes\n");
    let state = state.created(Ok(()));
    assert_eq!(done_outcome(state).unwrap(), "/home/u/reports/out.txt");
}

#[test]
fn error_descriptions() {
    assert_eq!(ValidationError::UserAbort.description(), "Abort by user.");
    assert_eq!(
        ValidationError::TargetIsADir.description(),
        "The selected target is a directory, not a file."
    );
    assert_eq!(
        ValidationError::EnvError("boom".to_string()).description(),
        "boom"
    );
    assert_eq!(
        ValidationError::BuildDirErr("disk full".to_string()).description(),
        "disk full"
    );
}

#[test]
fn error_messages_carry_the_prefix() {
    assert_eq!(
        ValidationError::UserAbort.message(),
        "[ERROR] Abort by user."
    );
    assert_eq!(
        ValidationError::TargetIsADir.message(),
        "[ERROR] The selected target is a directory, not a file."
    );
    assert_eq!(
        ValidationError::EnvError("boom".to_string()).message(),
        "[ERROR] boom"
    );
    assert_eq!(
        ValidationError::BuildDirErr("disk full".to_string()).message(),
        "[ERROR] disk full"
    );
}
