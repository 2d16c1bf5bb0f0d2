use meta_task::errors::{
    decimal_string, exit_code, CommandOutcome, Source, TaskError, ValidationError,
};
use meta_task::probe::{in_tmux_session, SessionVarReading};

#[test]
fn probe_missing_variable_means_outside() {
    assert_eq!(in_tmux_session(&SessionVarReading::Missing), Ok(false));
}

#[test]
fn probe_empty_value_means_outside() {
    assert_eq!(
        in_tmux_session(&SessionVarReading::Text(String::new())),
        Ok(false)
    );
}

#[test]
fn probe_nonempty_value_means_inside() {
    assert_eq!(
        in_tmux_session(&SessionVarReading::Text("/tmp/tmux-1000/default,42,0".to_string())),
        Ok(true)
    );
}

#[test]
fn probe_malformed_value_is_fatal() {
    let err = in_tmux_session(&SessionVarReading::Malformed)
        .expect_err("a malformed value must abort");
    assert_eq!(
        err.render(),
        "Bailing, TMUX env var contains non-Unicode characters"
    );
}

#[test]
fn decimal_rendering() {
    assert_eq!(decimal_string(0), "0");
    assert_eq!(decimal_string(7), "7");
    assert_eq!(decimal_string(10), "10");
    assert_eq!(decimal_string(128), "128");
    assert_eq!(decimal_string(65535), "65535");
}

#[test]
fn tool_failure_takes_the_exit_code_when_it_has_one() {
    let e = TaskError::tool_failure(Source::VersionControl, Some(128), "boom".to_string());
    assert_eq!(e.status, 128);
    let e = TaskError::tool_failure(Source::Multiplexer, None, "killed".to_string());
    assert_eq!(e.status, 1);
    let e = TaskError::tool_failure(Source::Multiplexer, Some(-9), "odd".to_string());
    assert_eq!(e.status, 1);
}

#[test]
fn invocation_failure_uses_the_sentinel_status() {
    let e = TaskError::invocation_failure(Source::Multiplexer, "tmux missing".to_string());
    assert_eq!(e.status, 100);
}

#[test]
fn task_error_rendering_names_status_and_source() {
    let e = TaskError::tool_failure(
        Source::VersionControl,
        Some(128),
        "fatal: not a git repository".to_string(),
    );
    assert_eq!(
        e.render(),
        "fatal: not a git repository (exit-status: 128, source: git)"
    );
    let e = TaskError::invocation_failure(Source::Multiplexer, "no server".to_string());
    assert_eq!(e.render(), "no server (exit-status: 100, source: tmux)");
}

#[test]
fn source_labels() {
    assert_eq!(Source::Multiplexer.label(), "tmux");
    assert_eq!(Source::VersionControl.label(), "git");
}

#[test]
fn validation_error_rendering() {
    assert_eq!(
        ValidationError::DuplicateTask.render("feature-x"),
        "Task 'feature-x' already exists"
    );
    assert_eq!(
        ValidationError::UnknownTask.render("feature-x"),
        "Task 'feature-x' not found"
    );
    assert_eq!(
        ValidationError::InvalidName.render("a b"),
        "Task 'a b' is not a usable task name"
    );
}

#[test]
fn exit_codes_for_every_outcome() {
    assert_eq!(exit_code(&CommandOutcome::Completed), 0);
    assert_eq!(exit_code(&CommandOutcome::Declined), 0);
    assert_eq!(
        exit_code(&CommandOutcome::Rejected(ValidationError::UnknownTask)),
        1
    );
    let e = TaskError::invocation_failure(Source::Multiplexer, "no server".to_string());
    assert_eq!(exit_code(&CommandOutcome::Failed(e)), 1);
}
