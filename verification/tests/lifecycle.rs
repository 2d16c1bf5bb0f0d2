use meta_task::controller::{
    authorize, conclude, focus_tmux_session_and_branch, GatewayOp, Step, Transition,
    TransitionKind,
};
use meta_task::errors::{
    exit_code, CommandOutcome, Source, TaskError, ValidationError,
};
use meta_task::registry::Database;

/// Drives one transition the way the shell does: performs no real external
/// work, but feeds the scripted step results back one by one.
fn run(
    kind: TransitionKind,
    inside: bool,
    results: Vec<Result<(), TaskError>>,
) -> (Vec<GatewayOp>, Option<TaskError>) {
    let (mut t, first) = Transition::begin(kind, inside);
    let mut ops = vec![first];
    for res in results {
        match t.proceed(res) {
            Step::Next(op) => ops.push(op),
            Step::Complete => return (ops, None),
            Step::Aborted(e) => return (ops, Some(e)),
        }
    }
    panic!("results ran out before the transition ended");
}

#[test]
fn create_outside_session_runs_all_three_in_order() {
    // Probe says false: create must go new-session, attach, create-branch.
    let (ops, err) = run(
        TransitionKind::Create,
        false,
        vec![Ok(()), Ok(()), Ok(())],
    );
    assert_eq!(
        ops,
        vec![
            GatewayOp::NewDetachedSession,
            GatewayOp::AttachSession,
            GatewayOp::CreateBranch
        ]
    );
    assert!(err.is_none());
}

#[test]
fn create_inside_session_switches_instead_of_attaching() {
    let (ops, err) = run(TransitionKind::Create, true, vec![Ok(()), Ok(()), Ok(())]);
    assert_eq!(
        ops,
        vec![
            GatewayOp::NewDetachedSession,
            GatewayOp::SwitchClient,
            GatewayOp::CreateBranch
        ]
    );
    assert!(err.is_none());
}

#[test]
fn create_scenario_registers_the_task() {
    // Probe false; all three gateway calls succeed; afterwards the registry
    // holds exactly the new task.
    let mut db = Database::new();
    assert!(authorize(TransitionKind::Create, &db, "feature-x").is_ok());
    let (ops, err) = run(TransitionKind::Create, false, vec![Ok(()), Ok(()), Ok(())]);
    assert_eq!(
        ops,
        vec![
            GatewayOp::NewDetachedSession,
            GatewayOp::AttachSession,
            GatewayOp::CreateBranch
        ]
    );
    assert!(err.is_none());
    conclude(TransitionKind::Create, true, &mut db, "feature-x");
    assert!(db.task_exists("feature-x"));
    let listed = db.list_tasks();
    assert_eq!(listed, vec!["Task: feature-x".to_string()]);
}

#[test]
fn duplicate_create_is_rejected_with_exit_code_one() {
    // Registry already holds the name: the request is refused before any
    // gateway operation, and the process exit code is 1.
    let mut db = Database::new();
    conclude(TransitionKind::Create, true, &mut db, "feature-x");
    assert_eq!(
        authorize(TransitionKind::Create, &db, "feature-x"),
        Err(ValidationError::DuplicateTask)
    );
    assert_eq!(
        exit_code(&CommandOutcome::Rejected(ValidationError::DuplicateTask)),
        1
    );
}

#[test]
fn create_rejects_unusable_names() {
    let db = Database::new();
    assert_eq!(
        authorize(TransitionKind::Create, &db, "has space"),
        Err(ValidationError::InvalidName)
    );
    assert_eq!(
        authorize(TransitionKind::Create, &db, "a.b"),
        Err(ValidationError::InvalidName)
    );
    assert_eq!(
        authorize(TransitionKind::Create, &db, ""),
        Err(ValidationError::InvalidName)
    );
}

#[test]
fn unknown_focus_and_retire_are_rejected() {
    // Neither focus nor done reaches the gateway for an unknown name.
    let db = Database::new();
    assert_eq!(
        authorize(TransitionKind::Focus, &db, "ghost"),
        Err(ValidationError::UnknownTask)
    );
    assert_eq!(
        authorize(TransitionKind::Retire, &db, "ghost"),
        Err(ValidationError::UnknownTask)
    );
    assert_eq!(
        exit_code(&CommandOutcome::Rejected(ValidationError::UnknownTask)),
        1
    );
}

#[test]
fn focus_scenario_switches_only() {
    // Probe true: focus issues exactly one switch-client.
    assert_eq!(
        focus_tmux_session_and_branch(true),
        GatewayOp::SwitchClient
    );
    let (ops, err) = run(TransitionKind::Focus, true, vec![Ok(())]);
    assert_eq!(ops, vec![GatewayOp::SwitchClient]);
    assert!(err.is_none());
}

#[test]
fn focus_outside_session_attaches_only() {
    assert_eq!(
        focus_tmux_session_and_branch(false),
        GatewayOp::AttachSession
    );
    let (ops, err) = run(TransitionKind::Focus, false, vec![Ok(())]);
    assert_eq!(ops, vec![GatewayOp::AttachSession]);
    assert!(err.is_none());
}

#[test]
fn confirmed_retire_kills_the_session_and_unregisters() {
    let mut db = Database::new();
    conclude(TransitionKind::Create, true, &mut db, "feature-x");
    let (ops, err) = run(TransitionKind::Retire, false, vec![Ok(())]);
    assert_eq!(ops, vec![GatewayOp::KillSession]);
    assert!(err.is_none());
    conclude(TransitionKind::Retire, true, &mut db, "feature-x");
    assert!(!db.task_exists("feature-x"));
}

#[test]
fn declined_retire_changes_nothing_and_exits_zero() {
    // The user said no: zero gateway operations, exit code 0, registry kept.
    let mut db = Database::new();
    conclude(TransitionKind::Create, true, &mut db, "feature-x");
    conclude(TransitionKind::Retire, false, &mut db, "feature-x");
    assert!(db.task_exists("feature-x"));
    assert_eq!(exit_code(&CommandOutcome::Declined), 0);
}

#[test]
fn failed_branch_creation_aborts_and_keeps_registry_unchanged() {
    // Session creation and attach succeed, then the branch creation fails
    // with status 128: the create fails, nothing is registered, and the
    // error names its source and status.
    let mut db = Database::new();
    assert!(authorize(TransitionKind::Create, &db, "feature-x").is_ok());
    let git_failure = TaskError::tool_failure(
        Source::VersionControl,
        Some(128),
        "fatal: not a git repository".to_string(),
    );
    let (ops, err) = run(
        TransitionKind::Create,
        false,
        vec![Ok(()), Ok(()), Err(git_failure)],
    );
    assert_eq!(
        ops,
        vec![
            GatewayOp::NewDetachedSession,
            GatewayOp::AttachSession,
            GatewayOp::CreateBranch
        ]
    );
    let err = err.expect("the transition must abort");
    assert_eq!(err.status, 128);
    assert_eq!(err.source, Source::VersionControl);
    conclude(TransitionKind::Create, false, &mut db, "feature-x");
    assert!(!db.task_exists("feature-x"));
    let rendered = err.render();
    assert!(rendered.contains("exit-status: 128"));
    assert!(rendered.contains("source: git"));
    assert_eq!(exit_code(&CommandOutcome::Failed(err)), 1);
}

#[test]
fn first_step_failure_stops_the_whole_plan() {
    // The session creation itself fails: no attach, no branch creation.
    let tmux_failure =
        TaskError::invocation_failure(Source::Multiplexer, "no server".to_string());
    let (ops, err) = run(TransitionKind::Create, false, vec![Err(tmux_failure)]);
    assert_eq!(ops, vec![GatewayOp::NewDetachedSession]);
    let err = err.expect("the transition must abort");
    assert_eq!(err.status, 100);
    assert_eq!(err.source, Source::Multiplexer);
}

#[test]
fn completed_focus_leaves_registry_unchanged() {
    let mut db = Database::new();
    conclude(TransitionKind::Create, true, &mut db, "feature-x");
    conclude(TransitionKind::Focus, true, &mut db, "feature-x");
    assert!(db.task_exists("feature-x"));
    assert_eq!(db.list_tasks().len(), 1);
}
