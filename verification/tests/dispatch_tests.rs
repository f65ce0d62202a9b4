use xtask::command::task_commands;
use xtask::dispatch::{dispatch, judge_outcome, SpawnOutcome, StepVerdict, TaskError};
use xtask::task::Task;

#[test]
fn a_run_of_successes_executes_everything() {
    let plan = task_commands(Task::FixupGithubActions);
    let outcomes = vec![
        SpawnOutcome::Exited(0),
        SpawnOutcome::Exited(0),
        SpawnOutcome::Exited(0),
    ];
    let r = dispatch(&plan, &outcomes, false);
    assert_eq!(r.executed, 3);
    assert!(r.failure.is_none());
}

#[test]
fn a_nonzero_exit_aborts_all_subsequent_commands() {
    let plan = task_commands(Task::FixupGithubActions);
    let outcomes = vec![
        SpawnOutcome::Exited(0),
        SpawnOutcome::Exited(1),
        SpawnOutcome::Exited(0),
    ];
    let r = dispatch(&plan, &outcomes, false);
    assert_eq!(r.executed, 2);
    match r.failure {
        Some(TaskError::ToolFailed { program, code }) => {
            assert_eq!(program, "cue");
            assert_eq!(code, 1);
        }
        _ => panic!("expected a tool failure"),
    }
}

#[test]
fn a_missing_tool_is_skipped_under_the_policy() {
    let plan = task_commands(Task::FixupGithubActions);
    let outcomes = vec![
        SpawnOutcome::NotFound,
        SpawnOutcome::Exited(0),
        SpawnOutcome::Exited(0),
    ];
    let r = dispatch(&plan, &outcomes, true);
    assert_eq!(r.executed, 3);
    assert!(r.failure.is_none());
}

#[test]
fn a_missing_tool_aborts_without_the_policy() {
    let plan = task_commands(Task::FixupGithubActions);
    let outcomes = vec![
        SpawnOutcome::NotFound,
        SpawnOutcome::Exited(0),
        SpawnOutcome::Exited(0),
    ];
    let r = dispatch(&plan, &outcomes, false);
    assert_eq!(r.executed, 1);
    match r.failure {
        Some(TaskError::ToolNotFound { program }) => assert_eq!(program, "cue"),
        _ => panic!("expected a missing-tool failure"),
    }
}

#[test]
fn another_spawn_failure_is_fatal_even_under_the_policy() {
    let plan = task_commands(Task::FixupGithubActions);
    let outcomes = vec![
        SpawnOutcome::Exited(0),
        SpawnOutcome::SpawnFailed,
        SpawnOutcome::Exited(0),
    ];
    let r = dispatch(&plan, &outcomes, true);
    assert_eq!(r.executed, 2);
    assert!(matches!(r.failure, Some(TaskError::SpawnFailed { .. })));
}

#[test]
fn each_outcome_is_judged_exactly() {
    let cue = "cue".to_string();
    assert!(matches!(
        judge_outcome(&cue, SpawnOutcome::Exited(0), false),
        StepVerdict::Proceed
    ));
    assert!(matches!(
        judge_outcome(&cue, SpawnOutcome::NotFound, true),
        StepVerdict::SkipMissing
    ));
    assert!(matches!(
        judge_outcome(&cue, SpawnOutcome::NotFound, false),
        StepVerdict::Abort(TaskError::ToolNotFound { .. })
    ));
    assert!(matches!(
        judge_outcome(&cue, SpawnOutcome::Exited(2), true),
        StepVerdict::Abort(TaskError::ToolFailed { code: 2, .. })
    ));
    assert!(matches!(
        judge_outcome(&cue, SpawnOutcome::SpawnFailed, true),
        StepVerdict::Abort(TaskError::SpawnFailed { .. })
    ));
}

#[test]
fn the_first_command_can_abort_the_whole_run() {
    let plan = task_commands(Task::Fixup);
    let mut outcomes = vec![SpawnOutcome::Exited(0); 9];
    outcomes[0] = SpawnOutcome::Exited(65);
    let r = dispatch(&plan, &outcomes, false);
    assert_eq!(r.executed, 1);
    match r.failure {
        Some(TaskError::ToolFailed { program, code }) => {
            assert_eq!(program, "codespell");
            assert_eq!(code, 65);
        }
        _ => panic!("expected a tool failure"),
    }
}

#[test]
fn an_empty_plan_runs_nothing_and_succeeds() {
    let plan = Vec::new();
    let outcomes = Vec::new();
    let r = dispatch(&plan, &outcomes, false);
    assert_eq!(r.executed, 0);
    assert!(r.failure.is_none());
}
