use orosu::script::Script;
use orosu::tasks::task::{
    Ending, Run, RunError, RunEvent, Task, UserIdentity, ATTACHMENTS_VARIABLE,
};
use orosu::tasks::TaskOutput;

fn script(command: &[&str]) -> Script {
    Script {
        name: "test-script".to_string(),
        run_as: None,
        command: command.iter().map(|part| part.to_string()).collect(),
    }
}

fn started(command: &[&str]) -> Run {
    let (run, line) = Task::create(script(command)).run(vec![], None).step(RunEvent::Started);
    assert!(line.is_none());
    run
}

/// A run whose outputs are both at their end.
fn awaited(command: &[&str]) -> Run {
    let (run, _) = started(command).step(RunEvent::StderrClosed);
    assert!(matches!(run, Run::Read { stdout_open: true, stderr_open: false }));
    let (run, _) = run.step(RunEvent::StdoutClosed);
    assert!(matches!(run, Run::Await));
    run
}

/// Follows a run from its outputs' end to its exit code.
fn finish(run: Run, code: i32) -> Run {
    let (run, _) = run.step(RunEvent::StdoutClosed);
    let (run, _) = run.step(RunEvent::StderrClosed);
    let (run, line) = run.step(RunEvent::Ended(Ending::Exited(code)));
    assert!(line.is_none());
    run
}

#[test]
fn run_streams_stdout_and_resolves_the_exit_code() {
    let (run, line) = started(&["echo", "hello from stdout"])
        .step(RunEvent::StdoutLine("hello from stdout".to_string()));
    assert_eq!(line, Some(TaskOutput::Stdout("hello from stdout".to_string())));
    assert!(matches!(finish(run, 0), Run::Over(0)));
}

#[test]
fn run_streams_stderr() {
    let (run, line) = started(&["bash", "-c", "echo oops >&2"])
        .step(RunEvent::StderrLine("oops".to_string()));
    assert_eq!(line, Some(TaskOutput::Stderr("oops".to_string())));
    assert!(matches!(run, Run::Read { stdout_open: true, stderr_open: true }));
    assert!(matches!(finish(run, 0), Run::Over(0)));
}

#[test]
fn run_resolves_a_non_zero_exit_code() {
    assert!(matches!(finish(started(&["bash", "-c", "exit 3"]), 3), Run::Over(3)));
}

#[test]
fn run_appends_extra_arguments_after_the_script_commands_own_args() {
    let task = Task::create(script(&["echo"]));
    let run = task.run(vec!["hello".to_string(), "world".to_string()], None);
    match &run {
        Run::Start { command, identity } => {
            assert_eq!(command.program, "echo");
            assert_eq!(command.arguments, vec!["hello", "world"]);
            assert!(command.attachments.is_none());
            assert!(identity.is_none());
        }
        _ => panic!("expected a start"),
    }
    let (run, _) = run.step(RunEvent::Started);
    let (run, line) = run.step(RunEvent::StdoutLine("hello world".to_string()));
    assert_eq!(line, Some(TaskOutput::Stdout("hello world".to_string())));
    assert!(matches!(finish(run, 0), Run::Over(0)));
}

#[test]
fn the_scripts_own_arguments_come_first() {
    let task = Task::create(script(&["echo", "-n"]));
    match task.run(vec!["hello".to_string()], None) {
        Run::Start { command, .. } => assert_eq!(command.arguments, vec!["-n", "hello"]),
        _ => panic!("expected a start"),
    }
}

#[test]
fn run_exposes_the_attachments_directory_as_an_env_var() {
    let attachments = tempfile::TempDir::new().unwrap();
    let expected_path = attachments.path().display().to_string();
    let task = Task::create(script(&["bash", "-c", "echo $ATTACHMENTS_DIR"]));
    let run = task.run(vec![], Some(expected_path.clone().into_bytes()));
    match &run {
        Run::Start { command, .. } => {
            assert_eq!(command.arguments, vec!["-c", "echo $ATTACHMENTS_DIR"]);
            assert_eq!(command.attachments, Some(expected_path.clone().into_bytes()));
            assert_eq!(ATTACHMENTS_VARIABLE, "ATTACHMENTS_DIR");
        }
        _ => panic!("expected a start"),
    }
    let (run, _) = run.step(RunEvent::Started);
    let (run, line) = run.step(RunEvent::StdoutLine(expected_path.clone()));
    assert_eq!(line, Some(TaskOutput::Stdout(expected_path)));
    assert!(matches!(finish(run, 0), Run::Over(0)));
}

#[test]
fn run_rejects_an_empty_command_without_spawning_anything() {
    let run = Task::create(script(&[])).run(vec![], None);
    assert!(matches!(run, Run::NotStarted(RunError::EmptyCommand)));
    assert_eq!(RunError::EmptyCommand.message(), "Script command is empty");
}

#[test]
fn run_reports_a_spawn_failure_as_both_an_error_and_a_stderr_event() {
    let run = Task::create(script(&["/nonexistent/definitely-not-a-real-binary"])).run(vec![], None);
    let (run, line) = run.step(RunEvent::StartFailed("No such file".to_string()));
    assert!(matches!(
        run,
        Run::NotStarted(error)
            if error == RunError::NotStarted("No such file".to_string())
                && error.message() == "No such file"
    ));
    assert_eq!(RunError::UserNotFound.message(), "User not found");
    assert_eq!(
        line,
        Some(TaskOutput::Stderr("Failed to start script: No such file".to_string()))
    );
}

#[test]
fn run_with_a_nonexistent_run_as_user_fails_before_spawning() {
    let mut script = script(&["echo", "should not run"]);
    script.run_as = Some("definitely-not-a-real-user-3f8a91".to_string());
    let run = Task::create(script.clone()).run(vec![], None);
    assert!(matches!(&run, Run::LookUpUser(command)
        if command.run_as.as_deref() == Some("definitely-not-a-real-user-3f8a91")));
    let (run, line) = run.step(RunEvent::UserFound(None));
    assert!(line.is_none());
    assert!(matches!(run, Run::NotStarted(RunError::UserNotFound)));

    let user = UserIdentity { uid: 7, gid: 8 };
    let run = Task::create(script).run(vec![], None);
    let (run, _) = run.step(RunEvent::UserFound(Some(user)));
    assert!(matches!(run, Run::Start { identity: Some(found), .. } if found == user));
}

#[test]
fn run_reports_signal_termination_as_exit_code_negative_one() {
    let (run, line) = awaited(&["bash", "-c", "kill -9 $$"]).step(RunEvent::Ended(Ending::Signalled));
    assert_eq!(
        line,
        Some(TaskOutput::Stderr("Command terminated by signal".to_string()))
    );
    assert!(matches!(run, Run::Over(-1)));
    let (run, line) = awaited(&["true"]).step(RunEvent::Ended(Ending::NotAwaited("why".to_string())));
    assert_eq!(line, Some(TaskOutput::Stderr("Command failed: why".to_string())));
    assert!(matches!(run, Run::Over(-1)));
}

#[test]
fn events_out_of_turn_change_nothing() {
    let (run, line) = started(&["true"]).step(RunEvent::Ended(Ending::Exited(0)));
    assert!(line.is_none());
    assert!(matches!(run, Run::Read { stdout_open: true, stderr_open: true }));
    let (run, line) = awaited(&["true"]).step(RunEvent::StdoutLine("late".to_string()));
    assert!(line.is_none());
    assert!(matches!(run, Run::Await));
}
