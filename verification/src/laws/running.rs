//! A run of a script: the command that is started, the lines that are reported,
//! and the exit code.

use crate::script::Script;
use crate::tasks::task::{Command, Ending, Run, RunError, RunEvent, Task, UserIdentity};
use crate::tasks::TaskOutput;
use vstd::prelude::*;
use vstd::string::*;

verus! {

/// Whether a run takes an event like this.
pub open spec fn runs(run: Run, event: RunEvent, after: Run, line: Option<TaskOutput>) -> bool {
    &&& after == crate::tasks::task::run_after(run, event)
    &&& crate::tasks::task::reported(run, event, line)
}

/// The command of a run is the script's own, word by word: its first word is the
/// program, the others are the first arguments, and the arguments of the request
/// follow in their order. It runs as the script's user, and with the upload that
/// came.
pub proof fn law_commands_are_put_together(
    task: Task,
    arguments: Seq<String>,
    attachments: Option<Vec<u8>>,
    command: Command,
)
    requires
        task.comes_to(arguments, attachments, command),
    ensures
        ({
            let own = task.script.command@;
            &&& own.len() > 0
            &&& command.program@ == own[0]@
            &&& command.arguments@.len() == own.len() - 1 + arguments.len()
            &&& forall|i: int|
                0 <= i < own.len() - 1 ==> (#[trigger] command.arguments@[i])@ == own[i + 1]@
            &&& forall|i: int|
                0 <= i < arguments.len() ==> (#[trigger] arguments[i])@
                    == command.arguments@[own.len() - 1 + i]@
            &&& command.attachments == attachments
            &&& match task.script.run_as {
                Some(user) => command.run_as matches Some(name) && name@ == user@,
                None => command.run_as is None,
            }
        }),
{
    let own = task.script.command@;
    let given = crate::script::texts(command.arguments@);
    let first = crate::script::texts(own.subrange(1, own.len() as int));
    let second = crate::script::texts(arguments);
    assert(given.len() == command.arguments@.len());
    assert forall|i: int| 0 <= i < own.len() - 1 implies (#[trigger] command.arguments@[i])@
        == own[i + 1]@ by {
        assert(given[i] == first[i]);
    }
    assert forall|i: int| 0 <= i < arguments.len() implies (#[trigger] arguments[i])@
        == command.arguments@[own.len() - 1 + i]@ by {
        assert(given[own.len() - 1 + i] == second[i]);
    }
}

/// A script that names a user is started as that user, and not at all where there
/// is no such user.
pub proof fn law_users_are_looked_up(
    command: Command,
    user: Option<UserIdentity>,
    after: Run,
    line: Option<TaskOutput>,
)
    requires
        runs(Run::LookUpUser(command), RunEvent::UserFound(user), after, line),
    ensures
        line is None,
        match user {
            Some(user) => after == (Run::Start { command, identity: Some(user) }),
            None => after == Run::NotStarted(RunError::UserNotFound),
        },
{
}

/// A process that started is read from, on both of its outputs; one that did not
/// is reported with the reason, on standard error, and is an error with it.
pub proof fn law_starts_are_followed(
    run: Run,
    reason: String,
    after: Run,
    line: Option<TaskOutput>,
)
    requires
        run is Start,
    ensures
        runs(run, RunEvent::Started, after, line) ==> {
            &&& line is None
            &&& after == (Run::Read { stdout_open: true, stderr_open: true })
        },
        runs(run, RunEvent::StartFailed(reason), after, line) ==> {
            &&& after == Run::NotStarted(RunError::NotStarted(reason))
            &&& line matches Some(TaskOutput::Stderr(text))
            &&& text@ == "Failed to start script: "@ + reason@
        },
{
}

/// Every line that a process writes is reported as it came, and on the output that
/// it came on, for as long as the outputs are read; and they are read until both
/// are at their end.
pub proof fn law_every_line_is_reported(
    stdout_open: bool,
    stderr_open: bool,
    text: String,
    after: Run,
    line: Option<TaskOutput>,
)
    ensures
        ({
            let run = Run::Read { stdout_open, stderr_open };
            &&& runs(run, RunEvent::StdoutLine(text), after, line) ==> after == run && line == Some(
                TaskOutput::Stdout(text),
            )
            &&& runs(run, RunEvent::StderrLine(text), after, line) ==> after == run && line == Some(
                TaskOutput::Stderr(text),
            )
            &&& runs(run, RunEvent::StdoutClosed, after, line) ==> line is None && after == (
            if stderr_open {
                Run::Read { stdout_open: false, stderr_open: true }
            } else {
                Run::Await
            })
            &&& runs(run, RunEvent::StderrClosed, after, line) ==> line is None && after == (
            if stdout_open {
                Run::Read { stdout_open: true, stderr_open: false }
            } else {
                Run::Await
            })
        }),
{
}

/// A run is over with the exit code of its process; without one, it is over with
/// -1 and a line on standard error that says why.
pub proof fn law_exit_codes_are_the_processs_own(
    ending: Ending,
    after: Run,
    line: Option<TaskOutput>,
)
    requires
        runs(Run::Await, RunEvent::Ended(ending), after, line),
    ensures
        match ending {
            Ending::Exited(code) => after == Run::Over(code) && line is None,
            Ending::Signalled => {
                &&& after == Run::Over(-1i32)
                &&& line matches Some(TaskOutput::Stderr(text))
                &&& text@ == "Command terminated by signal"@
            },
            Ending::NotAwaited(reason) => {
                &&& after == Run::Over(-1i32)
                &&& line matches Some(TaskOutput::Stderr(text))
                &&& text@ == "Command failed: "@ + reason@
            },
        },
{
}

/// Whether a run waits for an event like this.
pub open spec fn is_awaited(run: Run, event: RunEvent) -> bool {
    match event {
        RunEvent::UserFound(_) => run is LookUpUser,
        RunEvent::Started | RunEvent::StartFailed(_) => run is Start,
        RunEvent::StdoutLine(_)
        | RunEvent::StderrLine(_)
        | RunEvent::StdoutClosed
        | RunEvent::StderrClosed => run is Read,
        RunEvent::Ended(_) => run is Await,
    }
}

/// An event that a run does not wait for changes nothing, and is not reported.
pub proof fn law_unawaited_events_change_nothing(
    run: Run,
    event: RunEvent,
    after: Run,
    line: Option<TaskOutput>,
)
    requires
        runs(run, event, after, line),
        !is_awaited(run, event),
    ensures
        after == run,
        line is None,
{
}

/// Each failure has words of its own.
pub proof fn law_failures_are_told(reason: String)
    ensures
        RunError::EmptyCommand.text() == "Script command is empty"@,
        RunError::UserNotFound.text() == "User not found"@,
        RunError::NotStarted(reason).text() == reason@,
{
}

/// What a script's view says is all of it: two with the same view have the same
/// name, the same user and, word by word, the same command.
pub proof fn law_copies_of_scripts_are_alike(one: Script, other: Script)
    requires
        one@ == other@,
    ensures
        one.name@ == other.name@,
        one.run_as is Some <==> other.run_as is Some,
        one.run_as matches Some(user) ==> (other.run_as matches Some(same) && same@ == user@),
        one.command@.len() == other.command@.len(),
        forall|i: int|
            0 <= i < one.command@.len() ==> (#[trigger] one.command@[i])@ == other.command@[i]@,
{
    assert(crate::script::texts(one.command@).len() == one.command@.len());
    assert(crate::script::texts(other.command@).len() == other.command@.len());
    assert forall|i: int| 0 <= i < one.command@.len() implies (#[trigger] one.command@[i])@
        == other.command@[i]@ by {
        assert(crate::script::texts(one.command@)[i] == crate::script::texts(other.command@)[i]);
    }
}

} // verus!
