//! A run of a script: the command that it comes to, and what is reported of it.

use crate::script::{copy_optional_text, Script};
use crate::tasks::{TaskOutput, Timestamp};
use vstd::prelude::*;
use vstd::string::*;

verus! {

/// A script that is to be run.
pub struct Task {
    pub created_on: Timestamp,
    pub script: Script,
}

/// The command that a run comes to.
pub struct Command {
    pub program: String,
    pub arguments: Vec<String>,
    /// The directory with the extracted upload, which the command finds in the
    /// environment variable `ATTACHMENTS_DIR`.
    pub attachments: Option<Vec<u8>>,
    /// The user to run as.
    pub run_as: Option<String>,
}

/// The name of the environment variable with the directory of the extracted
/// upload.
pub const ATTACHMENTS_VARIABLE: &'static str = "ATTACHMENTS_DIR";

/// Why a script was not started.
#[derive(Debug, Clone, PartialEq, Eq)]
pub enum RunError {
    /// Its command is empty.
    EmptyCommand,
    /// The user that it should run as does not exist.
    UserNotFound,
    /// The process could not be started, for this reason.
    NotStarted(String),
}

impl RunError {
    /// What went wrong, in words.
    pub open spec fn text(&self) -> Seq<char> {
        match self {
            RunError::EmptyCommand => "Script command is empty"@,
            RunError::UserNotFound => "User not found"@,
            RunError::NotStarted(reason) => reason@,
        }
    }

    /// What went wrong, in words.
    pub fn message(&self) -> (text: String)
        ensures
            text@ == self.text(),
    {
        match self {
            RunError::EmptyCommand => "Script command is empty".to_owned(),
            RunError::UserNotFound => "User not found".to_owned(),
            RunError::NotStarted(reason) => reason.clone(),
        }
    }
}

/// A user's identity in the operating system.
#[derive(Debug, Clone, Copy, PartialEq, Eq, Structural)]
pub struct UserIdentity {
    pub uid: u32,
    pub gid: u32,
}

/// How a process ended.
pub enum Ending {
    /// With this exit code.
    Exited(i32),
    /// By a signal.
    Signalled,
    /// It could not be waited for, for this reason.
    NotAwaited(String),
}

/// The state of a run, and with it what to do next.
pub enum Run {
    /// Look up the user that the command names.
    LookUpUser(Command),
    /// Start the command, as this user where there is one, with its standard
    /// output and standard error to be read.
    Start { command: Command, identity: Option<UserIdentity> },
    /// Read lines from the outputs that are open.
    Read { stdout_open: bool, stderr_open: bool },
    /// Wait for the process to end.
    Await,
    /// The run is over, with this exit code.
    Over(i32),
    /// The script was not started.
    NotStarted(RunError),
}

/// What came of a step of a run.
pub enum RunEvent {
    /// Who the named user is, where there is one.
    UserFound(Option<UserIdentity>),
    /// The process was started.
    Started,
    /// The process could not be started, for this reason.
    StartFailed(String),
    /// A line on standard output.
    StdoutLine(String),
    /// A line on standard error.
    StderrLine(String),
    /// Standard output is at its end.
    StdoutClosed,
    /// Standard error is at its end.
    StderrClosed,
    /// The process ended.
    Ended(Ending),
}

impl Task {
    /// A run of a script, as of now.
    pub fn create(script: Script) -> (task: Task)
        ensures
            task.script == script,
            crate::outside::is_clock_moment(
                task.created_on.seconds(),
                task.created_on.nanoseconds(),
            ),
    {
        Task { created_on: Timestamp::now(), script }
    }

    /// Begins a run with these arguments and, where there is one, with the
    /// directory of an extracted upload.
    pub fn run(&self, arguments: Vec<String>, attachments: Option<Vec<u8>>) -> (run: Run)
        ensures
            match run {
                Run::LookUpUser(command) => self.comes_to(arguments@, attachments, command)
                    && command.run_as is Some,
                Run::Start { command, identity } => self.comes_to(arguments@, attachments, command)
                    && command.run_as is None && identity is None,
                Run::NotStarted(error) => error == RunError::EmptyCommand
                    && self.script.command@.len() == 0,
                _ => false,
            },
    {
        match self.command(arguments, attachments) {
            Ok(command) => match &command.run_as {
                Some(_) => Run::LookUpUser(command),
                None => Run::Start { command, identity: None },
            },
            Err(error) => Run::NotStarted(error),
        }
    }

    /// Whether a run with these arguments comes to this command: the script's
    /// own, with the arguments after the script's own arguments.
    pub open spec fn comes_to(
        &self,
        arguments: Seq<String>,
        attachments: Option<Vec<u8>>,
        command: Command,
    ) -> bool {
        &&& self.script.command@.len() > 0
        &&& command.program@ == self.script.command@[0]@
        &&& crate::script::texts(command.arguments@) == crate::script::texts(
            self.script.command@.subrange(1, self.script.command@.len() as int),
        ) + crate::script::texts(arguments)
        &&& command.attachments == attachments
        &&& crate::script::optional_text(command.run_as) == crate::script::optional_text(
            self.script.run_as,
        )
    }

    /// The command that a run with these arguments comes to: the script's own,
    /// with the arguments after the script's own arguments. A script without a
    /// command cannot be run.
    pub fn command(&self, arguments: Vec<String>, attachments: Option<Vec<u8>>) -> (result: Result<
        Command,
        RunError,
    >)
        ensures
            match result {
                Ok(command) => self.comes_to(arguments@, attachments, command),
                Err(error) => error == RunError::EmptyCommand && self.script.command@.len() == 0,
            },
    {
        let own = &self.script.command;
        if own.len() == 0 {
            return Err(RunError::EmptyCommand);
        }
        let ghost given = arguments@;
        let ghost own_arguments = own@.subrange(1, own@.len() as int);
        let mut all: Vec<String> = Vec::new();
        let mut i: usize = 1;
        while i < own.len()
            invariant
                1 <= i <= own.len(),
                all@.len() == i - 1,
                forall|j: int| 0 <= j < all@.len() ==> (#[trigger] all@[j])@ == own@[j + 1]@,
            decreases own.len() - i,
        {
            all.push(own[i].clone());
            i = i + 1;
        }
        let mut arguments = arguments;
        all.append(&mut arguments);
        proof {
            let expected = crate::script::texts(own_arguments) + crate::script::texts(given);
            assert(crate::script::texts(all@) =~= expected);
        }
        Ok(
            Command {
                program: own[0].clone(),
                arguments: all,
                attachments,
                run_as: copy_optional_text(&self.script.run_as),
            },
        )
    }
}

/// What is reported of a process that could not be started: a line on standard
/// error with the reason.
fn start_failure(reason: &str) -> (output: TaskOutput)
    ensures
        output matches TaskOutput::Stderr(line) && line@ == "Failed to start script: "@ + reason@,
{
    let mut line = "Failed to start script: ".to_owned();
    line.append(reason);
    TaskOutput::Stderr(line)
}

/// What is reported of a process that ended: its exit code, or -1 with a line
/// on standard error where it has none.
fn completion(ending: Ending) -> (report: (Option<TaskOutput>, i32))
    ensures
        match ending {
            Ending::Exited(code) => report == (None::<TaskOutput>, code),
            Ending::Signalled => report.1 == -1 && (report.0 matches Some(TaskOutput::Stderr(line))
                && line@ == "Command terminated by signal"@),
            Ending::NotAwaited(reason) => report.1 == -1 && (report.0 matches Some(
                TaskOutput::Stderr(line),
            ) && line@ == "Command failed: "@ + reason@),
        },
{
    match ending {
        Ending::Exited(code) => (None, code),
        Ending::Signalled => (
            Some(TaskOutput::Stderr("Command terminated by signal".to_owned())),
            -1,
        ),
        Ending::NotAwaited(reason) => {
            let mut line = "Command failed: ".to_owned();
            line.append(reason.as_str());
            (Some(TaskOutput::Stderr(line)), -1)
        },
    }
}

/// What an event leads to: the state of the run after it. An event that does
/// not belong to the state leaves it as it is.
pub open spec fn run_after(run: Run, event: RunEvent) -> Run {
    match (run, event) {
        (Run::LookUpUser(command), RunEvent::UserFound(user)) => match user {
            Some(user) => Run::Start { command, identity: Some(user) },
            None => Run::NotStarted(RunError::UserNotFound),
        },
        (Run::Start { .. }, RunEvent::Started) => Run::Read {
            stdout_open: true,
            stderr_open: true,
        },
        (Run::Start { .. }, RunEvent::StartFailed(reason)) => Run::NotStarted(
            RunError::NotStarted(reason),
        ),
        (Run::Read { stderr_open, .. }, RunEvent::StdoutClosed) => if stderr_open {
            Run::Read { stdout_open: false, stderr_open: true }
        } else {
            Run::Await
        },
        (Run::Read { stdout_open, .. }, RunEvent::StderrClosed) => if stdout_open {
            Run::Read { stdout_open: true, stderr_open: false }
        } else {
            Run::Await
        },
        (Run::Await, RunEvent::Ended(ending)) => Run::Over(
            match ending {
                Ending::Exited(code) => code,
                _ => -1i32,
            },
        ),
        _ => run,
    }
}

/// Whether `line` is what an event has to be reported as.
pub open spec fn reported(run: Run, event: RunEvent, line: Option<TaskOutput>) -> bool {
    match (run, event) {
        (Run::Start { .. }, RunEvent::StartFailed(reason)) => line matches Some(
            TaskOutput::Stderr(text),
        ) && text@ == "Failed to start script: "@ + reason@,
        (Run::Read { .. }, RunEvent::StdoutLine(text)) => line == Some(TaskOutput::Stdout(text)),
        (Run::Read { .. }, RunEvent::StderrLine(text)) => line == Some(TaskOutput::Stderr(text)),
        (Run::Await, RunEvent::Ended(Ending::Signalled)) => line matches Some(
            TaskOutput::Stderr(text),
        ) && text@ == "Command terminated by signal"@,
        (Run::Await, RunEvent::Ended(Ending::NotAwaited(reason))) => line matches Some(
            TaskOutput::Stderr(text),
        ) && text@ == "Command failed: "@ + reason@,
        _ => line is None,
    }
}

impl Run {
    /// Takes what came of the last step, and says what is to be reported.
    pub fn step(self, event: RunEvent) -> (r: (Run, Option<TaskOutput>))
        ensures
            r.0 == run_after(self, event),
            reported(self, event, r.1),
    {
        match (self, event) {
            (Run::LookUpUser(command), RunEvent::UserFound(user)) => match user {
                Some(user) => (Run::Start { command, identity: Some(user) }, None),
                None => (Run::NotStarted(RunError::UserNotFound), None),
            },
            (Run::Start { .. }, RunEvent::Started) => (
                Run::Read { stdout_open: true, stderr_open: true },
                None,
            ),
            (Run::Start { .. }, RunEvent::StartFailed(reason)) => {
                let line = start_failure(reason.as_str());
                (Run::NotStarted(RunError::NotStarted(reason)), Some(line))
            },
            (Run::Read { stdout_open, stderr_open }, RunEvent::StdoutLine(line)) => (
                Run::Read { stdout_open, stderr_open },
                Some(TaskOutput::Stdout(line)),
            ),
            (Run::Read { stdout_open, stderr_open }, RunEvent::StderrLine(line)) => (
                Run::Read { stdout_open, stderr_open },
                Some(TaskOutput::Stderr(line)),
            ),
            (Run::Read { stderr_open, .. }, RunEvent::StdoutClosed) => {
                if stderr_open {
                    (Run::Read { stdout_open: false, stderr_open: true }, None)
                } else {
                    (Run::Await, None)
                }
            },
            (Run::Read { stdout_open, .. }, RunEvent::StderrClosed) => {
                if stdout_open {
                    (Run::Read { stdout_open: true, stderr_open: false }, None)
                } else {
                    (Run::Await, None)
                }
            },
            (Run::Await, RunEvent::Ended(ending)) => {
                let (line, code): (Option<TaskOutput>, i32) = completion(ending);
                (Run::Over(code), line)
            },
            (run, _) => (run, None),
        }
    }
}

/// A run has an exit code only once it was waited for, and it is waited for
/// only once both outputs are at their end: every line comes before the exit
/// code.
pub proof fn law_exit_code_follows_the_output(run: Run, event: RunEvent)
    ensures
        run_after(run, event) is Over ==> run is Over || (run is Await && event is Ended),
        run_after(run, event) is Await ==> run is Await || (event is StdoutClosed && run
            == (Run::Read { stdout_open: run->stdout_open, stderr_open: false })) || (event
            is StderrClosed && run == (Run::Read {
            stdout_open: false,
            stderr_open: run->stderr_open,
        })),
        run is Over ==> run_after(run, event) == run,
{
}

/// A script that names a user is started as that user, or not at all.
pub proof fn law_named_user_is_used(run: Run, event: RunEvent)
    requires
        run is LookUpUser,
        run_after(run, event) is Start,
    ensures
        run_after(run, event)->identity is Some,
        event == RunEvent::UserFound(run_after(run, event)->identity),
{
}

} // verus!
