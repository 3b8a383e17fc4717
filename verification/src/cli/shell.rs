//! External commands: how a command line is held, validated and run.
//!
//! Running a command needs the file system and the process table, which the
//! caller owns. [`ShellCommand::execute`] therefore works in steps: given
//! what the caller has learned last, it names the next thing to do, until it
//! reports the final result.

use vstd::prelude::*;

use crate::text::concat2;
use crate::text::concat3;
use crate::text::debug_form;
use crate::text::debug_text;

verus! {

/// An executable or path, its arguments, and whether it is validated before
/// it is started.
pub struct ShellCommand {
    base_command: String,
    args: Vec<String>,
    validate: bool,
}

/// The mathematical content of a [`ShellCommand`].
pub struct ShellCommandView {
    pub base_command: Seq<char>,
    pub args: Seq<Seq<char>>,
    pub validate: bool,
}

impl View for ShellCommand {
    type V = ShellCommandView;

    closed spec fn view(&self) -> ShellCommandView {
        ShellCommandView {
            base_command: self.base_command@,
            args: self.args.deep_view(),
            validate: self.validate,
        }
    }
}

/// Why a command did not run.
#[derive(Debug)]
pub enum ShellCommandError {
    /// Neither a path to a file nor a name the command lookup resolves.
    CommandNotFound(String),
    /// A file system entry that is not a file, or a file without any execute
    /// permission.
    NotExecutable(String),
    /// The operating system could not start the process.
    ExecutionFailed(String),
}

/// The mathematical content of a [`ShellCommandError`].
pub enum ShellCommandErrorView {
    CommandNotFound(Seq<char>),
    NotExecutable(Seq<char>),
    ExecutionFailed(Seq<char>),
}

impl View for ShellCommandError {
    type V = ShellCommandErrorView;

    open spec fn view(&self) -> ShellCommandErrorView {
        match self {
            ShellCommandError::CommandNotFound(m) => ShellCommandErrorView::CommandNotFound(m@),
            ShellCommandError::NotExecutable(m) => ShellCommandErrorView::NotExecutable(m@),
            ShellCommandError::ExecutionFailed(m) => ShellCommandErrorView::ExecutionFailed(m@),
        }
    }
}

/// How a process ended: whether it reported success, and its exit code where
/// it has one.
#[derive(Clone, Copy, Debug, PartialEq, Eq)]
pub struct ExitStatus {
    pub success: bool,
    pub code: Option<i32>,
}

/// What the file system says of the command's path.
#[derive(Clone, Copy, Debug, PartialEq, Eq)]
pub enum PathProbe {
    /// No entry of that name.
    Missing,
    /// An entry exists; `mode` holds its permission bits.
    Present { is_file: bool, mode: u32 },
}

/// What the platform's command lookup says of the command's name.
#[derive(Clone, Copy, Debug, PartialEq, Eq)]
pub enum LookupOutcome {
    /// The lookup found the command.
    Resolved,
    /// The lookup ran and did not find the command.
    Unresolved,
    /// The lookup itself could not be run.
    Unavailable,
}

/// What the caller reports to [`ShellCommand::execute`].
pub enum ExecEvent {
    /// Nothing has been done yet.
    Start,
    /// The answer to [`ExecStep::Probe`].
    Probed(PathProbe),
    /// The answer to [`ExecStep::Lookup`].
    LookedUp(LookupOutcome),
    /// The answer to [`ExecStep::Spawn`]: the exit status, or the operating
    /// system's error message.
    Spawned(Result<ExitStatus, String>),
}

/// The mathematical content of an [`ExecEvent`].
pub enum ExecEventView {
    Start,
    Probed(PathProbe),
    LookedUp(LookupOutcome),
    Spawned(Result<ExitStatus, Seq<char>>),
}

impl View for ExecEvent {
    type V = ExecEventView;

    open spec fn view(&self) -> ExecEventView {
        match self {
            ExecEvent::Start => ExecEventView::Start,
            ExecEvent::Probed(p) => ExecEventView::Probed(*p),
            ExecEvent::LookedUp(l) => ExecEventView::LookedUp(*l),
            ExecEvent::Spawned(Ok(s)) => ExecEventView::Spawned(Ok(*s)),
            ExecEvent::Spawned(Err(m)) => ExecEventView::Spawned(Err(m@)),
        }
    }
}

/// What [`ShellCommand::execute`] asks of the caller.
pub enum ExecStep {
    /// Look the command's path up in the file system.
    Probe,
    /// Ask the platform's command lookup for the command's name.
    Lookup,
    /// Start the command with its arguments and wait for it.
    Spawn,
    /// Nothing more to do: this is the result.
    Done(Result<ExitStatus, ShellCommandError>),
}

/// The mathematical content of an [`ExecStep`].
pub enum ExecStepView {
    Probe,
    Lookup,
    Spawn,
    Done(Result<ExitStatus, ShellCommandErrorView>),
}

impl View for ExecStep {
    type V = ExecStepView;

    open spec fn view(&self) -> ExecStepView {
        match self {
            ExecStep::Probe => ExecStepView::Probe,
            ExecStep::Lookup => ExecStepView::Lookup,
            ExecStep::Spawn => ExecStepView::Spawn,
            ExecStep::Done(Ok(s)) => ExecStepView::Done(Ok(*s)),
            ExecStep::Done(Err(e)) => ExecStepView::Done(Err(e@)),
        }
    }
}

/// Whether any of the three execute permission bits is set in `mode`.
pub open spec fn has_execute_bit(mode: u32) -> bool {
    mode & 0o111 != 0
}

/// The verdict of validation on a path the file system knows, and the
/// request for a lookup on one it does not know.
pub open spec fn probe_verdict(base: Seq<char>, probe: PathProbe) -> ExecStepView {
    match probe {
        PathProbe::Missing => ExecStepView::Lookup,
        PathProbe::Present { is_file, mode } => if !is_file {
            ExecStepView::Done(
                Err(ShellCommandErrorView::NotExecutable(base + " is not a file"@)),
            )
        } else if !has_execute_bit(mode) {
            ExecStepView::Done(
                Err(ShellCommandErrorView::NotExecutable(base + " is not executable"@)),
            )
        } else {
            ExecStepView::Spawn
        },
    }
}

/// The verdict of validation on what the command lookup said. A lookup that
/// ran and found nothing counts as not found, like one that could not run.
pub open spec fn lookup_verdict(base: Seq<char>, lookup: LookupOutcome) -> ExecStepView {
    match lookup {
        LookupOutcome::Resolved => ExecStepView::Spawn,
        _ => ExecStepView::Done(
            Err(ShellCommandErrorView::CommandNotFound("Command "@ + base + " not found"@)),
        ),
    }
}

/// The step that follows `event` for the command `cmd` on a platform that
/// has Unix permission bits (`permission_bits`) or has none.
pub open spec fn next_step(
    cmd: ShellCommandView,
    permission_bits: bool,
    event: ExecEventView,
) -> ExecStepView {
    match event {
        ExecEventView::Start => if !cmd.validate {
            ExecStepView::Spawn
        } else if permission_bits {
            ExecStepView::Probe
        } else {
            ExecStepView::Lookup
        },
        ExecEventView::Probed(probe) => probe_verdict(cmd.base_command, probe),
        ExecEventView::LookedUp(lookup) => lookup_verdict(cmd.base_command, lookup),
        ExecEventView::Spawned(Ok(status)) => ExecStepView::Done(Ok(status)),
        ExecEventView::Spawned(Err(message)) => ExecStepView::Done(
            Err(ShellCommandErrorView::ExecutionFailed("Failed to execute command: "@ + message)),
        ),
    }
}

impl ShellCommand {
    /// A command without arguments, validated before it runs.
    pub fn new(base_command: &str) -> (cmd: Self)
        ensures
            cmd@ == (ShellCommandView {
                base_command: base_command@,
                args: Seq::<Seq<char>>::empty(),
                validate: true,
            }),
    {
        let cmd = Self { base_command: base_command.to_owned(), args: Vec::new(), validate: true };
        assert(cmd.args.deep_view() =~= Seq::<Seq<char>>::empty());
        cmd
    }

    /// Appends one argument and hands the command back for chaining.
    pub fn add_arg(&mut self, arg: &str) -> (ret: &mut Self)
        ensures
            ret@ == (ShellCommandView { args: old(self)@.args.push(arg@), ..old(self)@ }),
            *final(self) == *final(ret),
    {
        self.args.push(arg.to_owned());
        assert(self.args.deep_view() =~= old(self).args.deep_view().push(arg@));
        self
    }

    /// The same command with validation switched on or off.
    pub fn with_validation(self, validate: bool) -> (cmd: Self)
        ensures
            cmd@ == (ShellCommandView { validate, ..self@ }),
    {
        let mut cmd = self;
        cmd.validate = validate;
        cmd
    }

    /// The executable or path.
    pub fn base_command(&self) -> (base: &str)
        ensures
            base@ == self@.base_command,
    {
        self.base_command.as_str()
    }

    /// The arguments in the order in which they were added.
    pub fn args(&self) -> (args: &Vec<String>)
        ensures
            args.deep_view() == self@.args,
    {
        &self.args
    }

    /// Whether the command is validated before it runs.
    pub fn validates(&self) -> (validate: bool)
        ensures
            validate == self@.validate,
    {
        self.validate
    }

    /// Decides on a command whose path was probed or whose name was looked
    /// up: the error that validation raises, or the next step.
    fn validate_command(&self, event: &ExecEvent) -> (step: ExecStep)
        requires
            event@ is Probed || event@ is LookedUp,
        ensures
            step@ == next_step(self@, true, event@),
            step@ == next_step(self@, false, event@),
    {
        match event {
            ExecEvent::Probed(PathProbe::Missing) => ExecStep::Lookup,
            ExecEvent::Probed(PathProbe::Present { is_file, mode }) => {
                if !*is_file {
                    let message = concat2(self.base_command.as_str(), " is not a file");
                    ExecStep::Done(Err(ShellCommandError::NotExecutable(message)))
                } else if *mode & 0o111 == 0 {
                    let message = concat2(self.base_command.as_str(), " is not executable");
                    ExecStep::Done(Err(ShellCommandError::NotExecutable(message)))
                } else {
                    ExecStep::Spawn
                }
            },
            ExecEvent::LookedUp(LookupOutcome::Resolved) => ExecStep::Spawn,
            _ => {
                let message = concat3("Command ", self.base_command.as_str(), " not found");
                ExecStep::Done(Err(ShellCommandError::CommandNotFound(message)))
            },
        }
    }

    /// One step of running the command: given what the caller reports, the
    /// next thing to do, or the final result.
    ///
    /// The caller starts with [`ExecEvent::Start`], carries out each step it
    /// is given and reports the answer, until it receives
    /// [`ExecStep::Done`]. `permission_bits` says whether the platform has
    /// Unix permission bits; where it has none, the command lookup is the
    /// only check.
    pub fn execute(&self, permission_bits: bool, event: ExecEvent) -> (step: ExecStep)
        ensures
            step@ == next_step(self@, permission_bits, event@),
    {
        match event {
            ExecEvent::Start => {
                if !self.validate {
                    ExecStep::Spawn
                } else if permission_bits {
                    ExecStep::Probe
                } else {
                    ExecStep::Lookup
                }
            },
            ExecEvent::Spawned(Ok(status)) => ExecStep::Done(Ok(status)),
            ExecEvent::Spawned(Err(message)) => {
                let text = concat2("Failed to execute command: ", message.as_str());
                ExecStep::Done(Err(ShellCommandError::ExecutionFailed(text)))
            },
            other => self.validate_command(&other),
        }
    }
}

/// Runs a command line through the shell of the platform.
pub struct DefaultCommandExecutor;

/// The command that hands `line` to the shell: `sh -c` with the line, or
/// `cmd /C` with the line on Windows. It is started without validation.
pub open spec fn shell_invocation(line: Seq<char>, windows: bool) -> ShellCommandView {
    if windows {
        ShellCommandView { base_command: "cmd"@, args: seq!["/C"@, line], validate: false }
    } else {
        ShellCommandView { base_command: "sh"@, args: seq!["-c"@, line], validate: false }
    }
}

impl DefaultCommandExecutor {
    /// The command that hands the command line `cmd` to the shell of the
    /// platform, which is that of Windows (`windows`) or a Unix shell.
    pub fn command(&self, cmd: &str, windows: bool) -> (command: ShellCommand)
        ensures
            command@ == shell_invocation(cmd@, windows),
    {
        let mut command = if windows {
            ShellCommand::new("cmd").with_validation(false)
        } else {
            ShellCommand::new("sh").with_validation(false)
        };
        if windows {
            command.add_arg("/C");
        } else {
            command.add_arg("-c");
        }
        command.add_arg(cmd);
        assert(command@.args =~= shell_invocation(cmd@, windows).args);
        command
    }
}

/// The text that `{:?}` shows for `error`.
pub open spec fn error_debug(error: ShellCommandErrorView) -> Seq<char> {
    match error {
        ShellCommandErrorView::CommandNotFound(m) => "CommandNotFound("@ + debug_form(m) + ")"@,
        ShellCommandErrorView::NotExecutable(m) => "NotExecutable("@ + debug_form(m) + ")"@,
        ShellCommandErrorView::ExecutionFailed(m) => "ExecutionFailed("@ + debug_form(m) + ")"@,
    }
}

/// The line that a program made of a shell command shows when the command
/// has ended: none after a success, the status after a failure, the error
/// where the command did not run.
pub open spec fn report_of(
    outcome: Result<ExitStatus, ShellCommandErrorView>,
    status_text: Seq<char>,
) -> Option<Seq<char>> {
    match outcome {
        Ok(status) => if status.success {
            None
        } else {
            Some("Command failed with status: "@ + status_text)
        },
        Err(error) => Some("Command error: "@ + error_debug(error)),
    }
}

impl ShellCommandError {
    /// The text that `{:?}` shows for this error.
    pub fn debug(&self) -> (text: String)
        ensures
            text@ == error_debug(self@),
    {
        match self {
            ShellCommandError::CommandNotFound(m) => {
                let quoted = debug_text(m.as_str());
                concat3("CommandNotFound(", quoted.as_str(), ")")
            },
            ShellCommandError::NotExecutable(m) => {
                let quoted = debug_text(m.as_str());
                concat3("NotExecutable(", quoted.as_str(), ")")
            },
            ShellCommandError::ExecutionFailed(m) => {
                let quoted = debug_text(m.as_str());
                concat3("ExecutionFailed(", quoted.as_str(), ")")
            },
        }
    }
}

/// The line that a program made of a shell command shows when the command
/// has ended, if it shows one. `status_text` is the platform's wording of
/// the exit status.
pub fn shell_report(outcome: &Result<ExitStatus, ShellCommandError>, status_text: &str) -> (line:
    Option<String>)
    ensures
        (match line {
            Some(l) => Some(l@),
            None => None,
        }) == report_of(
            match outcome {
                Ok(status) => Ok(*status),
                Err(error) => Err(error@),
            },
            status_text@,
        ),
{
    match outcome {
        Ok(status) => {
            if status.success {
                None
            } else {
                Some(concat2("Command failed with status: ", status_text))
            }
        },
        Err(error) => {
            let text = error.debug();
            Some(concat2("Command error: ", text.as_str()))
        },
    }
}

/// What the surroundings of a command would answer to each request.
pub struct Host {
    /// Whether the platform has Unix permission bits.
    pub permission_bits: bool,
    /// What the file system says of the command's path.
    pub probe: PathProbe,
    /// What the command lookup says of the command's name.
    pub lookup: LookupOutcome,
    /// How starting the command ends.
    pub spawn: Result<ExitStatus, Seq<char>>,
}

/// The event that follows when `host` carries out `step`.
pub open spec fn answer(host: Host, step: ExecStepView) -> ExecEventView {
    match step {
        ExecStepView::Probe => ExecEventView::Probed(host.probe),
        ExecStepView::Lookup => ExecEventView::LookedUp(host.lookup),
        _ => ExecEventView::Spawned(host.spawn),
    }
}

/// The result that `execute` reports when `host` carries out `step` and
/// every step after it, if it reports one within `fuel` answers.
pub open spec fn settle(cmd: ShellCommandView, host: Host, step: ExecStepView, fuel: nat) -> Option<
    Result<ExitStatus, ShellCommandErrorView>,
>
    decreases fuel,
{
    match step {
        ExecStepView::Done(result) => Some(result),
        _ => if fuel == 0 {
            None
        } else {
            settle(
                cmd,
                host,
                next_step(cmd, host.permission_bits, answer(host, step)),
                (fuel - 1) as nat,
            )
        },
    }
}

/// The result of running `cmd` on `host` from the start.
pub open spec fn outcome(cmd: ShellCommandView, host: Host) -> Option<
    Result<ExitStatus, ShellCommandErrorView>,
> {
    settle(cmd, host, next_step(cmd, host.permission_bits, ExecEventView::Start), 3)
}

/// The error that validation raises for `cmd` on `host`, if it raises one.
///
/// Nothing is checked where validation is off. Where the platform has
/// permission bits and the path names an entry, the entry must be a file
/// with an execute bit. In every other case the command lookup must
/// resolve the name.
pub open spec fn validation_error(cmd: ShellCommandView, host: Host) -> Option<
    ShellCommandErrorView,
> {
    if !cmd.validate {
        None
    } else if host.permission_bits && host.probe is Present {
        if !host.probe->is_file {
            Some(ShellCommandErrorView::NotExecutable(cmd.base_command + " is not a file"@))
        } else if !has_execute_bit(host.probe->mode) {
            Some(ShellCommandErrorView::NotExecutable(cmd.base_command + " is not executable"@))
        } else {
            None
        }
    } else if host.lookup is Resolved {
        None
    } else {
        Some(
            ShellCommandErrorView::CommandNotFound(
                "Command "@ + cmd.base_command + " not found"@,
            ),
        )
    }
}

/// Running a command ends within three answers of the host, and with the
/// error of validation where there is one. Otherwise the command is
/// started: the result is its exit status, or `ExecutionFailed` with the
/// operating system's message where it could not be started. A command
/// that fails validation is never started, and one that is not validated
/// is always started.
pub proof fn execute_outcome(cmd: ShellCommandView, host: Host)
    ensures
        outcome(cmd, host) == Some(
            match validation_error(cmd, host) {
                Some(error) => Err(error),
                None => match host.spawn {
                    Ok(status) => Ok(status),
                    Err(message) => Err(
                        ShellCommandErrorView::ExecutionFailed(
                            "Failed to execute command: "@ + message,
                        ),
                    ),
                },
            },
        ),
{
    reveal_with_fuel(settle, 4);
}

} // verus!
