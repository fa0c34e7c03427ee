//! The job body, written as a state machine that a host-side driver advances
//! one step at a time.
//!
//! The driver hands the job an [`Event`] (what just happened) and gets back
//! an [`Action`] (what to do next). The job itself performs no I/O; the
//! driver owns the cancel signal, the status channel, the child process and
//! the log. Every transition is pinned by the relation [`steps_to`], which
//! the contract of [`M2CJob::step`] establishes.
use vstd::prelude::*;
use vstd::pervasive::unreached;
use vstd::utf8::valid_utf8;
use vstd::utf8::decode_utf8;
use crate::config::RunM2CConfig;

verus! {

/// Marker returned by a run that completed normally. It exists to tell
/// "completed" from "failed" in the host's sum type of job results.
#[derive(Default, Debug, Clone)]
pub struct RunM2CResult {}

/// Which captured stream of the child a decode failure is about.
#[derive(Debug, Clone, Copy, PartialEq, Eq, Structural)]
pub enum StreamKind {
    /// The child's standard output.
    Stdout,
    /// The child's standard error.
    Stderr,
}

/// Everything that can end a run without a result.
#[derive(Debug, Clone, Copy, PartialEq, Eq, Structural)]
pub enum JobError {
    /// The configuration carries no project directory.
    Precondition,
    /// The child process could not be started.
    Spawn,
    /// The child's streams could not be read.
    Io,
    /// A captured stream is not valid UTF-8.
    Decode(StreamKind),
    /// A cancel request was observed at a checkpoint.
    Cancelled,
}

impl JobError {
    /// The description of this failure, as a mathematical value.
    pub open spec fn message_spec(self) -> Seq<char> {
        match self {
            JobError::Precondition => "Missing project dir"@,
            JobError::Spawn => "Failed to execute m2c"@,
            JobError::Io => "Failed to read m2c output"@,
            JobError::Decode(StreamKind::Stdout) => "Failed to process stdout"@,
            JobError::Decode(StreamKind::Stderr) => "Failed to process stderr"@,
            JobError::Cancelled => "Cancelled"@,
        }
    }

    /// The human-readable description the host shows for this failure.
    pub fn message(&self) -> (m: String)
        ensures
            m@ == self.message_spec(),
    {
        match self {
            JobError::Precondition => "Missing project dir".to_owned(),
            JobError::Spawn => "Failed to execute m2c".to_owned(),
            JobError::Io => "Failed to read m2c output".to_owned(),
            JobError::Decode(StreamKind::Stdout) => "Failed to process stdout".to_owned(),
            JobError::Decode(StreamKind::Stderr) => "Failed to process stderr".to_owned(),
            JobError::Cancelled => "Cancelled".to_owned(),
        }
    }
}

/// A fully determined child-process invocation, as plain values.
#[derive(Debug, Clone)]
pub struct CommandSpec {
    /// The program to run.
    pub program: String,
    /// Its positional arguments, in order.
    pub args: Vec<String>,
    /// The working directory to run it in.
    pub cwd: String,
    /// Abstract platform hint: where a spawn would otherwise open a console
    /// window, the window is suppressed.
    pub suppress_console: bool,
}

/// What the host driver reports back to the job after carrying out the
/// previous action.
#[derive(Debug)]
pub enum Event {
    /// The run was taken off the queue and started.
    Start,
    /// The cancel signal was polled; `true` means a cancel request was seen.
    CancelPolled(bool),
    /// The pending status update was delivered to the host.
    Pushed,
    /// The child process could not be started.
    SpawnFailed,
    /// The child started, but its streams could not be read.
    ReadFailed,
    /// The child ran to completion with these captured streams.
    ChildExited {
        /// Everything the child wrote to its standard output.
        stdout: Vec<u8>,
        /// Everything the child wrote to its standard error.
        stderr: Vec<u8>,
    },
    /// The pending texts were written to the host log.
    Logged,
}

/// What the job asks the host driver to do next.
#[derive(Debug)]
pub enum Action {
    /// Poll the cancel signal without blocking.
    PollCancel,
    /// Push one status update to the host: a message and a step counter.
    PushStatus {
        /// The human-readable status message.
        message: String,
        /// The step just reached, starting at 1.
        current: u32,
        /// The total number of steps of this run.
        total: u32,
    },
    /// Run the child process to completion, capturing both streams.
    Spawn(CommandSpec),
    /// Write both captured texts to the host log at informational severity,
    /// standard output first.
    LogOutput {
        /// The child's decoded standard output.
        stdout: String,
        /// The child's decoded standard error.
        stderr: String,
    },
    /// The run is over with this outcome; no further actions follow.
    Finish(Result<RunM2CResult, JobError>),
}

/// Where a run stands between two steps.
#[derive(Debug, Clone, Copy, PartialEq, Eq, Structural)]
pub enum Phase {
    /// Nothing has happened yet.
    Init,
    /// Checkpoint A: the cancel signal is being polled before the first
    /// status update.
    PollA,
    /// The first status update is being pushed.
    PushA,
    /// The child process is running.
    Child,
    /// The captured texts are being logged.
    LogWait,
    /// Checkpoint B: the cancel signal is being polled before the final
    /// status update.
    PollB,
    /// The final status update is being pushed.
    PushB,
    /// The run is over.
    Done,
}

/// True of an action that polls the cancel signal.
pub open spec fn is_poll(a: Action) -> bool {
    a is PollCancel
}

/// True of an action that pushes a status update.
pub open spec fn is_push(a: Action) -> bool {
    a matches Action::PushStatus { .. }
}

/// True of the checkpoint A status update: `("Running M2C", 1, 2)`.
pub open spec fn is_push_a(a: Action) -> bool {
    a matches Action::PushStatus { message, current, total }
        && message@ == "Running M2C"@ && current == 1u32 && total == 2u32
}

/// True of the checkpoint B status update: `("Complete", 2, 2)`.
pub open spec fn is_push_b(a: Action) -> bool {
    a matches Action::PushStatus { message, current, total }
        && message@ == "Complete"@ && current == 2u32 && total == 2u32
}

/// True of an action that spawns the child process.
pub open spec fn is_spawn(a: Action) -> bool {
    a matches Action::Spawn(_)
}

/// True of an action that logs the child's output.
pub open spec fn is_log(a: Action) -> bool {
    a matches Action::LogOutput { .. }
}

/// The exact child invocation the job owes for this configuration:
/// `python tools/decomp.py <function_name> --valid-syntax --no-casts`,
/// run inside the project directory, console window suppressed.
pub open spec fn command_ok(config: RunM2CConfig, c: CommandSpec) -> bool {
    &&& c.program@ == "python"@
    &&& config.build_config.project_dir matches Some(dir) && c.cwd@ == dir@
    &&& c.args@.len() == 4
    &&& c.args@[0]@ == "tools/decomp.py"@
    &&& c.args@[1]@ == config.function_name@
    &&& c.args@[2]@ == "--valid-syntax"@
    &&& c.args@[3]@ == "--no-casts"@
    &&& c.suppress_console
}

/// Which driver event each phase is waiting for.
pub open spec fn accepts(p: Phase, e: Event) -> bool {
    match p {
        Phase::Init => e is Start,
        Phase::PollA => e matches Event::CancelPolled(_),
        Phase::PushA => e is Pushed,
        Phase::Child => e is SpawnFailed || e is ReadFailed
            || e matches Event::ChildExited { .. },
        Phase::LogWait => e is Logged,
        Phase::PollB => e matches Event::CancelPolled(_),
        Phase::PushB => e is Pushed,
        Phase::Done => false,
    }
}

/// The job's transition relation: from state `pre`, on driver event `event`,
/// the job moves to `post` and asks the driver to perform `action`.
pub open spec fn steps_to(pre: M2CJob, event: Event, post: M2CJob, action: Action) -> bool {
    &&& post.config == pre.config
    &&& match pre.phase {
        Phase::Init => event is Start && (
            if pre.config.build_config.project_dir is None {
                &&& post.phase == Phase::Done
                &&& action matches Action::Finish(Err(JobError::Precondition))
            } else {
                &&& post.phase == Phase::PollA
                &&& is_poll(action)
            }),
        Phase::PollA => event matches Event::CancelPolled(cancelled) && (
            if cancelled {
                &&& post.phase == Phase::Done
                &&& action matches Action::Finish(Err(JobError::Cancelled))
            } else {
                &&& post.phase == Phase::PushA
                &&& is_push_a(action)
            }),
        Phase::PushA => {
            &&& event is Pushed
            &&& post.phase == Phase::Child
            &&& action matches Action::Spawn(c) && command_ok(pre.config, c)
        },
        Phase::Child => match event {
            Event::SpawnFailed => {
                &&& post.phase == Phase::Done
                &&& action matches Action::Finish(Err(JobError::Spawn))
            },
            Event::ReadFailed => {
                &&& post.phase == Phase::Done
                &&& action matches Action::Finish(Err(JobError::Io))
            },
            Event::ChildExited { stdout, stderr } => {
                if !valid_utf8(stdout@) {
                    &&& post.phase == Phase::Done
                    &&& action matches Action::Finish(Err(JobError::Decode(StreamKind::Stdout)))
                } else if !valid_utf8(stderr@) {
                    &&& post.phase == Phase::Done
                    &&& action matches Action::Finish(Err(JobError::Decode(StreamKind::Stderr)))
                } else {
                    &&& post.phase == Phase::LogWait
                    &&& action matches Action::LogOutput { stdout: out_text, stderr: err_text }
                        && out_text@ == decode_utf8(stdout@) && err_text@ == decode_utf8(stderr@)
                }
            },
            _ => false,
        },
        Phase::LogWait => {
            &&& event is Logged
            &&& post.phase == Phase::PollB
            &&& is_poll(action)
        },
        Phase::PollB => event matches Event::CancelPolled(cancelled) && (
            if cancelled {
                &&& post.phase == Phase::Done
                &&& action matches Action::Finish(Err(JobError::Cancelled))
            } else {
                &&& post.phase == Phase::PushB
                &&& is_push_b(action)
            }),
        Phase::PushB => {
            &&& event is Pushed
            &&& post.phase == Phase::Done
            &&& action matches Action::Finish(Ok(_))
        },
        Phase::Done => false,
    }
}

/// One job invocation, advanced step by step by the host driver.
pub struct M2CJob {
    /// The input this run was started with; never changes.
    pub config: RunM2CConfig,
    /// Where the run stands.
    pub phase: Phase,
}

impl M2CJob {
    /// A job can only be past its precondition check while a project
    /// directory is at hand.
    pub open spec fn wf(self) -> bool {
        self.phase != Phase::Init && self.phase != Phase::Done
            ==> self.config.build_config.project_dir is Some
    }

    /// A job ready to start on this input.
    pub fn new(config: RunM2CConfig) -> (job: M2CJob)
        ensures
            job.config == config,
            job.phase == Phase::Init,
            job.wf(),
    {
        M2CJob { config, phase: Phase::Init }
    }

    /// Advance the run by one step: consume the driver's report of what just
    /// happened and pick the next action.
    pub fn step(&mut self, event: Event) -> (action: Action)
        requires
            old(self).wf(),
            accepts(old(self).phase, event),
        ensures
            final(self).wf(),
            steps_to(*old(self), event, *final(self), action),
    {
        match event {
            Event::Start => {
                if self.config.build_config.project_dir.is_some() {
                    self.phase = Phase::PollA;
                    Action::PollCancel
                } else {
                    self.phase = Phase::Done;
                    Action::Finish(Err(JobError::Precondition))
                }
            },
            Event::CancelPolled(cancelled) => {
                if cancelled {
                    self.phase = Phase::Done;
                    Action::Finish(Err(JobError::Cancelled))
                } else if self.phase == Phase::PollA {
                    self.phase = Phase::PushA;
                    Action::PushStatus { message: "Running M2C".to_owned(), current: 1, total: 2 }
                } else {
                    self.phase = Phase::PushB;
                    Action::PushStatus { message: "Complete".to_owned(), current: 2, total: 2 }
                }
            },
            Event::Pushed => {
                if self.phase == Phase::PushA {
                    let command = match &self.config.build_config.project_dir {
                        Some(dir) => build_command(dir, &self.config.function_name),
                        None => unreached(),
                    };
                    self.phase = Phase::Child;
                    Action::Spawn(command)
                } else {
                    self.phase = Phase::Done;
                    Action::Finish(Ok(RunM2CResult {}))
                }
            },
            Event::SpawnFailed => {
                self.phase = Phase::Done;
                Action::Finish(Err(JobError::Spawn))
            },
            Event::ReadFailed => {
                self.phase = Phase::Done;
                Action::Finish(Err(JobError::Io))
            },
            Event::ChildExited { stdout, stderr } => {
                match decode_stream(stdout) {
                    None => {
                        self.phase = Phase::Done;
                        Action::Finish(Err(JobError::Decode(StreamKind::Stdout)))
                    },
                    Some(out_text) => match decode_stream(stderr) {
                        None => {
                            self.phase = Phase::Done;
                            Action::Finish(Err(JobError::Decode(StreamKind::Stderr)))
                        },
                        Some(err_text) => {
                            self.phase = Phase::LogWait;
                            Action::LogOutput { stdout: out_text, stderr: err_text }
                        },
                    },
                }
            },
            Event::Logged => {
                self.phase = Phase::PollB;
                Action::PollCancel
            },
        }
    }
}

/// The child invocation for this run; see [`command_ok`].
fn build_command(project_dir: &String, function_name: &String) -> (c: CommandSpec)
    ensures
        c.program@ == "python"@,
        c.cwd@ == project_dir@,
        c.args@.len() == 4,
        c.args@[0]@ == "tools/decomp.py"@,
        c.args@[1]@ == function_name@,
        c.args@[2]@ == "--valid-syntax"@,
        c.args@[3]@ == "--no-casts"@,
        c.suppress_console,
{
    let mut args: Vec<String> = Vec::new();
    args.push("tools/decomp.py".to_owned());
    args.push(function_name.clone());
    args.push("--valid-syntax".to_owned());
    args.push("--no-casts".to_owned());
    CommandSpec {
        program: "python".to_owned(),
        args,
        cwd: project_dir.clone(),
        suppress_console: true,
    }
}

/// Relies on core::str::from_utf8: it returns the text exactly when the
/// bytes are valid UTF-8, and the text's characters are their decoding.
#[verifier::external_body]
fn decode_stream(bytes: Vec<u8>) -> (r: Option<String>)
    ensures
        r is Some <==> valid_utf8(bytes@),
        r matches Some(text) ==> text@ == decode_utf8(bytes@),
{
    match core::str::from_utf8(&bytes) {
        Ok(text) => Some(text.to_owned()),
        Err(_) => None,
    }
}

} // verus!
