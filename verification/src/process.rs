//! The supervisor of one child process, and the operations on it.
//!
//! Each operation is a state machine. One call of its function is one step:
//! it takes the phase the operation is in and the event the host reports,
//! changes the supervisor, and returns the next phase together with the
//! [`Step`]: the action the host performs next, or the operation's outcome.
//! An operation begins in the phase `Begin` with [`Event::Begin`].
use crate::pid_file::{
    decimal, format_pid, parse_pid, pid_file_path, pid_file_path_of, pid_of_text,
    proc_cmdline_path, proc_cmdline_path_of,
};
use crate::protocol::{
    texts_of, unexpected, Action, ActionView, Event, EventView, Failure, OutputStream,
    SpawnRequest, SpawnRequestView, Step, StepView,
};
use vstd::prelude::*;
use vstd::string::*;

verus! {

/// The seconds between two polls of the child's state.
pub const POLL_INTERVAL_SECS: u64 = 1;

/// The seconds that pass before each (re)start of the child in the restart loop.
pub const RESTART_BACKOFF_SECS: u64 = 1;

/// The command line of the child, set once when the supervisor is made.
#[derive(Debug, Clone)]
pub struct Cmdline {
    /// The executable.
    pub command: String,
    /// Its arguments, in order.
    pub args: Vec<String>,
    /// The working directory.
    pub path: String,
}

/// A [`Cmdline`] as plain sequences of characters.
pub struct CmdlineView {
    pub command: Seq<char>,
    pub args: Seq<Seq<char>>,
    pub path: Seq<char>,
}

impl View for Cmdline {
    type V = CmdlineView;

    open spec fn view(&self) -> CmdlineView {
        CmdlineView { command: self.command@, args: texts_of(self.args@), path: self.path@ }
    }
}

impl Cmdline {
    /// A command line made of copies of the given texts.
    pub fn new(command: &str, args: &Vec<&str>, path: &str) -> (cmdline: Cmdline)
        ensures
            cmdline@.command == command@,
            cmdline@.args == Seq::new(args@.len(), |i: int| args@[i]@),
            cmdline@.path == path@,
    {
        let mut owned: Vec<String> = Vec::new();
        let mut i: usize = 0;
        while i < args.len()
            invariant
                i <= args.len(),
                owned@.len() == i,
                forall|j: int| 0 <= j < i ==> (#[trigger] owned@[j])@ == args@[j]@,
            decreases args.len() - i,
        {
            owned.push(args[i].to_owned());
            i += 1;
        }
        let cmdline = Cmdline { command: command.to_owned(), args: owned, path: path.to_owned() };
        assert(cmdline@.args =~= Seq::new(args@.len(), |i: int| args@[i]@));
        cmdline
    }
}

/// Which background tasks the supervisor has in its task set.
#[derive(Debug, Clone, Copy, PartialEq, Eq, Structural)]
pub struct TaskSet {
    /// The task that reaps an orphan of an earlier run.
    pub reaper: bool,
    /// The task that drains the child's standard output.
    pub stdout_drain: bool,
    /// The task that drains the child's standard error.
    pub stderr_drain: bool,
}

impl TaskSet {
    /// The set that holds no task.
    pub open spec fn none() -> TaskSet {
        TaskSet { reaper: false, stdout_drain: false, stderr_drain: false }
    }

    /// The set that holds the reaper alone, as a new supervisor has it.
    pub open spec fn reaper_only() -> TaskSet {
        TaskSet { reaper: true, stdout_drain: false, stderr_drain: false }
    }

    /// The set that holds the two drain tasks of one child and nothing else.
    pub open spec fn drain_pair() -> TaskSet {
        TaskSet { reaper: false, stdout_drain: true, stderr_drain: true }
    }
}

/// The supervisor of one child process.
///
/// `current` stands for the handle of the live child: it holds the child's
/// process identifier from the moment it was spawned until its exit was seen.
#[derive(Debug)]
pub struct ProcessRunner {
    /// Handed to the child as `WORKER_ID`.
    pub worker_id: String,
    /// Whether the restart loop starts the child again after it has exited.
    pub should_restart: bool,
    /// Names the PID file and tags the output.
    pub name: String,
    /// The command that is supervised.
    pub cmdline: Cmdline,
    /// The process identifier of the child, while it is taken to be alive.
    pub current: Option<u32>,
    /// What the child has written to its standard output since it was started.
    pub stdout: String,
    /// What the child has written to its standard error since it was started.
    pub stderr: String,
    /// The background tasks that were launched and not yet joined.
    pub tasks: TaskSet,
}

/// A [`ProcessRunner`] as plain values.
pub struct RunnerView {
    pub worker_id: Seq<char>,
    pub should_restart: bool,
    pub name: Seq<char>,
    pub cmdline: CmdlineView,
    pub current: Option<u32>,
    pub stdout: Seq<char>,
    pub stderr: Seq<char>,
    pub tasks: TaskSet,
}

impl View for ProcessRunner {
    type V = RunnerView;

    open spec fn view(&self) -> RunnerView {
        RunnerView {
            worker_id: self.worker_id@,
            should_restart: self.should_restart,
            name: self.name@,
            cmdline: self.cmdline@,
            current: self.current,
            stdout: self.stdout@,
            stderr: self.stderr@,
            tasks: self.tasks,
        }
    }
}

/// Where a [`ProcessRunner::stop`] stands.
#[derive(Debug, Clone, Copy, PartialEq, Eq, Structural)]
pub enum StopPhase {
    Begin,
    /// The PID file is being read, to see whether it names the child.
    ReadingPidFile,
    RemovingPidFile,
    Killing,
    /// The child was killed and its exit is awaited.
    Waiting,
    /// The background tasks are being aborted and joined.
    Draining,
    Done,
}

/// Where a [`ProcessRunner::start`] stands.
#[derive(Debug, Clone, Copy, PartialEq, Eq, Structural)]
pub enum StartPhase {
    /// The instance that ran before is being stopped.
    Stopping(StopPhase),
    /// What is left of the background tasks is being aborted and joined.
    Draining,
    Spawning,
    WritingPidFile,
    /// The drain tasks of the new child are being launched.
    Launching,
    Done,
}

impl StartPhase {
    /// The phase in which a start begins: with the stop of the instance before.
    pub open spec fn begin() -> StartPhase {
        StartPhase::Stopping(StopPhase::Begin)
    }
}

/// The request that spawns the child of the supervisor `r`.
pub open spec fn spawn_request_of(r: RunnerView) -> SpawnRequestView {
    SpawnRequestView {
        command: r.cmdline.command,
        args: r.cmdline.args,
        working_dir: r.cmdline.path,
        worker_id: r.worker_id,
    }
}

/// One step of a stop: the supervisor after it, the next phase, and what the
/// host does next.
///
/// With no child the stop is over at once and asks for nothing. With a child
/// it reads the PID file, removes it if it names the child and leaves it where
/// it names another, kills the child, waits for its exit, forgets the child,
/// and has every background task aborted and joined. The first action that
/// fails ends the stop with its failure, and what was done stays done.
pub open spec fn stop_step(r: RunnerView, phase: StopPhase, event: EventView) -> (
    RunnerView,
    StopPhase,
    StepView,
) {
    match phase {
        StopPhase::Begin => match r.current {
            None => (r, StopPhase::Done, StepView::Finished(Ok(()))),
            Some(_) => (
                r,
                StopPhase::ReadingPidFile,
                StepView::Do(ActionView::ReadFile { path: pid_file_path_of(r.name) }),
            ),
        },
        StopPhase::ReadingPidFile => match (event, r.current) {
            (EventView::Text(text), Some(pid)) => if text == decimal(pid as nat) {
                (
                    r,
                    StopPhase::RemovingPidFile,
                    StepView::Do(ActionView::RemoveFile { path: pid_file_path_of(r.name) }),
                )
            } else {
                (r, StopPhase::Killing, StepView::Do(ActionView::KillChild))
            },
            (EventView::Failed, _) => (
                r,
                StopPhase::Done,
                StepView::Finished(Err(Failure::ReadPidFile)),
            ),
            _ => (r, StopPhase::Done, unexpected()),
        },
        StopPhase::RemovingPidFile => match event {
            EventView::Done => (r, StopPhase::Killing, StepView::Do(ActionView::KillChild)),
            EventView::Failed => (
                r,
                StopPhase::Done,
                StepView::Finished(Err(Failure::RemovePidFile)),
            ),
            _ => (r, StopPhase::Done, unexpected()),
        },
        StopPhase::Killing => match event {
            EventView::Done => (r, StopPhase::Waiting, StepView::Do(ActionView::WaitChild)),
            EventView::Failed => (r, StopPhase::Done, StepView::Finished(Err(Failure::KillChild))),
            _ => (r, StopPhase::Done, unexpected()),
        },
        StopPhase::Waiting => match event {
            EventView::Done => (
                RunnerView { current: None, ..r },
                StopPhase::Draining,
                StepView::Do(ActionView::AbortTasks),
            ),
            EventView::Failed => (r, StopPhase::Done, StepView::Finished(Err(Failure::WaitChild))),
            _ => (r, StopPhase::Done, unexpected()),
        },
        StopPhase::Draining => match event {
            EventView::Done => (
                RunnerView { tasks: TaskSet::none(), ..r },
                StopPhase::Done,
                StepView::Finished(Ok(())),
            ),
            _ => (r, StopPhase::Done, unexpected()),
        },
        StopPhase::Done => (r, StopPhase::Done, unexpected()),
    }
}

/// How a step of the stop inside a start shows as a step of the start: the
/// stop's actions are the start's, its failure ends the start, and once it is
/// over the start has the remaining background tasks aborted and joined.
pub open spec fn start_after_stop(stopped: (RunnerView, StopPhase, StepView)) -> (
    RunnerView,
    StartPhase,
    StepView,
) {
    match stopped.2 {
        StepView::Do(action) => (stopped.0, StartPhase::Stopping(stopped.1), StepView::Do(action)),
        StepView::Finished(Err(failure)) => (
            stopped.0,
            StartPhase::Done,
            StepView::Finished(Err(failure)),
        ),
        StepView::Finished(Ok(_)) => (
            stopped.0,
            StartPhase::Draining,
            StepView::Do(ActionView::AbortTasks),
        ),
    }
}

/// One step of a start: the supervisor after it, the next phase, and what the
/// host does next.
///
/// A start stops the instance that ran before, has the remaining background
/// tasks aborted and joined, empties both output buffers, spawns the child,
/// writes the child's process identifier to the PID file, and has the two drain
/// tasks launched. The child is remembered as soon as it was spawned, the
/// drain tasks once they were launched. The first action that fails ends the
/// start with its failure, and what was done stays done.
pub open spec fn start_step(r: RunnerView, phase: StartPhase, event: EventView) -> (
    RunnerView,
    StartPhase,
    StepView,
) {
    match phase {
        StartPhase::Stopping(inner) => start_after_stop(stop_step(r, inner, event)),
        StartPhase::Draining => match event {
            EventView::Done => {
                let cleared = RunnerView {
                    tasks: TaskSet::none(),
                    stdout: Seq::empty(),
                    stderr: Seq::empty(),
                    ..r
                };
                (
                    cleared,
                    StartPhase::Spawning,
                    StepView::Do(ActionView::Spawn { request: spawn_request_of(r) }),
                )
            },
            _ => (r, StartPhase::Done, unexpected()),
        },
        StartPhase::Spawning => match event {
            EventView::Spawned { pid } => (
                RunnerView { current: Some(pid), ..r },
                StartPhase::WritingPidFile,
                StepView::Do(
                    ActionView::WriteFile {
                        path: pid_file_path_of(r.name),
                        text: decimal(pid as nat),
                    },
                ),
            ),
            EventView::Failed => (r, StartPhase::Done, StepView::Finished(Err(Failure::Spawn))),
            _ => (r, StartPhase::Done, unexpected()),
        },
        StartPhase::WritingPidFile => match event {
            EventView::Done => (r, StartPhase::Launching, StepView::Do(ActionView::LaunchDrains)),
            EventView::Failed => (
                r,
                StartPhase::Done,
                StepView::Finished(Err(Failure::WritePidFile)),
            ),
            _ => (r, StartPhase::Done, unexpected()),
        },
        StartPhase::Launching => match event {
            EventView::Done => (
                RunnerView {
                    tasks: TaskSet { stdout_drain: true, stderr_drain: true, ..r.tasks },
                    ..r
                },
                StartPhase::Done,
                StepView::Finished(Ok(())),
            ),
            _ => (r, StartPhase::Done, unexpected()),
        },
        StartPhase::Done => (r, StartPhase::Done, unexpected()),
    }
}

fn failed(failure: Failure) -> (step: Step)
    ensures
        step@ == StepView::Finished(Err(failure)),
{
    Step::Finished(Err(failure))
}

fn copy_texts(texts: &Vec<String>) -> (copy: Vec<String>)
    ensures
        texts_of(copy@) == texts_of(texts@),
{
    let mut copy: Vec<String> = Vec::new();
    let mut i: usize = 0;
    while i < texts.len()
        invariant
            i <= texts.len(),
            copy@.len() == i,
            forall|j: int| 0 <= j < i ==> (#[trigger] copy@[j])@ == texts@[j]@,
        decreases texts.len() - i,
    {
        copy.push(texts[i].clone());
        i += 1;
    }
    assert(texts_of(copy@) =~= texts_of(texts@));
    copy
}

impl ProcessRunner {
    /// A supervisor for the command `cmdline`: no child yet, restarts wanted,
    /// both output buffers empty, and the reaper as its only background task.
    pub fn new(worker_id: String, name: String, cmdline: Cmdline) -> (runner: ProcessRunner)
        ensures
            runner@ == (RunnerView {
                worker_id: worker_id@,
                should_restart: true,
                name: name@,
                cmdline: cmdline@,
                current: None,
                stdout: Seq::empty(),
                stderr: Seq::empty(),
                tasks: TaskSet::reaper_only(),
            }),
    {
        ProcessRunner {
            worker_id,
            should_restart: true,
            name,
            cmdline,
            current: None,
            stdout: String::new(),
            stderr: String::new(),
            tasks: TaskSet { reaper: true, stdout_drain: false, stderr_drain: false },
        }
    }

    /// The request that spawns the child: the configured command line and the
    /// worker identifier.
    pub fn spawn_request(&self) -> (request: SpawnRequest)
        ensures
            request@ == spawn_request_of(self@),
    {
        SpawnRequest {
            command: self.cmdline.command.clone(),
            args: copy_texts(&self.cmdline.args),
            working_dir: self.cmdline.path.clone(),
            worker_id: self.worker_id.clone(),
        }
    }

    /// One step of stopping the child: see [`stop_step`].
    pub fn stop(&mut self, phase: StopPhase, event: Event) -> (next: (StopPhase, Step))
        ensures
            (final(self)@, next.0, next.1@) == stop_step(old(self)@, phase, event@),
    {
        match phase {
            StopPhase::Begin => match self.current {
                None => (StopPhase::Done, Step::Finished(Ok(()))),
                Some(_) => {
                    let path = pid_file_path(self.name.as_str());
                    (StopPhase::ReadingPidFile, Step::Do(Action::ReadFile { path }))
                },
            },
            StopPhase::ReadingPidFile => match event {
                Event::Text(text) => match self.current {
                    Some(pid) => {
                        let expected = format_pid(pid);
                        if text == expected {
                            let path = pid_file_path(self.name.as_str());
                            (StopPhase::RemovingPidFile, Step::Do(Action::RemoveFile { path }))
                        } else {
                            (StopPhase::Killing, Step::Do(Action::KillChild))
                        }
                    },
                    None => (StopPhase::Done, failed(Failure::UnexpectedEvent)),
                },
                Event::Failed => (StopPhase::Done, failed(Failure::ReadPidFile)),
                _ => (StopPhase::Done, failed(Failure::UnexpectedEvent)),
            },
            StopPhase::RemovingPidFile => match event {
                Event::Done => (StopPhase::Killing, Step::Do(Action::KillChild)),
                Event::Failed => (StopPhase::Done, failed(Failure::RemovePidFile)),
                _ => (StopPhase::Done, failed(Failure::UnexpectedEvent)),
            },
            StopPhase::Killing => match event {
                Event::Done => (StopPhase::Waiting, Step::Do(Action::WaitChild)),
                Event::Failed => (StopPhase::Done, failed(Failure::KillChild)),
                _ => (StopPhase::Done, failed(Failure::UnexpectedEvent)),
            },
            StopPhase::Waiting => match event {
                Event::Done => {
                    self.current = None;
                    (StopPhase::Draining, Step::Do(Action::AbortTasks))
                },
                Event::Failed => (StopPhase::Done, failed(Failure::WaitChild)),
                _ => (StopPhase::Done, failed(Failure::UnexpectedEvent)),
            },
            StopPhase::Draining => match event {
                Event::Done => {
                    self.tasks = TaskSet { reaper: false, stdout_drain: false, stderr_drain: false };
                    (StopPhase::Done, Step::Finished(Ok(())))
                },
                _ => (StopPhase::Done, failed(Failure::UnexpectedEvent)),
            },
            StopPhase::Done => (StopPhase::Done, failed(Failure::UnexpectedEvent)),
        }
    }

    /// One step of starting the child: see [`start_step`].
    pub fn start(&mut self, phase: StartPhase, event: Event) -> (next: (StartPhase, Step))
        ensures
            (final(self)@, next.0, next.1@) == start_step(old(self)@, phase, event@),
    {
        match phase {
            StartPhase::Stopping(inner) => {
                let (stop_phase, step) = self.stop(inner, event);
                match step {
                    Step::Do(action) => (StartPhase::Stopping(stop_phase), Step::Do(action)),
                    Step::Finished(Err(failure)) => (StartPhase::Done, failed(failure)),
                    Step::Finished(Ok(_)) => (StartPhase::Draining, Step::Do(Action::AbortTasks)),
                }
            },
            StartPhase::Draining => match event {
                Event::Done => {
                    let request = self.spawn_request();
                    self.tasks = TaskSet { reaper: false, stdout_drain: false, stderr_drain: false };
                    self.stdout = String::new();
                    self.stderr = String::new();
                    (StartPhase::Spawning, Step::Do(Action::Spawn { request }))
                },
                _ => (StartPhase::Done, failed(Failure::UnexpectedEvent)),
            },
            StartPhase::Spawning => match event {
                Event::Spawned { pid } => {
                    self.current = Some(pid);
                    let path = pid_file_path(self.name.as_str());
                    let text = format_pid(pid);
                    (StartPhase::WritingPidFile, Step::Do(Action::WriteFile { path, text }))
                },
                Event::Failed => (StartPhase::Done, failed(Failure::Spawn)),
                _ => (StartPhase::Done, failed(Failure::UnexpectedEvent)),
            },
            StartPhase::WritingPidFile => match event {
                Event::Done => (StartPhase::Launching, Step::Do(Action::LaunchDrains)),
                Event::Failed => (StartPhase::Done, failed(Failure::WritePidFile)),
                _ => (StartPhase::Done, failed(Failure::UnexpectedEvent)),
            },
            StartPhase::Launching => match event {
                Event::Done => {
                    self.tasks.stdout_drain = true;
                    self.tasks.stderr_drain = true;
                    (StartPhase::Done, Step::Finished(Ok(())))
                },
                _ => (StartPhase::Done, failed(Failure::UnexpectedEvent)),
            },
            StartPhase::Done => (StartPhase::Done, failed(Failure::UnexpectedEvent)),
        }
    }
}

/// Where a [`ProcessRunner::reap_orphans`] stands.
#[derive(Debug, Clone, Copy, PartialEq, Eq, Structural)]
pub enum ReapPhase {
    Begin,
    ReadingPidFile,
    /// The system is being asked whether the process `pid`, which the PID file
    /// names, still exists.
    Probing { pid: u32 },
    Killing,
    RemovingPidFile,
    Done,
}

/// Where a [`ProcessRunner::drain_tasks`] stands.
#[derive(Debug, Clone, Copy, PartialEq, Eq, Structural)]
pub enum DrainPhase {
    Begin,
    Aborting,
    Done,
}

/// Where a [`ProcessRunner::wait_until_stop`] stands.
#[derive(Debug, Clone, Copy, PartialEq, Eq, Structural)]
pub enum WaitPhase {
    Begin,
    Sleeping,
    Polling,
    Done,
}

/// Where a [`ProcessRunner::start_and_loop`] stands.
#[derive(Debug, Clone, Copy, PartialEq, Eq, Structural)]
pub enum LoopPhase {
    Begin,
    /// The delay before the next start is running.
    Backoff,
    Starting(StartPhase),
    /// The child runs and its exit is watched for.
    Watching(WaitPhase),
    /// The loop has ended, and will not start the child again.
    Stopped,
}

/// A snapshot of the supervisor's state.
#[derive(Debug, Clone, PartialEq, Eq)]
pub struct Status {
    /// The worker identifier.
    pub process_id: String,
    pub name: String,
    /// Whether the child was alive when it was probed.
    pub running: bool,
    /// The child's process identifier, while it runs.
    pub pid: Option<u32>,
    /// All that the standard-output buffer holds.
    pub stdout: String,
    /// All that the standard-error buffer holds.
    pub stderr: String,
}

/// A [`Status`] as plain values.
pub struct StatusView {
    pub process_id: Seq<char>,
    pub name: Seq<char>,
    pub running: bool,
    pub pid: Option<u32>,
    pub stdout: Seq<char>,
    pub stderr: Seq<char>,
}

impl View for Status {
    type V = StatusView;

    open spec fn view(&self) -> StatusView {
        StatusView {
            process_id: self.process_id@,
            name: self.name@,
            running: self.running,
            pid: self.pid,
            stdout: self.stdout@,
            stderr: self.stderr@,
        }
    }
}

/// One step of reaping the orphan of the worker called `name`: the next phase
/// and what the host does next.
///
/// Where the PID file cannot be read there is nothing to reap. Where its text
/// is no process identifier the reaping fails. Otherwise the system's record
/// of that process is read: if there is none the PID file is stale and is
/// removed; if there is one the process gets the kill signal and the PID file
/// is removed after that. A kill or a removal that fails ends the reaping with
/// that failure.
pub open spec fn reap_step(name: Seq<char>, phase: ReapPhase, event: EventView) -> (
    ReapPhase,
    StepView,
) {
    match phase {
        ReapPhase::Begin => (
            ReapPhase::ReadingPidFile,
            StepView::Do(ActionView::ReadFile { path: pid_file_path_of(name) }),
        ),
        ReapPhase::ReadingPidFile => match event {
            EventView::Text(text) => match pid_of_text(text) {
                Some(pid) => (
                    ReapPhase::Probing { pid },
                    StepView::Do(ActionView::ReadFile { path: proc_cmdline_path_of(pid) }),
                ),
                None => (ReapPhase::Done, StepView::Finished(Err(Failure::MalformedPidFile))),
            },
            EventView::Failed => (ReapPhase::Done, StepView::Finished(Ok(()))),
            _ => (ReapPhase::Done, unexpected()),
        },
        ReapPhase::Probing { pid } => match event {
            EventView::Text(_) => (
                ReapPhase::Killing,
                StepView::Do(ActionView::KillProcess { pid }),
            ),
            EventView::Failed => (
                ReapPhase::RemovingPidFile,
                StepView::Do(ActionView::RemoveFile { path: pid_file_path_of(name) }),
            ),
            _ => (ReapPhase::Done, unexpected()),
        },
        ReapPhase::Killing => match event {
            EventView::Done => (
                ReapPhase::RemovingPidFile,
                StepView::Do(ActionView::RemoveFile { path: pid_file_path_of(name) }),
            ),
            EventView::Failed => (ReapPhase::Done, StepView::Finished(Err(Failure::KillOrphan))),
            _ => (ReapPhase::Done, unexpected()),
        },
        ReapPhase::RemovingPidFile => match event {
            EventView::Done => (ReapPhase::Done, StepView::Finished(Ok(()))),
            EventView::Failed => (
                ReapPhase::Done,
                StepView::Finished(Err(Failure::RemovePidFile)),
            ),
            _ => (ReapPhase::Done, unexpected()),
        },
        ReapPhase::Done => (ReapPhase::Done, unexpected()),
    }
}

/// One step of draining the background tasks: they are aborted and joined, and
/// after that the task set is empty.
pub open spec fn drain_step(r: RunnerView, phase: DrainPhase, event: EventView) -> (
    RunnerView,
    DrainPhase,
    StepView,
) {
    match phase {
        DrainPhase::Begin => (r, DrainPhase::Aborting, StepView::Do(ActionView::AbortTasks)),
        DrainPhase::Aborting => match event {
            EventView::Done => (
                RunnerView { tasks: TaskSet::none(), ..r },
                DrainPhase::Done,
                StepView::Finished(Ok(())),
            ),
            _ => (r, DrainPhase::Done, unexpected()),
        },
        DrainPhase::Done => (r, DrainPhase::Done, unexpected()),
    }
}

/// One step of waiting for the child's exit.
///
/// The wait sleeps for [`POLL_INTERVAL_SECS`], then polls the child, and so on
/// until the child has exited: then it forgets the child and is over. It is
/// also over when, after a sleep, there is no child to poll. A poll that fails
/// ends the wait with that failure.
pub open spec fn wait_step(r: RunnerView, phase: WaitPhase, event: EventView) -> (
    RunnerView,
    WaitPhase,
    StepView,
) {
    match phase {
        WaitPhase::Begin => (
            r,
            WaitPhase::Sleeping,
            StepView::Do(ActionView::Sleep { seconds: POLL_INTERVAL_SECS }),
        ),
        WaitPhase::Sleeping => match event {
            EventView::Done => match r.current {
                Some(_) => (r, WaitPhase::Polling, StepView::Do(ActionView::PollChild)),
                None => (r, WaitPhase::Done, StepView::Finished(Ok(()))),
            },
            _ => (r, WaitPhase::Done, unexpected()),
        },
        WaitPhase::Polling => match event {
            EventView::ChildExited => (
                RunnerView { current: None, ..r },
                WaitPhase::Done,
                StepView::Finished(Ok(())),
            ),
            EventView::ChildRunning => (
                r,
                WaitPhase::Sleeping,
                StepView::Do(ActionView::Sleep { seconds: POLL_INTERVAL_SECS }),
            ),
            EventView::Failed => (r, WaitPhase::Done, StepView::Finished(Err(Failure::PollChild))),
            _ => (r, WaitPhase::Done, unexpected()),
        },
        WaitPhase::Done => (r, WaitPhase::Done, unexpected()),
    }
}

/// How a step of the wait inside the restart loop shows as a step of the loop:
/// once the child has exited the loop goes into its delay.
pub open spec fn loop_after_wait(waited: (RunnerView, WaitPhase, StepView)) -> (
    RunnerView,
    LoopPhase,
    StepView,
) {
    match waited.2 {
        StepView::Do(action) => (waited.0, LoopPhase::Watching(waited.1), StepView::Do(action)),
        StepView::Finished(Err(failure)) => (
            waited.0,
            LoopPhase::Stopped,
            StepView::Finished(Err(failure)),
        ),
        StepView::Finished(Ok(_)) => (
            waited.0,
            LoopPhase::Backoff,
            StepView::Do(ActionView::Sleep { seconds: RESTART_BACKOFF_SECS }),
        ),
    }
}

/// How a step of the start inside the restart loop shows as a step of the
/// loop: a start that fails ends the loop, and one that succeeds is followed
/// by the wait for the child's exit.
pub open spec fn loop_after_start(started: (RunnerView, StartPhase, StepView)) -> (
    RunnerView,
    LoopPhase,
    StepView,
) {
    match started.2 {
        StepView::Do(action) => (started.0, LoopPhase::Starting(started.1), StepView::Do(action)),
        StepView::Finished(Err(failure)) => (
            started.0,
            LoopPhase::Stopped,
            StepView::Finished(Err(failure)),
        ),
        StepView::Finished(Ok(_)) => loop_after_wait(
            wait_step(started.0, WaitPhase::Begin, EventView::Begin),
        ),
    }
}

/// One step of the restart loop.
///
/// The loop lets [`RESTART_BACKOFF_SECS`] pass, then looks at `should_restart`:
/// if it is false the loop ends for good, with success and without a start; if
/// it is true the loop starts the child, waits for its exit, and goes into the
/// delay again. A start or a wait that fails ends the loop with that failure.
pub open spec fn loop_step(r: RunnerView, phase: LoopPhase, event: EventView) -> (
    RunnerView,
    LoopPhase,
    StepView,
) {
    match phase {
        LoopPhase::Begin => (
            r,
            LoopPhase::Backoff,
            StepView::Do(ActionView::Sleep { seconds: RESTART_BACKOFF_SECS }),
        ),
        LoopPhase::Backoff => match event {
            EventView::Done => if r.should_restart {
                loop_after_start(start_step(r, StartPhase::begin(), EventView::Begin))
            } else {
                (r, LoopPhase::Stopped, StepView::Finished(Ok(())))
            },
            _ => (r, LoopPhase::Stopped, unexpected()),
        },
        LoopPhase::Starting(inner) => loop_after_start(start_step(r, inner, event)),
        LoopPhase::Watching(inner) => loop_after_wait(wait_step(r, inner, event)),
        LoopPhase::Stopped => (r, LoopPhase::Stopped, unexpected()),
    }
}

/// The text that a drain task adds to a buffer for one line of the pipe: the
/// line and a line end.
pub open spec fn line_text(line: Seq<char>) -> Seq<char> {
    line.push('\n')
}

/// The supervisor after `text` was added to the buffer of `stream`.
pub open spec fn with_output(r: RunnerView, stream: OutputStream, text: Seq<char>) -> RunnerView {
    match stream {
        OutputStream::Stdout => RunnerView { stdout: r.stdout + text, ..r },
        OutputStream::Stderr => RunnerView { stderr: r.stderr + text, ..r },
    }
}

/// One step of draining a pipe of the child: the supervisor after it and what
/// the host does next.
///
/// The task asks for one line after the other. Each line goes to the end of
/// the stream's buffer, followed by a line end. The end of the stream ends the
/// task with success, a read that fails ends it with that failure.
pub open spec fn pipe_step(r: RunnerView, stream: OutputStream, event: EventView) -> (
    RunnerView,
    StepView,
) {
    match event {
        EventView::Begin => (r, StepView::Do(ActionView::ReadLine { stream })),
        EventView::Text(line) => (
            with_output(r, stream, line_text(line)),
            StepView::Do(ActionView::ReadLine { stream }),
        ),
        EventView::EndOfStream => (r, StepView::Finished(Ok(()))),
        EventView::Failed => (r, StepView::Finished(Err(Failure::ReadPipe))),
        _ => (r, unexpected()),
    }
}

/// The snapshot of the supervisor `r`, given what a poll of its child told.
///
/// Without a child nothing is polled and the snapshot says "not running". With
/// a child it says "running", and gives the child's process identifier, where
/// the poll found the child alive. A poll that failed gives no snapshot.
pub open spec fn status_of(r: RunnerView, probe: EventView) -> Result<StatusView, Failure> {
    let idle = StatusView {
        process_id: r.worker_id,
        name: r.name,
        running: false,
        pid: None,
        stdout: r.stdout,
        stderr: r.stderr,
    };
    match r.current {
        None => Ok(idle),
        Some(pid) => match probe {
            EventView::ChildRunning => Ok(StatusView { running: true, pid: Some(pid), ..idle }),
            EventView::ChildExited => Ok(idle),
            EventView::Failed => Err(Failure::PollChild),
            _ => Err(Failure::UnexpectedEvent),
        },
    }
}

impl ProcessRunner {
    /// One step of reaping the orphan that an earlier run of the worker called
    /// `name` may have left: see [`reap_step`].
    pub fn reap_orphans(name: &str, phase: ReapPhase, event: Event) -> (next: (ReapPhase, Step))
        ensures
            (next.0, next.1@) == reap_step(name@, phase, event@),
    {
        match phase {
            ReapPhase::Begin => {
                let path = pid_file_path(name);
                (ReapPhase::ReadingPidFile, Step::Do(Action::ReadFile { path }))
            },
            ReapPhase::ReadingPidFile => match event {
                Event::Text(text) => match parse_pid(text.as_str()) {
                    Some(pid) => {
                        let path = proc_cmdline_path(pid);
                        (ReapPhase::Probing { pid }, Step::Do(Action::ReadFile { path }))
                    },
                    None => (ReapPhase::Done, failed(Failure::MalformedPidFile)),
                },
                Event::Failed => (ReapPhase::Done, Step::Finished(Ok(()))),
                _ => (ReapPhase::Done, failed(Failure::UnexpectedEvent)),
            },
            ReapPhase::Probing { pid } => match event {
                Event::Text(_) => (ReapPhase::Killing, Step::Do(Action::KillProcess { pid })),
                Event::Failed => {
                    let path = pid_file_path(name);
                    (ReapPhase::RemovingPidFile, Step::Do(Action::RemoveFile { path }))
                },
                _ => (ReapPhase::Done, failed(Failure::UnexpectedEvent)),
            },
            ReapPhase::Killing => match event {
                Event::Done => {
                    let path = pid_file_path(name);
                    (ReapPhase::RemovingPidFile, Step::Do(Action::RemoveFile { path }))
                },
                Event::Failed => (ReapPhase::Done, failed(Failure::KillOrphan)),
                _ => (ReapPhase::Done, failed(Failure::UnexpectedEvent)),
            },
            ReapPhase::RemovingPidFile => match event {
                Event::Done => (ReapPhase::Done, Step::Finished(Ok(()))),
                Event::Failed => (ReapPhase::Done, failed(Failure::RemovePidFile)),
                _ => (ReapPhase::Done, failed(Failure::UnexpectedEvent)),
            },
            ReapPhase::Done => (ReapPhase::Done, failed(Failure::UnexpectedEvent)),
        }
    }

    /// One step of waiting until the child has exited: see [`wait_step`].
    pub fn wait_until_stop(&mut self, phase: WaitPhase, event: Event) -> (next: (WaitPhase, Step))
        ensures
            (final(self)@, next.0, next.1@) == wait_step(old(self)@, phase, event@),
    {
        match phase {
            WaitPhase::Begin => (
                WaitPhase::Sleeping,
                Step::Do(Action::Sleep { seconds: POLL_INTERVAL_SECS }),
            ),
            WaitPhase::Sleeping => match event {
                Event::Done => match self.current {
                    Some(_) => (WaitPhase::Polling, Step::Do(Action::PollChild)),
                    None => (WaitPhase::Done, Step::Finished(Ok(()))),
                },
                _ => (WaitPhase::Done, failed(Failure::UnexpectedEvent)),
            },
            WaitPhase::Polling => match event {
                Event::ChildExited => {
                    self.current = None;
                    (WaitPhase::Done, Step::Finished(Ok(())))
                },
                Event::ChildRunning => (
                    WaitPhase::Sleeping,
                    Step::Do(Action::Sleep { seconds: POLL_INTERVAL_SECS }),
                ),
                Event::Failed => (WaitPhase::Done, failed(Failure::PollChild)),
                _ => (WaitPhase::Done, failed(Failure::UnexpectedEvent)),
            },
            WaitPhase::Done => (WaitPhase::Done, failed(Failure::UnexpectedEvent)),
        }
    }

    fn watch(&mut self, phase: WaitPhase, event: Event) -> (next: (LoopPhase, Step))
        ensures
            (final(self)@, next.0, next.1@) == loop_after_wait(
                wait_step(old(self)@, phase, event@),
            ),
    {
        let (wait_phase, step) = self.wait_until_stop(phase, event);
        match step {
            Step::Do(action) => (LoopPhase::Watching(wait_phase), Step::Do(action)),
            Step::Finished(Err(failure)) => (LoopPhase::Stopped, failed(failure)),
            Step::Finished(Ok(_)) => (
                LoopPhase::Backoff,
                Step::Do(Action::Sleep { seconds: RESTART_BACKOFF_SECS }),
            ),
        }
    }

    fn bring_up(&mut self, phase: StartPhase, event: Event) -> (next: (LoopPhase, Step))
        ensures
            (final(self)@, next.0, next.1@) == loop_after_start(
                start_step(old(self)@, phase, event@),
            ),
    {
        let (start_phase, step) = self.start(phase, event);
        match step {
            Step::Do(action) => (LoopPhase::Starting(start_phase), Step::Do(action)),
            Step::Finished(Err(failure)) => (LoopPhase::Stopped, failed(failure)),
            Step::Finished(Ok(_)) => self.watch(WaitPhase::Begin, Event::Begin),
        }
    }

    /// One step of the restart loop: see [`loop_step`].
    pub fn start_and_loop(&mut self, phase: LoopPhase, event: Event) -> (next: (LoopPhase, Step))
        ensures
            (final(self)@, next.0, next.1@) == loop_step(old(self)@, phase, event@),
            next.0 is Starting && !(phase is Starting) ==> phase is Backoff && event@ is Done
                && old(self).should_restart,
    {
        match phase {
            LoopPhase::Begin => (
                LoopPhase::Backoff,
                Step::Do(Action::Sleep { seconds: RESTART_BACKOFF_SECS }),
            ),
            LoopPhase::Backoff => match event {
                Event::Done => if self.should_restart {
                    self.bring_up(StartPhase::Stopping(StopPhase::Begin), Event::Begin)
                } else {
                    (LoopPhase::Stopped, Step::Finished(Ok(())))
                },
                _ => (LoopPhase::Stopped, failed(Failure::UnexpectedEvent)),
            },
            LoopPhase::Starting(inner) => self.bring_up(inner, event),
            LoopPhase::Watching(inner) => self.watch(inner, event),
            LoopPhase::Stopped => (LoopPhase::Stopped, failed(Failure::UnexpectedEvent)),
        }
    }

    /// Tells the restart loop not to start the child again. The child that
    /// runs is left alone.
    pub fn disable_restart(&mut self)
        ensures
            final(self)@ == (RunnerView { should_restart: false, ..old(self)@ }),
    {
        self.should_restart = false;
    }

    /// One step of aborting and joining the background tasks: see
    /// [`drain_step`].
    pub fn drain_tasks(&mut self, phase: DrainPhase, event: Event) -> (next: (DrainPhase, Step))
        ensures
            (final(self)@, next.0, next.1@) == drain_step(old(self)@, phase, event@),
    {
        match phase {
            DrainPhase::Begin => (DrainPhase::Aborting, Step::Do(Action::AbortTasks)),
            DrainPhase::Aborting => match event {
                Event::Done => {
                    self.tasks = TaskSet { reaper: false, stdout_drain: false, stderr_drain: false };
                    (DrainPhase::Done, Step::Finished(Ok(())))
                },
                _ => (DrainPhase::Done, failed(Failure::UnexpectedEvent)),
            },
            DrainPhase::Done => (DrainPhase::Done, failed(Failure::UnexpectedEvent)),
        }
    }

    /// One step of the task that drains the pipe `stream` of the child: see
    /// [`pipe_step`].
    pub fn run_pipe_reader(&mut self, stream: OutputStream, event: Event) -> (step: Step)
        ensures
            (final(self)@, step@) == pipe_step(old(self)@, stream, event@),
    {
        match event {
            Event::Begin => Step::Do(Action::ReadLine { stream }),
            Event::Text(line) => {
                proof {
                    reveal_strlit("\n");
                }
                match stream {
                    OutputStream::Stdout => {
                        self.stdout.append(line.as_str());
                        self.stdout.append("\n");
                        assert(self.stdout@ =~= old(self).stdout@ + line_text(line@));
                    },
                    OutputStream::Stderr => {
                        self.stderr.append(line.as_str());
                        self.stderr.append("\n");
                        assert(self.stderr@ =~= old(self).stderr@ + line_text(line@));
                    },
                }
                Step::Do(Action::ReadLine { stream })
            },
            Event::EndOfStream => Step::Finished(Ok(())),
            Event::Failed => failed(Failure::ReadPipe),
            _ => failed(Failure::UnexpectedEvent),
        }
    }

    /// A snapshot of the supervisor, which it leaves unchanged: see
    /// [`status_of`]. `probe` is what [`Action::PollChild`] told just before;
    /// where the supervisor has no child, nothing need be polled and any event
    /// will do.
    pub fn get_status(&self, probe: Event) -> (status: Result<Status, Failure>)
        ensures
            match status {
                Ok(snapshot) => status_of(self@, probe@) == Ok::<StatusView, Failure>(snapshot@),
                Err(failure) => status_of(self@, probe@) == Err::<StatusView, Failure>(failure),
            },
    {
        let (running, pid) = match self.current {
            None => (false, None),
            Some(pid) => match probe {
                Event::ChildRunning => (true, Some(pid)),
                Event::ChildExited => (false, None),
                Event::Failed => {
                    return Err(Failure::PollChild);
                },
                _ => {
                    return Err(Failure::UnexpectedEvent);
                },
            },
        };
        Ok(
            Status {
                process_id: self.worker_id.clone(),
                name: self.name.clone(),
                running,
                pid,
                stdout: self.stdout.clone(),
                stderr: self.stderr.clone(),
            },
        )
    }
}

} // verus!

