//! What passes between the supervisor and its host.
//!
//! The supervisor never touches a file, a process or a clock. A step of one of
//! its operations hands the host an [`Action`]; the host performs it and hands
//! back the [`Event`] that tells how it went.
use vstd::prelude::*;

verus! {

/// One of the two pipes on which a child writes.
#[derive(Debug, Clone, Copy, PartialEq, Eq, Structural)]
pub enum OutputStream {
    Stdout,
    Stderr,
}

/// Why an operation of the supervisor ended without success.
#[derive(Debug, Clone, Copy, PartialEq, Eq, Structural)]
pub enum Failure {
    /// The PID file holds something else than a process identifier.
    MalformedPidFile,
    /// The PID file could not be read while a child was to be stopped.
    ReadPidFile,
    /// The PID file could not be removed.
    RemovePidFile,
    /// The PID file could not be written.
    WritePidFile,
    /// The kill signal could not be sent to an orphan.
    KillOrphan,
    /// The child could not be spawned.
    Spawn,
    /// The child could not be killed.
    KillChild,
    /// Waiting for the child's exit failed.
    WaitChild,
    /// Asking whether the child still runs failed.
    PollChild,
    /// Reading a line from a pipe of the child failed.
    ReadPipe,
    /// The host answered with an event that the pending action cannot bring.
    UnexpectedEvent,
}

/// The command to run, where to run it, and for which worker.
#[derive(Debug, Clone, PartialEq, Eq)]
pub struct SpawnRequest {
    /// The executable.
    pub command: String,
    /// Its arguments, in order.
    pub args: Vec<String>,
    /// The working directory of the child.
    pub working_dir: String,
    /// The value that the child finds under `WORKER_ID` in its environment.
    pub worker_id: String,
}

/// A [`SpawnRequest`] as plain sequences of characters.
pub struct SpawnRequestView {
    pub command: Seq<char>,
    pub args: Seq<Seq<char>>,
    pub working_dir: Seq<char>,
    pub worker_id: Seq<char>,
}

/// The texts of a vector of strings, one by one.
pub open spec fn texts_of(strings: Seq<String>) -> Seq<Seq<char>> {
    Seq::new(strings.len(), |i: int| strings[i]@)
}

impl View for SpawnRequest {
    type V = SpawnRequestView;

    open spec fn view(&self) -> SpawnRequestView {
        SpawnRequestView {
            command: self.command@,
            args: texts_of(self.args@),
            working_dir: self.working_dir@,
            worker_id: self.worker_id@,
        }
    }
}

/// What the host is asked to do next.
#[derive(Debug, Clone, PartialEq, Eq)]
pub enum Action {
    /// Read the file at `path` as text. Answered by [`Event::Text`] with its
    /// contents, or by [`Event::Failed`] where it cannot be read.
    ReadFile { path: String },
    /// Remove the file at `path`. Answered by [`Event::Done`] or [`Event::Failed`].
    RemoveFile { path: String },
    /// Write `text` as the whole contents of the file at `path`. Answered by
    /// [`Event::Done`] or [`Event::Failed`].
    WriteFile { path: String, text: String },
    /// Send the unconditional kill signal to the process `pid`, which is no
    /// child of this supervisor. Answered by [`Event::Done`] once the signal
    /// was sent, or by [`Event::Failed`].
    KillProcess { pid: u32 },
    /// Spawn the child: no standard input, standard output and standard error
    /// piped, the working directory and `WORKER_ID` set as the request says,
    /// and the process killed if its handle is dropped. Answered by
    /// [`Event::Spawned`] or [`Event::Failed`].
    Spawn { request: SpawnRequest },
    /// Send the kill signal to the current child. Answered by [`Event::Done`],
    /// also where the child had exited before, or by [`Event::Failed`].
    KillChild,
    /// Wait until the current child has exited. Answered by [`Event::Done`] or
    /// [`Event::Failed`].
    WaitChild,
    /// Ask, without blocking, whether the current child still runs. Answered
    /// by [`Event::ChildRunning`], [`Event::ChildExited`] or [`Event::Failed`].
    PollChild,
    /// Abort every background task and wait until each has ended. Answered by
    /// [`Event::Done`].
    AbortTasks,
    /// Take the two pipes of the current child and launch one drain task for
    /// each. Answered by [`Event::Done`].
    LaunchDrains,
    /// Let `seconds` seconds pass. Answered by [`Event::Done`].
    Sleep { seconds: u64 },
    /// Read the next line of a pipe, without its line end. Answered by
    /// [`Event::Text`], [`Event::EndOfStream`] or [`Event::Failed`].
    ReadLine { stream: OutputStream },
}

/// An [`Action`] as plain values.
pub enum ActionView {
    ReadFile { path: Seq<char> },
    RemoveFile { path: Seq<char> },
    WriteFile { path: Seq<char>, text: Seq<char> },
    KillProcess { pid: u32 },
    Spawn { request: SpawnRequestView },
    KillChild,
    WaitChild,
    PollChild,
    AbortTasks,
    LaunchDrains,
    Sleep { seconds: u64 },
    ReadLine { stream: OutputStream },
}

impl View for Action {
    type V = ActionView;

    open spec fn view(&self) -> ActionView {
        match self {
            Action::ReadFile { path } => ActionView::ReadFile { path: path@ },
            Action::RemoveFile { path } => ActionView::RemoveFile { path: path@ },
            Action::WriteFile { path, text } => ActionView::WriteFile { path: path@, text: text@ },
            Action::KillProcess { pid } => ActionView::KillProcess { pid: *pid },
            Action::Spawn { request } => ActionView::Spawn { request: request@ },
            Action::KillChild => ActionView::KillChild,
            Action::WaitChild => ActionView::WaitChild,
            Action::PollChild => ActionView::PollChild,
            Action::AbortTasks => ActionView::AbortTasks,
            Action::LaunchDrains => ActionView::LaunchDrains,
            Action::Sleep { seconds } => ActionView::Sleep { seconds: *seconds },
            Action::ReadLine { stream } => ActionView::ReadLine { stream: *stream },
        }
    }
}

/// What the host reports.
#[derive(Debug, Clone, PartialEq, Eq)]
pub enum Event {
    /// Nothing has been asked yet: the operation begins.
    Begin,
    /// The action was performed and has nothing to tell.
    Done,
    /// The action could not be performed.
    Failed,
    /// The text that was read: a file's contents, or one line of a pipe.
    Text(String),
    /// The pipe has no more lines.
    EndOfStream,
    /// The child runs, under this process identifier.
    Spawned { pid: u32 },
    /// The child has not exited yet.
    ChildRunning,
    /// The child has exited.
    ChildExited,
}

/// An [`Event`] as plain values.
pub enum EventView {
    Begin,
    Done,
    Failed,
    Text(Seq<char>),
    EndOfStream,
    Spawned { pid: u32 },
    ChildRunning,
    ChildExited,
}

impl View for Event {
    type V = EventView;

    open spec fn view(&self) -> EventView {
        match self {
            Event::Begin => EventView::Begin,
            Event::Done => EventView::Done,
            Event::Failed => EventView::Failed,
            Event::Text(text) => EventView::Text(text@),
            Event::EndOfStream => EventView::EndOfStream,
            Event::Spawned { pid } => EventView::Spawned { pid: *pid },
            Event::ChildRunning => EventView::ChildRunning,
            Event::ChildExited => EventView::ChildExited,
        }
    }
}

/// How a step of an operation ends: with work for the host, or for good.
#[derive(Debug, PartialEq, Eq)]
pub enum Step {
    /// The host performs the action and resumes the operation with its event.
    Do(Action),
    /// The operation is over.
    Finished(Result<(), Failure>),
}

/// A [`Step`] as plain values.
pub enum StepView {
    Do(ActionView),
    Finished(Result<(), Failure>),
}

impl View for Step {
    type V = StepView;

    open spec fn view(&self) -> StepView {
        match self {
            Step::Do(action) => StepView::Do(action@),
            Step::Finished(outcome) => StepView::Finished(*outcome),
        }
    }
}

/// The step that ends an operation on an event that nothing asked for.
pub open spec fn unexpected() -> StepView {
    StepView::Finished(Err(Failure::UnexpectedEvent))
}

} // verus!
