//! A model of the host, to state what the supervisor brings about.
//!
//! The operations of the supervisor only ask for actions. What a run of an
//! operation leaves on the machine depends on the host that performs them. The
//! [`World`] here is the part of the machine that the supervisor of one worker
//! acts on, and [`respond`] is a host on which nothing goes wrong. A run of an
//! operation against that host is a value, and the laws of this crate speak of
//! such runs.
use crate::pid_file::{pid_file_path_of, proc_cmdline_path_of};
use crate::process::{
    reap_step, start_step, stop_step, ReapPhase, RunnerView, StartPhase, StopPhase,
};
use crate::protocol::{ActionView, EventView, Failure, StepView};
use vstd::prelude::*;

verus! {

/// The part of the machine that the supervisor of one worker acts on.
pub struct World {
    /// The text of the worker's PID file, where the file exists.
    pub pid_file: Option<Seq<char>>,
    /// The processes that were spawned for the worker and are alive.
    pub alive: Set<u32>,
}

/// How a host on which nothing goes wrong performs `action`: the world after
/// it and the event that it reports.
///
/// `name` is the worker's name, `child` the process that the supervisor holds
/// as its child, and `fresh` the process identifier that a spawn gives. Of the
/// files only the worker's PID file and the command-line records of its live
/// processes exist. A process that gets a kill signal is gone, and so is the
/// child once it was waited for.
pub open spec fn respond(
    w: World,
    name: Seq<char>,
    child: Option<u32>,
    fresh: u32,
    action: ActionView,
) -> (World, EventView) {
    match action {
        ActionView::ReadFile { path } => if path == pid_file_path_of(name) {
            match w.pid_file {
                Some(text) => (w, EventView::Text(text)),
                None => (w, EventView::Failed),
            }
        } else if exists|p: u32| w.alive.contains(p) && path == proc_cmdline_path_of(p) {
            (w, EventView::Text(Seq::empty()))
        } else {
            (w, EventView::Failed)
        },
        ActionView::RemoveFile { path } => if path == pid_file_path_of(name)
            && w.pid_file is Some {
            (World { pid_file: None, ..w }, EventView::Done)
        } else {
            (w, EventView::Failed)
        },
        ActionView::WriteFile { path, text } => if path == pid_file_path_of(name) {
            (World { pid_file: Some(text), ..w }, EventView::Done)
        } else {
            (w, EventView::Failed)
        },
        ActionView::KillProcess { pid } => (
            World { alive: w.alive.remove(pid), ..w },
            EventView::Done,
        ),
        ActionView::Spawn { request } => (
            World { alive: w.alive.insert(fresh), ..w },
            EventView::Spawned { pid: fresh },
        ),
        ActionView::KillChild => match child {
            Some(pid) => (World { alive: w.alive.remove(pid), ..w }, EventView::Done),
            None => (w, EventView::Failed),
        },
        ActionView::WaitChild => match child {
            Some(pid) => (World { alive: w.alive.remove(pid), ..w }, EventView::Done),
            None => (w, EventView::Failed),
        },
        ActionView::PollChild => match child {
            Some(pid) => if w.alive.contains(pid) {
                (w, EventView::ChildRunning)
            } else {
                (w, EventView::ChildExited)
            },
            None => (w, EventView::Failed),
        },
        ActionView::AbortTasks => (w, EventView::Done),
        ActionView::LaunchDrains => (w, EventView::Done),
        ActionView::Sleep { seconds } => (w, EventView::Done),
        ActionView::ReadLine { stream } => (w, EventView::EndOfStream),
    }
}

/// What a run of an operation has come to.
pub struct Run {
    /// The supervisor after the run.
    pub runner: RunnerView,
    /// The world after the run.
    pub world: World,
    /// The actions that the host performed, in order.
    pub actions: Seq<ActionView>,
    /// How the operation ended, or `None` where the run was cut off before.
    pub outcome: Option<Result<(), Failure>>,
}

/// The run of a stop from the given phase and event, for `fuel` actions at most.
pub open spec fn run_stop(
    r: RunnerView,
    w: World,
    phase: StopPhase,
    event: EventView,
    done: Seq<ActionView>,
    fuel: nat,
) -> Run
    decreases fuel,
{
    let next = stop_step(r, phase, event);
    match next.2 {
        StepView::Finished(outcome) => Run {
            runner: next.0,
            world: w,
            actions: done,
            outcome: Some(outcome),
        },
        StepView::Do(action) => if fuel == 0 {
            Run { runner: next.0, world: w, actions: done, outcome: None }
        } else {
            let answer = respond(w, next.0.name, next.0.current, 0, action);
            run_stop(next.0, answer.0, next.1, answer.1, done.push(action), (fuel - 1) as nat)
        },
    }
}

/// The run of a start from the given phase and event, for `fuel` actions at
/// most. The child that it spawns gets the process identifier `fresh`.
pub open spec fn run_start(
    r: RunnerView,
    w: World,
    fresh: u32,
    phase: StartPhase,
    event: EventView,
    done: Seq<ActionView>,
    fuel: nat,
) -> Run
    decreases fuel,
{
    let next = start_step(r, phase, event);
    match next.2 {
        StepView::Finished(outcome) => Run {
            runner: next.0,
            world: w,
            actions: done,
            outcome: Some(outcome),
        },
        StepView::Do(action) => if fuel == 0 {
            Run { runner: next.0, world: w, actions: done, outcome: None }
        } else {
            let answer = respond(w, next.0.name, next.0.current, fresh, action);
            run_start(
                next.0,
                answer.0,
                fresh,
                next.1,
                answer.1,
                done.push(action),
                (fuel - 1) as nat,
            )
        },
    }
}

/// The run of a reaping from the given phase and event, for `fuel` actions at
/// most. The supervisor `r` that it is made for stays as it is.
pub open spec fn run_reap(
    r: RunnerView,
    w: World,
    phase: ReapPhase,
    event: EventView,
    done: Seq<ActionView>,
    fuel: nat,
) -> Run
    decreases fuel,
{
    let next = reap_step(r.name, phase, event);
    match next.1 {
        StepView::Finished(outcome) => Run {
            runner: r,
            world: w,
            actions: done,
            outcome: Some(outcome),
        },
        StepView::Do(action) => if fuel == 0 {
            Run { runner: r, world: w, actions: done, outcome: None }
        } else {
            let answer = respond(w, r.name, r.current, 0, action);
            run_reap(r, answer.0, next.0, answer.1, done.push(action), (fuel - 1) as nat)
        },
    }
}

/// A whole stop of the supervisor `r` on the world `w`.
pub open spec fn stopped(r: RunnerView, w: World) -> Run {
    run_stop(r, w, StopPhase::Begin, EventView::Begin, Seq::empty(), 8)
}

/// A whole start of the supervisor `r` on the world `w`, where the child gets
/// the process identifier `fresh`.
pub open spec fn started(r: RunnerView, w: World, fresh: u32) -> Run {
    run_start(r, w, fresh, StartPhase::begin(), EventView::Begin, Seq::empty(), 16)
}

/// A whole reaping for the supervisor `r`, just made, on the world `w`.
pub open spec fn reaped(r: RunnerView, w: World) -> Run {
    run_reap(r, w, ReapPhase::Begin, EventView::Begin, Seq::empty(), 8)
}

/// The world is as supervisors of the worker leave it: the PID file, where it
/// exists, holds the decimal text of a process identifier, and every live
/// process of the worker is the one that the PID file names.
pub open spec fn orderly(w: World) -> bool {
    &&& w.pid_file matches Some(text) ==> exists|p: u32|
        text == #[trigger] crate::pid_file::decimal(p as nat)
    &&& forall|p: u32| #[trigger]
        w.alive.contains(p) ==> w.pid_file == Some(crate::pid_file::decimal(p as nat))
}

/// The supervisor `r` is the one that acts on the orderly world `w`: no
/// process of the worker is alive but its child, and while it holds a child
/// there is a PID file.
pub open spec fn attached(r: RunnerView, w: World) -> bool {
    &&& orderly(w)
    &&& forall|p: u32| #[trigger] w.alive.contains(p) ==> r.current == Some(p)
    &&& r.current is Some ==> w.pid_file is Some
}

/// The PID file tells of the supervisor's child and of nothing else: it names
/// the child where there is one and does not exist where there is none.
pub open spec fn pid_file_names_child(r: RunnerView, w: World) -> bool {
    match r.current {
        Some(pid) => w.pid_file == Some(crate::pid_file::decimal(pid as nat)),
        None => w.pid_file is None,
    }
}

} // verus!
