//! What holds of the supervisor on a host on which nothing goes wrong.
use crate::model::{
    attached, orderly, pid_file_names_child, reaped, respond, run_reap, run_start, run_stop,
    started, stopped, Run, World,
};
use crate::pid_file::{
    decimal, lemma_decimal_value, lemma_pid_text_round_trip, pid_file_path_of, pid_of_text,
    proc_cmdline_path_of,
};
use crate::process::{
    line_text, loop_step, pipe_step, spawn_request_of, start_step, stop_step, wait_step,
    with_output, LoopPhase, ReapPhase, RunnerView, StartPhase, StopPhase, TaskSet, WaitPhase,
    RESTART_BACKOFF_SECS,
};
use crate::protocol::{ActionView, EventView, Failure, OutputStream, StepView};
use vstd::prelude::*;

verus! {

/// Two process identifiers with the same decimal text are the same.
pub proof fn lemma_decimal_is_injective(p: u32, q: u32)
    requires
        decimal(p as nat) == decimal(q as nat),
    ensures
        p == q,
{
    lemma_decimal_value(p as nat);
    lemma_decimal_value(q as nat);
}

/// No command-line record of a process lies where a PID file lies.
pub proof fn lemma_paths_differ(name: Seq<char>, pid: u32)
    ensures
        proc_cmdline_path_of(pid) != pid_file_path_of(name),
{
    assert(proc_cmdline_path_of(pid)[0] == '/');
    assert(pid_file_path_of(name)[0] == '.');
}

/// In an orderly world at most one process of the worker is alive.
pub proof fn law_orderly_world_has_one_process_at_most(w: World, p: u32, q: u32)
    requires
        orderly(w),
        w.alive.contains(p),
        w.alive.contains(q),
    ensures
        p == q,
{
    lemma_decimal_is_injective(p, q);
}

/// Reaping leaves no orphan: whatever an earlier supervisor of the worker left
/// behind, a reaping succeeds, and after it no process of the worker is alive
/// and there is no PID file. A process gets the kill signal only if it is
/// alive; where the PID file is stale, nothing is killed.
pub proof fn law_reap_leaves_no_orphan(r: RunnerView, w: World)
    requires
        orderly(w),
    ensures
        reaped(r, w).outcome == Some(Ok::<(), Failure>(())),
        reaped(r, w).world.alive == Set::<u32>::empty(),
        reaped(r, w).world.pid_file is None,
        reaped(r, w).runner == r,
        forall|i: int|
            0 <= i < reaped(r, w).actions.len() ==> (#[trigger] reaped(r, w).actions[i]
                matches ActionView::KillProcess { pid } ==> w.alive.contains(pid)),
        forall|i: int|
            0 <= i < reaped(r, w).actions.len() ==> !(#[trigger] reaped(r, w).actions[i]
                is Spawn),
{
    reveal_with_fuel(run_reap, 6);
    let pid_path = pid_file_path_of(r.name);
    match w.pid_file {
        None => {
            assert(w.alive =~= Set::<u32>::empty());
        },
        Some(text) => {
            let named = choose|p: u32| text == #[trigger] decimal(p as nat);
            lemma_pid_text_round_trip(named);
            lemma_paths_differ(r.name, named);
            assert forall|p: u32| #[trigger] w.alive.contains(p) implies p == named by {
                lemma_decimal_is_injective(p, named);
            }
            let probe = respond(
                w,
                r.name,
                r.current,
                0,
                ActionView::ReadFile { path: proc_cmdline_path_of(named) },
            );
            if w.alive.contains(named) {
                assert(probe.1 is Text);
                assert(w.alive.remove(named) =~= Set::<u32>::empty());
            } else {
                assert(w.alive =~= Set::<u32>::empty());
                assert(probe.1 is Failed);
            }
        },
    }
}

/// A stop on a host on which nothing goes wrong succeeds: after it the
/// supervisor holds no child and no background task, and no process of the
/// worker is alive. The PID file is gone if it named the child, and is as it
/// was if it named another process. The world stays orderly.
pub proof fn law_stop_ends_the_child(r: RunnerView, w: World)
    requires
        attached(r, w),
    ensures
        stopped(r, w).outcome == Some(Ok::<(), Failure>(())),
        stopped(r, w).runner.current is None,
        stopped(r, w).world.alive == Set::<u32>::empty(),
        attached(stopped(r, w).runner, stopped(r, w).world),
        r.current matches Some(pid) ==> {
            &&& stopped(r, w).runner == (RunnerView { current: None, tasks: TaskSet::none(), ..r })
            &&& stopped(r, w).world.pid_file == if w.pid_file == Some(decimal(pid as nat)) {
                None
            } else {
                w.pid_file
            }
        },
        r.current is None ==> stopped(r, w).runner == r && stopped(r, w).world == w && stopped(
            r,
            w,
        ).actions.len() == 0,
        forall|i: int|
            0 <= i < stopped(r, w).actions.len() ==> !(#[trigger] stopped(r, w).actions[i]
                is Spawn),
{
    reveal_with_fuel(run_stop, 7);
    match r.current {
        None => {
            assert(w.alive =~= Set::<u32>::empty());
        },
        Some(pid) => {
            assert(w.alive.remove(pid) =~= Set::<u32>::empty());
            assert(w.alive.remove(pid).remove(pid) =~= Set::<u32>::empty());
        },
    }
}

/// Stop is idempotent. Where the PID file tells of the supervisor's child and
/// of nothing else, a stop succeeds and leaves no PID file; a second stop
/// succeeds too, asks the host for nothing, and leaves all as the first left
/// it, so that there is still no PID file.
pub proof fn law_stop_is_idempotent(r: RunnerView, w: World)
    requires
        attached(r, w),
        pid_file_names_child(r, w),
    ensures
        ({
            let first = stopped(r, w);
            let second = stopped(first.runner, first.world);
            &&& first.outcome == Some(Ok::<(), Failure>(()))
            &&& first.world.pid_file is None
            &&& second.outcome == Some(Ok::<(), Failure>(()))
            &&& second.actions.len() == 0
            &&& second.runner == first.runner
            &&& second.world == first.world
            &&& second.world.pid_file is None
        }),
{
    law_stop_ends_the_child(r, w);
    let first = stopped(r, w);
    law_stop_ends_the_child(first.runner, first.world);
}

/// A stop of a supervisor that holds no child succeeds at once: it asks the
/// host for nothing and changes nothing, whatever the event.
pub proof fn law_stop_without_child_is_over_at_once(r: RunnerView, event: EventView)
    requires
        r.current is None,
    ensures
        stop_step(r, StopPhase::Begin, event) == (
            r,
            StopPhase::Done,
            StepView::Finished(Ok::<(), Failure>(())),
        ),
{
}

/// A start on a host on which nothing goes wrong succeeds and leaves exactly
/// one live process of the worker: the child that it spawned, which the
/// supervisor holds and the PID file names. Both output buffers are empty and
/// the two drain tasks of the new child are the only background tasks. The
/// host was asked for one spawn, with the configured command, after all that
/// stops the instance before; the PID file was written after the spawn, and
/// the drain tasks were launched last. Whether restarts are wanted plays no
/// part.
pub proof fn law_start_brings_up_one_child(r: RunnerView, w: World, fresh: u32)
    requires
        attached(r, w),
        !w.alive.contains(fresh),
    ensures
        started(r, w, fresh).outcome == Some(Ok::<(), Failure>(())),
        started(r, w, fresh).world.alive == set![fresh],
        started(r, w, fresh).world.pid_file == Some(decimal(fresh as nat)),
        started(r, w, fresh).runner == (RunnerView {
            current: Some(fresh),
            stdout: Seq::empty(),
            stderr: Seq::empty(),
            tasks: TaskSet::drain_pair(),
            ..r
        }),
        attached(started(r, w, fresh).runner, started(r, w, fresh).world),
        pid_file_names_child(started(r, w, fresh).runner, started(r, w, fresh).world),
        ({
            let actions = started(r, w, fresh).actions;
            let n = actions.len() as int;
            &&& n >= 4
            &&& actions[n - 3] == ActionView::Spawn { request: spawn_request_of(r) }
            &&& actions[n - 2] == ActionView::WriteFile {
                path: pid_file_path_of(r.name),
                text: decimal(fresh as nat),
            }
            &&& actions[n - 1] == ActionView::LaunchDrains
            &&& forall|i: int| 0 <= i < n - 3 ==> !(#[trigger] actions[i] is Spawn)
        }),
{
    reveal_with_fuel(run_start, 12);
    let after_stop = stopped(r, w);
    law_stop_ends_the_child(r, w);
    reveal_with_fuel(run_stop, 7);
    match r.current {
        None => {
            assert(w.alive =~= Set::<u32>::empty());
        },
        Some(pid) => {
            assert(w.alive.remove(pid) =~= Set::<u32>::empty());
            assert(w.alive.remove(pid).remove(pid) =~= Set::<u32>::empty());
        },
    }
    assert(Set::<u32>::empty().insert(fresh) =~= set![fresh]);
    let end = started(r, w, fresh);
    assert(end.world.alive =~= set![fresh]);
    assert(orderly(end.world)) by {
        assert(decimal(fresh as nat) == decimal(fresh as nat));
    }
}

/// Start supersedes: after two starts in succession exactly one process of the
/// worker is alive, the child of the second start, and both output buffers
/// are empty, whatever the first child had written to them in between: what
/// they come to hold is output of the second child alone.
pub proof fn law_start_supersedes(
    r: RunnerView,
    w: World,
    first_pid: u32,
    second_pid: u32,
    first_stdout: Seq<char>,
    first_stderr: Seq<char>,
)
    requires
        attached(r, w),
        !w.alive.contains(first_pid),
        second_pid != first_pid,
    ensures
        ({
            let first = started(r, w, first_pid);
            let between = RunnerView {
                stdout: first.runner.stdout + first_stdout,
                stderr: first.runner.stderr + first_stderr,
                ..first.runner
            };
            let second = started(between, first.world, second_pid);
            &&& second.outcome == Some(Ok::<(), Failure>(()))
            &&& second.world.alive == set![second_pid]
            &&& second.runner.current == Some(second_pid)
            &&& second.runner.stdout == Seq::<char>::empty()
            &&& second.runner.stderr == Seq::<char>::empty()
            &&& second.runner.tasks == TaskSet::drain_pair()
        }),
{
    law_start_brings_up_one_child(r, w, first_pid);
    let first = started(r, w, first_pid);
    let between = RunnerView {
        stdout: first.runner.stdout + first_stdout,
        stderr: first.runner.stderr + first_stderr,
        ..first.runner
    };
    law_start_brings_up_one_child(between, first.world, second_pid);
}

/// Waiting for the child's exit keeps the supervisor attached to its world:
/// the wait changes nothing on the machine, and it forgets the child only
/// when the host has found that the child is gone.
pub proof fn law_wait_keeps_attached(r: RunnerView, w: World, phase: WaitPhase, event: EventView)
    requires
        attached(r, w),
        phase is Polling ==> event == respond(w, r.name, r.current, 0, ActionView::PollChild).1,
    ensures
        attached(wait_step(r, phase, event).0, w),
        wait_step(r, phase, event).2 matches StepView::Do(action) ==> respond(
            w,
            r.name,
            wait_step(r, phase, event).0.current,
            0,
            action,
        ).0 == w,
{
}

/// The restart loop does not spin: it begins a start only when its delay has
/// just run out and restarts are wanted.
pub proof fn law_restart_follows_delay(r: RunnerView, phase: LoopPhase, event: EventView)
    requires
        loop_step(r, phase, event).1 is Starting,
        !(phase is Starting),
    ensures
        phase is Backoff,
        event is Done,
        r.should_restart,
{
}

/// No step of the restart loop changes whether restarts are wanted.
pub proof fn law_loop_keeps_restart_flag(r: RunnerView, phase: LoopPhase, event: EventView)
    ensures
        loop_step(r, phase, event).0.should_restart == r.should_restart,
{
}

/// Once restarts are disabled, the exit of the child is not followed by a new
/// spawn: the loop that sees the exit goes into its delay, and ends with
/// success when the delay has run out, having asked for nothing else. It
/// leaves a supervisor without a child, on which a stop succeeds at once.
pub proof fn law_disabled_restart_ends_the_loop(r: RunnerView)
    requires
        !r.should_restart,
    ensures
        ({
            let seen = loop_step(
                r,
                LoopPhase::Watching(WaitPhase::Polling),
                EventView::ChildExited,
            );
            let ended = loop_step(seen.0, seen.1, EventView::Done);
            let stop = stop_step(ended.0, StopPhase::Begin, EventView::Begin);
            &&& seen.0 == (RunnerView { current: None, ..r })
            &&& seen.1 == LoopPhase::Backoff
            &&& seen.2 == StepView::Do(ActionView::Sleep { seconds: RESTART_BACKOFF_SECS })
            &&& ended.0 == seen.0
            &&& ended.1 == LoopPhase::Stopped
            &&& ended.2 == StepView::Finished(Ok::<(), Failure>(()))
            &&& stop.0 == ended.0
            &&& stop.2 == StepView::Finished(Ok::<(), Failure>(()))
        }),
{
}

/// While restarts are disabled, no step of the restart loop begins a start.
pub proof fn law_disabled_restart_begins_no_start(
    r: RunnerView,
    phase: LoopPhase,
    event: EventView,
)
    requires
        !r.should_restart,
        !(phase is Starting),
    ensures
        !(loop_step(r, phase, event).1 is Starting),
        !(loop_step(r, phase, event).2 matches StepView::Do(action) && action is Spawn),
{
}

/// The lines of `arrivals` that came on `stream`, each with its line end, one
/// after the other.
pub open spec fn output_of(arrivals: Seq<(OutputStream, Seq<char>)>, stream: OutputStream) -> Seq<
    char,
>
    decreases arrivals.len(),
{
    if arrivals.len() == 0 {
        Seq::empty()
    } else if arrivals.last().0 == stream {
        output_of(arrivals.drop_last(), stream) + line_text(arrivals.last().1)
    } else {
        output_of(arrivals.drop_last(), stream)
    }
}

/// The supervisor after its drain tasks have taken the lines of `arrivals`, in
/// the order in which they arrived on the two pipes.
pub open spec fn drained(r: RunnerView, arrivals: Seq<(OutputStream, Seq<char>)>) -> RunnerView
    decreases arrivals.len(),
{
    if arrivals.len() == 0 {
        r
    } else {
        pipe_step(
            drained(r, arrivals.drop_last()),
            arrivals.last().0,
            EventView::Text(arrivals.last().1),
        ).0
    }
}

/// Buffer fidelity: however the lines of the two pipes interleave in time,
/// each buffer grows by the lines of its own pipe, in their order and each
/// followed by a line end, and nothing else of the supervisor changes. After
/// every line the drain task asks for the next.
pub proof fn law_buffers_hold_the_lines(r: RunnerView, arrivals: Seq<(OutputStream, Seq<char>)>)
    ensures
        drained(r, arrivals) == (RunnerView {
            stdout: r.stdout + output_of(arrivals, OutputStream::Stdout),
            stderr: r.stderr + output_of(arrivals, OutputStream::Stderr),
            ..r
        }),
    decreases arrivals.len(),
{
    if arrivals.len() == 0 {
        assert(r.stdout + Seq::<char>::empty() =~= r.stdout);
        assert(r.stderr + Seq::<char>::empty() =~= r.stderr);
    } else {
        let before = arrivals.drop_last();
        law_buffers_hold_the_lines(r, before);
        let line = line_text(arrivals.last().1);
        assert((r.stdout + output_of(before, OutputStream::Stdout)) + line =~= r.stdout + (
        output_of(before, OutputStream::Stdout) + line));
        assert((r.stderr + output_of(before, OutputStream::Stderr)) + line =~= r.stderr + (
        output_of(before, OutputStream::Stderr) + line));
    }
}

} // verus!

