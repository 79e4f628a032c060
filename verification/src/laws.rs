//! What holds of every run.
//!
//! A run is a session that starts as [`init`] and is handed a sequence of
//! events, one after the other. Nothing is assumed of the events: they may
//! come in any order and say anything, so what is proved here holds whoever
//! drives the session and whatever the host answers.

use vstd::prelude::*;
use crate::exec::{mktmp_command, ran, rmtmp_command, status};
use crate::pkgs::{Batch, Task, ROLES};
use crate::session::{
    init, next, proceed_menu, version_menu, ActionView, EventView, Phase, SessionView, StepView,
};

verus! {

/// The session after `events` have happened to `s`, in their order.
pub open spec fn after(s: SessionView, events: Seq<EventView>) -> SessionView
    decreases events.len(),
{
    if events.len() == 0 {
        s
    } else {
        next(after(s, events.drop_last()), events.last()).0
    }
}

/// The session of a run just before the event at position `k`; with `k` the
/// number of events, the session at the end of the run.
pub open spec fn state_at(events: Seq<EventView>, k: int) -> SessionView {
    after(init(), events.take(k))
}

/// The answer of a run to the event at position `k`.
pub open spec fn step_at(events: Seq<EventView>, k: int) -> StepView {
    next(state_at(events, k), events[k]).1
}

/// The place of a task in the course of a run.
pub open spec fn task_rank(task: Task) -> int {
    match task {
        Task::Update => 1,
        Task::MakeTmp => 2,
        Task::Query(role) => 5 + 3 * role,
        Task::Probe(role) => 6 + 3 * role,
        Task::Fetch(role) => 7 + 3 * role,
        Task::Install(Batch::Gcc) => 5 + 3 * ROLES,
        Task::Install(Batch::Cuda) => 6 + 3 * ROLES,
        Task::RemoveTmp => 7 + 3 * ROLES,
    }
}

/// The place of a phase in the course of a run.
pub open spec fn rank(phase: Phase) -> int {
    match phase {
        Phase::Loading => 0,
        Phase::Running(task) => task_rank(task),
        Phase::Choosing => 3,
        Phase::Confirming => 4,
        Phase::Done => 8 + 3 * ROLES,
    }
}

/// Whether `s` is a session that stands still: the removal of the scratch
/// directory is under way, or the run is over.
pub open spec fn closing(s: SessionView) -> bool {
    s.phase == Phase::Running(Task::RemoveTmp) || s.phase == Phase::Done
}

/// The action that a session is waiting for the outcome of: the command of
/// the task that is running, the menu that is open, or the exit.
pub open spec fn pending(s: SessionView) -> ActionView {
    match s.phase {
        Phase::Loading => ActionView::Resume,
        Phase::Running(task) => ActionView::Run(task, s.facts.command(task)),
        Phase::Choosing => ActionView::Ask(version_menu()),
        Phase::Confirming => ActionView::Ask(proceed_menu()),
        Phase::Done => ActionView::Exit(status(s.facts.failed)),
    }
}

/// Whether `action` is what a run that was given up may still ask for: the
/// removal of the scratch directory, patience, or the exit with status 1.
pub open spec fn cleans(action: ActionView) -> bool {
    ||| action == ActionView::Run(Task::RemoveTmp, rmtmp_command())
    ||| action == ActionView::Resume
    ||| action == ActionView::Exit(1)
}

proof fn lemma_push_contains(s: Seq<usize>, x: usize, y: usize)
    ensures
        s.push(x).contains(y) <==> s.contains(y) || x == y,
{
    if s.contains(y) {
        let i = choose|i: int| 0 <= i < s.len() && s[i] == y;
        assert(s.push(x)[i] == y);
    }
    if x == y {
        assert(s.push(x)[s.len() as int] == y);
    }
    if s.push(x).contains(y) {
        let i = choose|i: int| 0 <= i < s.push(x).len() && s.push(x)[i] == y;
        if i < s.len() {
            assert(s[i] == y);
        }
    }
}

/// One step of the protocol, from a session that a run can reach.
///
/// The session that results is again one that a run can reach. It is
/// either the same session, or one at a later place of the course; a
/// command is asked for exactly on entering the phase that waits for it, and
/// it is the command of that phase's task. The manifest, once read, stays
/// as it is; so does the bundle, once picked; a run that was given up stays
/// given up; and the roles downloaded only grow, by the role whose download
/// has just ended well.
pub proof fn lemma_step(s: SessionView, event: EventView)
    requires
        s.inv(),
    ensures
        ({
            let (t, step) = next(s, event);
            &&& t.inv()
            &&& t == s || rank(t.phase) > rank(s.phase)
            &&& t != s ==> step.action == pending(t)
            &&& t.facts.failed ==> cleans(step.action)
            &&& match step.action {
                ActionView::Run(task, cmd) => {
                    &&& t.phase == Phase::Running(task)
                    &&& cmd == t.facts.command(task)
                    &&& rank(t.phase) > rank(s.phase)
                },
                ActionView::Ask(menu) => {
                    &&& t.phase == Phase::Choosing || t.phase == Phase::Confirming
                    &&& rank(t.phase) > rank(s.phase)
                },
                ActionView::Resume => {
                    &&& t == s
                    &&& s.phase == Phase::Running(Task::RemoveTmp)
                    &&& step.lines.len() == 0
                },
                ActionView::Exit(code) => {
                    &&& t.phase == Phase::Done
                    &&& closing(s)
                    &&& code == status(t.facts.failed)
                },
            }
            &&& s.facts.data is Some ==> t.facts.data == s.facts.data
            &&& s.facts.failed ==> t.facts.failed
            &&& rank(s.phase) > rank(Phase::Choosing) ==> t.facts.chosen == s.facts.chosen
            &&& t.facts.downloaded == s.facts.downloaded || exists|role: usize|
                {
                    &&& s.phase == Phase::Running(Task::Fetch(role))
                    &&& t.facts.downloaded == s.facts.downloaded.push(role)
                }
        }),
{
    let (t, step) = next(s, event);
    match s.phase {
        Phase::Running(task) => {
            match task {
                Task::Fetch(role) => {
                    if t.facts.downloaded != s.facts.downloaded {
                        assert(t.facts.downloaded == s.facts.downloaded.push(role));
                        assert forall|i: int| 0 <= i < t.facts.downloaded.len() implies (
                        #[trigger] t.facts.downloaded[i]) < role + 1 by {
                            if i < s.facts.downloaded.len() {
                                assert(s.facts.downloaded[i] < role);
                            }
                        }
                    }
                },
                _ => {},
            }
        },
        _ => {},
    }
}

/// Taking one event more: the session after `k + 1` events is the session
/// after `k` events, stepped by the event at position `k`.
pub proof fn lemma_state_unfolds(events: Seq<EventView>, k: int)
    requires
        0 <= k < events.len(),
    ensures
        state_at(events, k + 1) == next(state_at(events, k), events[k]).0,
{
    assert(events.take(k + 1).drop_last() =~= events.take(k));
    assert(events.take(k + 1).last() == events[k]);
}

/// Every session of a run is one that [`SessionView::inv`] admits.
pub proof fn law_run_keeps_invariant(events: Seq<EventView>, k: int)
    requires
        0 <= k <= events.len(),
    ensures
        state_at(events, k).inv(),
    decreases k,
{
    if k == 0 {
        assert(events.take(0) =~= Seq::<EventView>::empty());
    } else {
        law_run_keeps_invariant(events, k - 1);
        lemma_state_unfolds(events, k - 1);
        lemma_step(state_at(events, k - 1), events[k - 1]);
    }
}

/// A run never goes back: of two sessions of a run, the later one stands at
/// the same place of the course as the earlier one, or at a later place.
pub proof fn law_run_never_goes_back(events: Seq<EventView>, j: int, k: int)
    requires
        0 <= j <= k <= events.len(),
    ensures
        rank(state_at(events, j).phase) <= rank(state_at(events, k).phase),
    decreases k - j,
{
    if j < k {
        law_run_never_goes_back(events, j, k - 1);
        law_run_keeps_invariant(events, k - 1);
        lemma_state_unfolds(events, k - 1);
        lemma_step(state_at(events, k - 1), events[k - 1]);
    }
}

/// The commands of a run come in the order of the course: of two commands
/// that a run asks for, the later one belongs to a later task. So no task
/// is run twice.
pub proof fn law_tasks_come_in_order(
    events: Seq<EventView>,
    j: int,
    k: int,
    first: Task,
    second: Task,
)
    requires
        0 <= j < k < events.len(),
        step_at(events, j).action matches ActionView::Run(task, _) && task == first,
        step_at(events, k).action matches ActionView::Run(task, _) && task == second,
    ensures
        task_rank(first) < task_rank(second),
{
    law_run_keeps_invariant(events, j);
    lemma_state_unfolds(events, j);
    lemma_step(state_at(events, j), events[j]);
    law_run_never_goes_back(events, j + 1, k);
    law_run_keeps_invariant(events, k);
    lemma_state_unfolds(events, k);
    lemma_step(state_at(events, k), events[k]);
}

/// A run that was given up stays given up.
pub proof fn law_given_up_stays(events: Seq<EventView>, j: int, k: int)
    requires
        0 <= j <= k <= events.len(),
        state_at(events, j).facts.failed,
    ensures
        state_at(events, k).facts.failed,
    decreases k - j,
{
    if j < k {
        law_given_up_stays(events, j, k - 1);
        law_run_keeps_invariant(events, k - 1);
        lemma_state_unfolds(events, k - 1);
        lemma_step(state_at(events, k - 1), events[k - 1]);
    }
}

/// A run that is given up touches nothing any more. From the event on that
/// gives it up, all it asks for is the removal of the scratch directory,
/// patience while that is under way, and the exit with status 1: no update,
/// no download and no install.
pub proof fn law_given_up_run_only_cleans(events: Seq<EventView>, j: int, k: int)
    requires
        0 <= j <= k < events.len(),
        state_at(events, j + 1).facts.failed,
    ensures
        cleans(step_at(events, k).action),
{
    law_given_up_stays(events, j + 1, k + 1);
    law_run_keeps_invariant(events, k);
    lemma_state_unfolds(events, k);
    lemma_step(state_at(events, k), events[k]);
}

/// A manifest that cannot be read changes nothing on the host: the run is
/// given up at once, whatever comes after.
pub proof fn law_rejected_manifest_changes_nothing(events: Seq<EventView>, k: int)
    requires
        0 <= k < events.len(),
        events[0] is Rejected,
    ensures
        cleans(step_at(events, k).action),
        state_at(events, k + 1).facts.failed,
{
    assert(events.take(0) =~= Seq::<EventView>::empty());
    lemma_state_unfolds(events, 0);
    law_given_up_stays(events, 1, k + 1);
    law_given_up_run_only_cleans(events, 0, k);
}

/// A session that waits for a command has asked for it: if a run stands in
/// the phase of a task, one of its answers so far was the command of that
/// task.
pub proof fn law_running_was_asked_for(events: Seq<EventView>, n: int, task: Task) -> (k: int)
    requires
        0 <= n <= events.len(),
        state_at(events, n).phase == Phase::Running(task),
    ensures
        0 <= k < n,
        step_at(events, k).action == ActionView::Run(
            task,
            state_at(events, k + 1).facts.command(task),
        ),
    decreases n,
{
    if n == 0 {
        assert(events.take(0) =~= Seq::<EventView>::empty());
        0
    } else {
        law_run_keeps_invariant(events, n - 1);
        lemma_state_unfolds(events, n - 1);
        lemma_step(state_at(events, n - 1), events[n - 1]);
        if state_at(events, n - 1) == state_at(events, n) {
            law_running_was_asked_for(events, n - 1, task)
        } else {
            n - 1
        }
    }
}

/// The packages have their turn in the order of their roles, whatever the
/// manifest lists first: of two queries of a run, the later one is about a
/// later role, and the query of a role is about the package that the bundle
/// holds for that role.
pub proof fn law_roles_in_priority_order(
    events: Seq<EventView>,
    j: int,
    k: int,
    first: usize,
    second: usize,
)
    requires
        0 <= j < k < events.len(),
        step_at(events, j).action matches ActionView::Run(task, _) && task == Task::Query(first),
        step_at(events, k).action matches ActionView::Run(task, _) && task == Task::Query(second),
    ensures
        first < second,
        second < ROLES,
        step_at(events, k).action == ActionView::Run(
            Task::Query(second),
            state_at(events, k + 1).facts.bundle().packages()[second as int].query(),
        ),
{
    law_tasks_come_in_order(events, j, k, Task::Query(first), Task::Query(second));
    law_run_keeps_invariant(events, k);
    lemma_state_unfolds(events, k);
    lemma_step(state_at(events, k), events[k]);
}

/// Whether the event at position `k` of a run is the reply of the package
/// database that shows the package of `role` as installed in the version
/// wanted.
pub open spec fn shown_installed(events: Seq<EventView>, k: int, role: usize) -> bool {
    let s = state_at(events, k);
    &&& s.phase == Phase::Running(Task::Query(role))
    &&& events[k] matches EventView::Ran(outcome)
    &&& s.facts.bundle().packages()[role as int].installed(
        ran(s.facts.command(Task::Query(role)), outcome).reply,
    )
}

proof fn lemma_left_alone(events: Seq<EventView>, k: int, role: usize, n: int)
    requires
        0 <= k < n <= events.len(),
        shown_installed(events, k, role),
    ensures
        !state_at(events, n).facts.downloaded.contains(role),
        rank(state_at(events, n).phase) > task_rank(Task::Fetch(role)),
        state_at(events, n).inv(),
    decreases n,
{
    law_run_keeps_invariant(events, n - 1);
    law_run_keeps_invariant(events, n);
    lemma_state_unfolds(events, n - 1);
    lemma_step(state_at(events, n - 1), events[n - 1]);
    let s = state_at(events, n - 1);
    let t = state_at(events, n);
    if n == k + 1 {
        if s.facts.downloaded.contains(role) {
            let i = choose|i: int| 0 <= i < s.facts.downloaded.len() && s.facts.downloaded[i] == role;
            assert(s.facts.downloaded[i] < role);
        }
    } else {
        lemma_left_alone(events, k, role, n - 1);
        if t.facts.downloaded != s.facts.downloaded {
            let other = choose|other: usize|
                {
                    &&& s.phase == Phase::Running(Task::Fetch(other))
                    &&& t.facts.downloaded == s.facts.downloaded.push(other)
                };
            lemma_push_contains(s.facts.downloaded, other, role);
        }
    }
}

/// A package that the package database shows as installed in the version
/// wanted is left alone: from that reply on, its role is never among the
/// roles downloaded, and the run asks neither for a probe of its link nor
/// for its download.
pub proof fn law_installed_is_left_alone(events: Seq<EventView>, k: int, role: usize, n: int)
    requires
        0 <= k <= n < events.len(),
        shown_installed(events, k, role),
    ensures
        !state_at(events, n + 1).facts.downloaded.contains(role),
        !(step_at(events, n).action matches ActionView::Run(task, _) && task == Task::Probe(role)),
        !(step_at(events, n).action matches ActionView::Run(task, _) && task == Task::Fetch(role)),
{
    lemma_left_alone(events, k, role, n + 1);
    law_run_keeps_invariant(events, n);
    lemma_state_unfolds(events, n);
    lemma_step(state_at(events, n), events[n]);
}

/// Once the install phase has begun, the roles downloaded stay as they
/// are.
pub proof fn law_downloads_end_before_installs(events: Seq<EventView>, j: int, k: int)
    requires
        0 <= j <= k <= events.len(),
        rank(state_at(events, j).phase) >= task_rank(Task::Install(Batch::Gcc)),
    ensures
        state_at(events, k).facts.downloaded == state_at(events, j).facts.downloaded,
        state_at(events, j).facts.data is Some ==> state_at(events, k).facts.bundle()
            == state_at(events, j).facts.bundle(),
    decreases k - j,
{
    if j < k {
        law_downloads_end_before_installs(events, j, k - 1);
        law_run_never_goes_back(events, j, k - 1);
        law_run_keeps_invariant(events, k - 1);
        law_run_keeps_invariant(events, j);
        lemma_state_unfolds(events, k - 1);
        lemma_step(state_at(events, k - 1), events[k - 1]);
    }
}

/// A run installs at most twice: each batch at most once, and the compiler's
/// batch before the toolkit's.
pub proof fn law_each_batch_at_most_once(
    events: Seq<EventView>,
    j: int,
    k: int,
    first: Batch,
    second: Batch,
)
    requires
        0 <= j < k < events.len(),
        step_at(events, j).action matches ActionView::Run(task, _) && task == Task::Install(first),
        step_at(events, k).action matches ActionView::Run(task, _) && task == Task::Install(
            second,
        ),
    ensures
        first == Batch::Gcc,
        second == Batch::Cuda,
{
    law_tasks_come_in_order(events, j, k, Task::Install(first), Task::Install(second));
}

/// An install command names what was downloaded of its batch, and nothing
/// else: if a run asks for the install of a batch, then at least one of the
/// two roles of the batch is among the roles downloaded, as they stand at
/// the end of the run, and the command is the one that
/// [`crate::pkgs::PkgsView::batch`] words for the bundle picked and those
/// roles. A batch of which nothing was downloaded is never asked for.
pub proof fn law_install_names_the_downloaded(events: Seq<EventView>, k: int, batch: Batch)
    requires
        0 <= k < events.len(),
        step_at(events, k).action matches ActionView::Run(task, _) && task == Task::Install(batch),
    ensures
        ({
            let end = state_at(events, events.len() as int).facts;
            let (a, b) = batch.roles();
            &&& end.downloaded.contains(a) || end.downloaded.contains(b)
            &&& end.bundle().batch(batch, end.downloaded) is Some
            &&& step_at(events, k).action == ActionView::Run(
                Task::Install(batch),
                end.bundle().batch(batch, end.downloaded).unwrap(),
            )
        }),
{
    law_run_keeps_invariant(events, k);
    lemma_state_unfolds(events, k);
    lemma_step(state_at(events, k), events[k]);
    law_downloads_end_before_installs(events, k + 1, events.len() as int);
}

proof fn lemma_batches_installed(events: Seq<EventView>, n: int, batch: Batch) -> (k: int)
    requires
        0 <= n <= events.len(),
        !state_at(events, n).facts.failed,
        rank(state_at(events, n).phase) > task_rank(Task::Install(batch)),
        state_at(events, n).facts.bundle().batch(batch, state_at(events, n).facts.downloaded)
            is Some,
    ensures
        0 <= k < n,
        step_at(events, k).action matches ActionView::Run(task, _) && task == Task::Install(batch),
    decreases n,
{
    if n == 0 {
        assert(events.take(0) =~= Seq::<EventView>::empty());
        0
    } else {
        let s = state_at(events, n - 1);
        let t = state_at(events, n);
        law_run_keeps_invariant(events, n - 1);
        lemma_state_unfolds(events, n - 1);
        lemma_step(s, events[n - 1]);
        if s.phase == Phase::Running(Task::Install(batch)) {
            law_running_was_asked_for(events, n - 1, Task::Install(batch))
        } else if rank(s.phase) > task_rank(Task::Install(batch)) {
            lemma_batches_installed(events, n - 1, batch)
        } else {
            assert(false);
            0
        }
    }
}

/// A run that went through has installed every batch of which something was
/// downloaded: if a run is over and was not given up, and one of the two
/// roles of a batch is among the roles downloaded, then the run has asked
/// for the install of that batch.
pub proof fn law_finished_run_installed_each_batch(events: Seq<EventView>, batch: Batch) -> (k:
    int)
    requires
        state_at(events, events.len() as int).phase == Phase::Done,
        !state_at(events, events.len() as int).facts.failed,
        ({
            let end = state_at(events, events.len() as int).facts;
            end.downloaded.contains(batch.roles().0) || end.downloaded.contains(batch.roles().1)
        }),
    ensures
        0 <= k < events.len(),
        step_at(events, k).action matches ActionView::Run(task, _) && task == Task::Install(batch),
{
    lemma_batches_installed(events, events.len() as int, batch)
}

/// No exit without the removal of the scratch directory: if a run asks to
/// leave, it has asked for the removal of the scratch directory before, and
/// the exit status says whether the run was given up.
pub proof fn law_exit_follows_removal(events: Seq<EventView>, k: int) -> (j: int)
    requires
        0 <= k < events.len(),
        step_at(events, k).action is Exit,
    ensures
        0 <= j < k,
        step_at(events, j).action == ActionView::Run(Task::RemoveTmp, rmtmp_command()),
        step_at(events, k).action == ActionView::Exit(
            status(state_at(events, k + 1).facts.failed),
        ),
    decreases k,
{
    law_run_keeps_invariant(events, k);
    lemma_state_unfolds(events, k);
    lemma_step(state_at(events, k), events[k]);
    if state_at(events, k).phase == Phase::Done {
        law_run_keeps_invariant(events, k - 1);
        lemma_state_unfolds(events, k - 1);
        lemma_step(state_at(events, k - 1), events[k - 1]);
        if state_at(events, k - 1).phase == Phase::Done {
            law_exit_follows_removal(events, k - 1)
        } else {
            law_running_was_asked_for(events, k - 1, Task::RemoveTmp)
        }
    } else {
        law_running_was_asked_for(events, k, Task::RemoveTmp)
    }
}

/// The scratch directory is removed once: a run asks for its removal at
/// most one time, whatever brings the run to its end and whatever happens
/// while the removal is under way.
pub proof fn law_scratch_removed_once(events: Seq<EventView>, j: int, k: int)
    requires
        0 <= j < events.len(),
        0 <= k < events.len(),
        step_at(events, j).action matches ActionView::Run(task, _) && task == Task::RemoveTmp,
        step_at(events, k).action matches ActionView::Run(task, _) && task == Task::RemoveTmp,
    ensures
        j == k,
{
    if j < k {
        law_tasks_come_in_order(events, j, k, Task::RemoveTmp, Task::RemoveTmp);
    } else if k < j {
        law_tasks_come_in_order(events, k, j, Task::RemoveTmp, Task::RemoveTmp);
    }
}

/// Whether the event at position `j` of a run is the good ending of the
/// command that creates the scratch directory.
pub open spec fn scratch_made(events: Seq<EventView>, j: int) -> bool {
    &&& state_at(events, j).phase == Phase::Running(Task::MakeTmp)
    &&& events[j] matches EventView::Ran(outcome)
    &&& ran(mktmp_command(), outcome).reply is Ok
}

proof fn lemma_scratch_made(events: Seq<EventView>, n: int) -> (j: int)
    requires
        0 <= n <= events.len(),
        task_rank(Task::MakeTmp) < rank(state_at(events, n).phase) < task_rank(Task::RemoveTmp),
    ensures
        0 <= j < n,
        scratch_made(events, j),
    decreases n,
{
    if n == 0 {
        assert(events.take(0) =~= Seq::<EventView>::empty());
        0
    } else {
        let s = state_at(events, n - 1);
        law_run_keeps_invariant(events, n - 1);
        lemma_state_unfolds(events, n - 1);
        lemma_step(s, events[n - 1]);
        if task_rank(Task::MakeTmp) < rank(s.phase) {
            lemma_scratch_made(events, n - 1)
        } else {
            n - 1
        }
    }
}

/// The scratch directory is there before anything is put into it: if a run
/// asks the user, queries, probes, downloads or installs, then the command
/// that creates the scratch directory has run before and has ended well.
pub proof fn law_scratch_exists_first(events: Seq<EventView>, k: int) -> (j: int)
    requires
        0 <= k < events.len(),
        step_at(events, k).action is Ask || (step_at(events, k).action matches ActionView::Run(
            task,
            _,
        ) && task_rank(Task::MakeTmp) < task_rank(task) < task_rank(Task::RemoveTmp)),
    ensures
        0 <= j <= k,
        scratch_made(events, j),
{
    law_run_keeps_invariant(events, k);
    lemma_state_unfolds(events, k);
    lemma_step(state_at(events, k), events[k]);
    lemma_scratch_made(events, k + 1)
}

} // verus!
