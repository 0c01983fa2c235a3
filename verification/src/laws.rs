//! What holds of every run of the coordinator, whatever the caller reports.

use crate::coordinator::Action;
use crate::coordinator::polling_over;
use crate::coordinator::Coordinator;
use crate::coordinator::Event;
use crate::coordinator::Stage;
use crate::coordinator::TaskState;
use crate::coordinator::WorkerExit;
use crate::error::TaskError;
use crate::options::settings_of;
use crate::options::ComputeParametersOption;
use crate::options::DEFAULT_RELEARNING_STEPS;
use crate::progress::ProgressReading;
use crate::task::acceptable;
use vstd::prelude::*;

verus! {

/// The coordinator after a sequence of events, taken in order.
pub open spec fn run(start: Coordinator, events: Seq<Event>) -> Coordinator
    decreases events.len(),
{
    if events.len() == 0 {
        start
    } else {
        run(start, events.drop_last()).after(events.last())
    }
}

/// The action that answers event number `i` of a run.
pub open spec fn action_at(start: Coordinator, events: Seq<Event>, i: int) -> Action {
    run(start, events.take(i)).answer(events[i])
}

/// Whether `event` is what a caller reports after performing `action`.
pub open spec fn answers(action: Action, event: Event) -> bool {
    match action {
        Action::StartWorker => event is WorkerStarted,
        Action::Poll => event is Reading || event is CellLost,
        Action::Deliver(_) => event is Delivered,
        Action::Sleep(_) => event is Woke,
        Action::Join => event is Joined,
        Action::Resolve(_) => false,
        Action::Ignored => false,
    }
}

/// A run in which the caller submits the task and from then on reports
/// exactly what it was asked for.
pub open spec fn obedient(start: Coordinator, events: Seq<Event>) -> bool {
    &&& events.len() > 0 ==> events[0] == Event::Submitted
    &&& forall|i: int|
        0 <= i < events.len() - 1 ==> answers(#[trigger] action_at(start, events, i), events[i + 1])
}

/// The readings of a run never go back: of two readings, the later one has
/// done at least as many steps.
pub open spec fn readings_advance(events: Seq<Event>) -> bool {
    forall|i: int, j: int|
        0 <= i < j < events.len() && (#[trigger] events[i]) is Reading && (#[trigger] events[j]) is Reading
            ==> events[i]->reading.current <= events[j]->reading.current
}

/// The order in which a task passes through its states.
pub open spec fn state_rank(state: TaskState) -> nat {
    match state {
        TaskState::Pending => 0,
        TaskState::Running => 1,
        TaskState::Succeeded => 2,
        TaskState::Failed => 2,
    }
}

/// The order in which a run passes through its stages. The three stages of
/// the polling loop share a rank: the loop goes round among them.
pub open spec fn stage_rank(stage: Stage) -> nat {
    match stage {
        Stage::Pending => 0,
        Stage::Starting => 1,
        Stage::Polling => 2,
        Stage::Delivering { .. } => 2,
        Stage::Sleeping => 2,
        Stage::Joining => 3,
        Stage::Succeeded => 4,
        Stage::Failed => 4,
    }
}

/// One more event extends a run by one step.
pub proof fn lemma_run_step(start: Coordinator, events: Seq<Event>, i: int)
    requires
        0 <= i < events.len(),
    ensures
        run(start, events.take(i + 1)) == run(start, events.take(i)).after(events[i]),
{
    let prefix = events.take(i + 1);
    assert(prefix.drop_last() == events.take(i));
    assert(prefix.last() == events[i]);
}

/// The two settings of a coordinator stay as they are throughout a run.
pub proof fn lemma_settings_kept(start: Coordinator, events: Seq<Event>)
    ensures
        run(start, events).report_progress == start.report_progress,
        run(start, events).progress_timeout == start.progress_timeout,
    decreases events.len(),
{
    if events.len() > 0 {
        lemma_settings_kept(start, events.drop_last());
    }
}

/// A task leaves `Pending` on its submission and on nothing else, and it
/// becomes `Running` by it.
pub proof fn lemma_submission_starts_the_run(c: Coordinator, event: Event)
    requires
        c.stage.state() == TaskState::Pending,
    ensures
        event == Event::Submitted ==> c.after(event).stage.state() == TaskState::Running,
        event != Event::Submitted ==> c.after(event) == c,
{
}

/// A run never goes back: from `Pending` to `Running` to one of the two
/// terminal states, and within `Running` from the start of the worker to the
/// polling loop to the join.
pub proof fn lemma_run_never_goes_back(start: Coordinator, events: Seq<Event>, k: int, m: int)
    requires
        0 <= k <= m <= events.len(),
    ensures
        stage_rank(run(start, events.take(k)).stage) <= stage_rank(run(start, events.take(m)).stage),
        state_rank(run(start, events.take(k)).stage.state()) <= state_rank(
            run(start, events.take(m)).stage.state(),
        ),
    decreases m - k,
{
    if k < m {
        lemma_run_never_goes_back(start, events, k, m - 1);
        lemma_run_step(start, events, m - 1);
    }
}

/// A run starts one worker and joins it once: the coordinator asks for the
/// start of the worker at most once, and for its join at most once.
pub proof fn lemma_one_worker_one_join(start: Coordinator, events: Seq<Event>, i: int, j: int)
    requires
        0 <= i < j < events.len(),
    ensures
        action_at(start, events, i) == Action::StartWorker ==> action_at(start, events, j) != Action::StartWorker,
        action_at(start, events, i) == Action::Join ==> action_at(start, events, j) != Action::Join,
{
    lemma_run_step(start, events, i);
    lemma_run_never_goes_back(start, events, i + 1, j);
}

/// A resolved run stays as it is: once the stage is terminal, every later
/// prefix of the run ends in the same stage.
pub proof fn lemma_terminal_stays(start: Coordinator, events: Seq<Event>, k: int, m: int)
    requires
        0 <= k <= m <= events.len(),
        run(start, events.take(k)).stage.terminal(),
    ensures
        run(start, events.take(m)) == run(start, events.take(k)),
    decreases m - k,
{
    if k < m {
        lemma_terminal_stays(start, events, k, m - 1);
        lemma_run_step(start, events, m - 1);
    }
}

/// A task resolves only on the join of its worker, with the worker's own
/// outcome or, if the worker unwound, with a panic error; and with that the
/// run has ended, in `Succeeded` for parameters and in `Failed` otherwise.
pub proof fn lemma_resolution_is_the_join(start: Coordinator, events: Seq<Event>, i: int)
    requires
        0 <= i < events.len(),
        action_at(start, events, i) is Resolve,
    ensures
        run(start, events.take(i)).stage == Stage::Joining,
        events[i] is Joined,
        action_at(start, events, i) == Action::Resolve(events[i]->Joined_0.outcome()),
        run(start, events.take(i + 1)).stage.terminal(),
        run(start, events.take(i + 1)).stage == Stage::Succeeded <==> events[i]->Joined_0.outcome() is Ok,
{
    lemma_run_step(start, events, i);
}

/// After the resolution nothing happens: every later event is ignored. So no
/// snapshot is delivered after the outcome, and no second outcome follows.
pub proof fn lemma_nothing_follows_resolution(start: Coordinator, events: Seq<Event>, i: int, j: int)
    requires
        0 <= i < j < events.len(),
        action_at(start, events, i) is Resolve,
    ensures
        action_at(start, events, j) == Action::Ignored,
        run(start, events.take(j + 1)) == run(start, events.take(i + 1)),
{
    lemma_resolution_is_the_join(start, events, i);
    lemma_terminal_stays(start, events, i + 1, j);
    lemma_terminal_stays(start, events, i + 1, j + 1);
}

/// Every snapshot of a run is handed over before the run resolves.
pub proof fn lemma_deliveries_precede_resolution(start: Coordinator, events: Seq<Event>, d: int, r: int)
    requires
        0 <= d < events.len(),
        0 <= r < events.len(),
        action_at(start, events, d) is Deliver,
        action_at(start, events, r) is Resolve,
    ensures
        d < r,
{
    if r < d {
        lemma_nothing_follows_resolution(start, events, r, d);
    }
}

/// A run that starts before the resolution resolves at most once, and it has
/// resolved exactly when it has reached a terminal stage.
pub proof fn lemma_resolves_exactly_once(start: Coordinator, events: Seq<Event>)
    requires
        !start.stage.terminal(),
    ensures
        forall|i: int, j: int|
            0 <= i < j < events.len() && (#[trigger] action_at(start, events, i)) is Resolve ==> !(
            #[trigger] action_at(start, events, j) is Resolve),
        run(start, events).stage.terminal() <==> exists|i: int|
            0 <= i < events.len() && (#[trigger] action_at(start, events, i)) is Resolve,
    decreases events.len(),
{
    assert forall|i: int, j: int|
        0 <= i < j < events.len() && (#[trigger] action_at(start, events, i)) is Resolve implies !(
    #[trigger] action_at(start, events, j) is Resolve) by {
        lemma_nothing_follows_resolution(start, events, i, j);
    }
    if events.len() == 0 {
    } else {
        let n = events.len() as int;
        let shorter = events.drop_last();
        lemma_resolves_exactly_once(start, shorter);
        assert(events.take(n - 1) == shorter);
        assert(events.take(n) == events);
        lemma_run_step(start, events, n - 1);
        assert forall|i: int| 0 <= i < n - 1 implies action_at(start, shorter, i) == action_at(
            start,
            events,
            i,
        ) by {
            assert(shorter.take(i) == events.take(i));
        }
        if run(start, shorter).stage.terminal() {
            let i = choose|i: int| 0 <= i < shorter.len() && (#[trigger] action_at(start, shorter, i)) is Resolve;
            assert(action_at(start, events, i) is Resolve);
        } else if run(start, events).stage.terminal() {
            assert(action_at(start, events, n - 1) is Resolve);
        } else {
            assert forall|i: int| 0 <= i < n implies !(#[trigger] action_at(start, events, i) is Resolve) by {
                if i < n - 1 {
                    assert(action_at(start, shorter, i) == action_at(start, events, i));
                }
            }
        }
    }
}

/// Every snapshot handed to the callback is the snapshot of the reading just
/// reported: the counts are those read, the fraction lies between zero and
/// one, and it is zero while the total is 0.
pub proof fn lemma_delivery_is_the_reading(start: Coordinator, events: Seq<Event>, i: int)
    requires
        0 <= i < events.len(),
        action_at(start, events, i) is Deliver,
    ensures
        events[i] is Reading,
        action_at(start, events, i) == Action::Deliver(events[i]->reading.snapshot()),
        action_at(start, events, i)->Deliver_0.current == events[i]->reading.current,
        action_at(start, events, i)->Deliver_0.percent.wf(),
        events[i]->reading.total == 0 ==> action_at(start, events, i)->Deliver_0.percent.is_zero(),
{
}

/// While the fit only advances, so do the snapshots: of two snapshots handed
/// to the callback in one run, the later one has done at least as many steps.
pub proof fn lemma_deliveries_advance(start: Coordinator, events: Seq<Event>, i: int, j: int)
    requires
        readings_advance(events),
        0 <= i < j < events.len(),
        action_at(start, events, i) is Deliver,
        action_at(start, events, j) is Deliver,
    ensures
        action_at(start, events, i)->Deliver_0.current <= action_at(start, events, j)->Deliver_0.current,
{
    lemma_delivery_is_the_reading(start, events, i);
    lemma_delivery_is_the_reading(start, events, j);
}

/// Whether the host took a snapshot or dropped it makes no difference to the
/// run: the coordinator goes on in the same way.
pub proof fn lemma_dropped_delivery_changes_nothing(c: Coordinator, taken: bool)
    ensures
        c.after(Event::Delivered(taken)) == c.after(Event::Delivered(true)),
        c.answer(Event::Delivered(taken)) == c.answer(Event::Delivered(true)),
{
}

/// A worker that unwound is found at the join and ends the run in failure,
/// with the panic error and not with one of the algorithm's.
pub proof fn lemma_worker_panic_fails(c: Coordinator)
    requires
        c.stage == Stage::Joining,
    ensures
        c.after(Event::Joined(WorkerExit::Panicked)).stage == Stage::Failed,
        c.answer(Event::Joined(WorkerExit::Panicked)) == Action::Resolve(Err(TaskError::WorkerPanic)),
{
}

/// The coordinator sleeps for the configured interval and for nothing else.
pub proof fn lemma_sleep_is_the_interval(start: Coordinator, events: Seq<Event>, i: int)
    requires
        0 <= i < events.len(),
        action_at(start, events, i) is Sleep,
    ensures
        action_at(start, events, i) == Action::Sleep(start.progress_timeout),
{
    lemma_settings_kept(start, events.take(i));
}

/// A caller that reports what it was asked for is never ignored, as long as
/// it starts with the submission of a pending task.
pub proof fn lemma_obedient_is_heard(start: Coordinator, events: Seq<Event>, i: int)
    requires
        start.stage == Stage::Pending,
        obedient(start, events),
        0 <= i < events.len(),
    ensures
        action_at(start, events, i) != Action::Ignored,
    decreases i,
{
    if i == 0 {
        assert(events.take(0) =~= Seq::<Event>::empty());
    } else {
        lemma_obedient_is_heard(start, events, i - 1);
        lemma_run_step(start, events, i - 1);
        assert(answers(action_at(start, events, i - 1), events[i]));
    }
}

/// In a run whose caller does as asked, a reading that is done, or that was
/// taken after the worker had ended, brings the resolution with the second
/// event after it: the last delivery is reported, then the join. So a run
/// does not poll on after its worker, whether or not the cell reads done.
pub proof fn lemma_obedient_run_resolves(start: Coordinator, events: Seq<Event>, i: int)
    requires
        start.stage == Stage::Pending,
        obedient(start, events),
        0 <= i,
        i + 2 < events.len(),
        events[i] is Reading,
        polling_over(events[i]->reading, events[i]->worker_ended),
    ensures
        action_at(start, events, i + 2) is Resolve,
        run(start, events.take(i + 3)).stage.terminal(),
{
    lemma_obedient_is_heard(start, events, i);
    lemma_run_step(start, events, i);
    assert(answers(action_at(start, events, i), events[i + 1]));
    lemma_run_step(start, events, i + 1);
    assert(answers(action_at(start, events, i + 1), events[i + 2]));
    lemma_run_step(start, events, i + 2);
}

/// A task without a callback never polls and never delivers a snapshot.
pub proof fn lemma_silent_run_never_delivers(start: Coordinator, events: Seq<Event>, i: int)
    requires
        start.stage == Stage::Pending,
        !start.report_progress,
        0 <= i < events.len(),
    ensures
        !(action_at(start, events, i) is Deliver),
        !(action_at(start, events, i) is Poll),
        !(action_at(start, events, i) is Sleep),
{
    lemma_silent_stages(start, events.take(i));
    lemma_settings_kept(start, events.take(i));
}

/// The stages that a task without a callback can be in.
proof fn lemma_silent_stages(start: Coordinator, events: Seq<Event>)
    requires
        start.stage == Stage::Pending,
        !start.report_progress,
    ensures
        run(start, events).stage != Stage::Polling,
        run(start, events).stage != Stage::Sleeping,
        !(run(start, events).stage is Delivering),
    decreases events.len(),
{
    if events.len() > 0 {
        lemma_silent_stages(start, events.drop_last());
        lemma_settings_kept(start, events.drop_last());
    }
}

/// Polling ends with the first reading that is done or that was taken after
/// the worker had ended: that reading is still delivered, and whatever the
/// host does with it, the coordinator then joins the worker and resolves with
/// the worker's outcome.
pub proof fn lemma_last_reading_ends_the_run(
    c: Coordinator,
    reading: ProgressReading,
    worker_ended: bool,
    taken: bool,
    exit: WorkerExit,
)
    requires
        c.stage == Stage::Polling,
        polling_over(reading, worker_ended),
    ensures
        c.answer(Event::Reading { reading, worker_ended }) == Action::Deliver(reading.snapshot()),
        c.after(Event::Reading { reading, worker_ended }).answer(Event::Delivered(taken)) == Action::Join,
        c.after(Event::Reading { reading, worker_ended }).after(Event::Delivered(taken)).answer(
            Event::Joined(exit),
        ) == Action::Resolve(exit.outcome()),
{
}

/// A worker that ended without the cell reading done, be it that it unwound
/// or that it could not have the model's lock, does not keep the run
/// polling: the reading taken after its end is the last, and the run
/// resolves with what the join finds. For a worker that unwound that is the
/// panic error.
pub proof fn lemma_ended_worker_is_joined(c: Coordinator, reading: ProgressReading, taken: bool, exit: WorkerExit)
    requires
        c.stage == Stage::Polling,
    ensures
        c.after(Event::Reading { reading, worker_ended: true }).after(Event::Delivered(taken)).stage
            == Stage::Joining,
        c.after(Event::Reading { reading, worker_ended: true }).after(Event::Delivered(taken)).answer(
            Event::Joined(exit),
        ) == Action::Resolve(exit.outcome()),
        c.after(Event::Reading { reading, worker_ended: true }).after(Event::Delivered(taken)).answer(
            Event::Joined(WorkerExit::Panicked),
        ) == Action::Resolve(Err(TaskError::WorkerPanic)),
{
}

/// A lost cell ends the polling as well: nothing is delivered, and the
/// coordinator joins the worker and resolves with the worker's outcome.
pub proof fn lemma_lost_cell_ends_the_run(c: Coordinator, exit: WorkerExit)
    requires
        c.stage == Stage::Polling,
    ensures
        c.answer(Event::CellLost) == Action::Join,
        c.after(Event::CellLost).answer(Event::Joined(exit)) == Action::Resolve(exit.outcome()),
{
}

/// A reading that is not done, taken while the worker runs, keeps the run
/// polling: the snapshot is delivered, the coordinator sleeps and then asks
/// for the next reading.
pub proof fn lemma_open_reading_polls_again(c: Coordinator, reading: ProgressReading, taken: bool)
    requires
        c.stage == Stage::Polling,
        !reading.done(),
    ensures
        c.answer(Event::Reading { reading, worker_ended: false }) == Action::Deliver(reading.snapshot()),
        c.after(Event::Reading { reading, worker_ended: false }).answer(Event::Delivered(taken))
            == Action::Sleep(c.progress_timeout),
        c.after(Event::Reading { reading, worker_ended: false }).after(Event::Delivered(taken)).answer(
            Event::Woke,
        ) == Action::Poll,
        c.after(Event::Reading { reading, worker_ended: false }).after(Event::Delivered(taken)).after(
            Event::Woke,
        ) == c,
{
}

/// Options that name no relearning steps stand for the same run as options
/// that name the default: the settings are the same, so the same count is
/// handed to the fit, and the one is accepted exactly when the other is.
pub proof fn lemma_omitted_relearning_steps_are_the_default(
    omitted: ComputeParametersOption,
    explicit: ComputeParametersOption,
)
    requires
        omitted.num_relearning_steps is None,
        explicit == (ComputeParametersOption {
            num_relearning_steps: Some(DEFAULT_RELEARNING_STEPS),
            ..omitted
        }),
    ensures
        settings_of(Some(omitted)) == settings_of(Some(explicit)),
        acceptable(Some(omitted)) == acceptable(Some(explicit)),
        settings_of(None).num_relearning_steps == DEFAULT_RELEARNING_STEPS,
{
}

/// Without a callback the run does not poll at all: it starts the worker,
/// joins it and resolves.
pub proof fn lemma_silent_run(c: Coordinator, exit: WorkerExit)
    requires
        c.stage == Stage::Pending,
        !c.report_progress,
    ensures
        c.answer(Event::Submitted) == Action::StartWorker,
        c.after(Event::Submitted).answer(Event::WorkerStarted) == Action::Join,
        c.after(Event::Submitted).after(Event::WorkerStarted).answer(Event::Joined(exit)) == Action::Resolve(
            exit.outcome(),
        ),
{
}

} // verus!
