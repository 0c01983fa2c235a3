//! The coordinator of one fitting run.
//!
//! The coordinator is a state machine. The caller performs what an
//! [`Action`] asks for and reports back with the [`Event`] that answers it;
//! [`Coordinator::step`] decides what comes next. It never blocks and never
//! fails: an event that the current stage does not wait for is ignored.
//!
//! Polling ends with the first reading that is done, with the first one
//! taken after the worker has ended, or with the loss of the cell. A worker
//! may end without the cell ever reading done: it could not have the model's
//! lock, or it unwound. So each reading comes with the caller's word on
//! whether the worker had ended before the cell was read, and no run polls
//! on after its worker.

use crate::error::TaskError;
use crate::progress::ProgressData;
use crate::progress::ProgressReading;
use vstd::prelude::*;

verus! {

/// Where a run stands, as its caller sees it.
#[derive(Clone, Copy, Debug, PartialEq, Eq, Structural)]
pub enum TaskState {
    Pending,
    Running,
    Succeeded,
    Failed,
}

/// Where a run stands, by what the coordinator waits for.
#[derive(Clone, Copy, Debug, PartialEq, Eq, Structural)]
pub enum Stage {
    /// Not submitted yet.
    Pending,
    /// Submitted; the worker is being started.
    Starting,
    /// Waiting for a reading of the progress cell.
    Polling,
    /// Waiting for the callback to take a snapshot; `last` if it is the final one.
    Delivering { last: bool },
    /// Waiting for the polling interval to pass.
    Sleeping,
    /// Polling is over; waiting for the worker to be joined.
    Joining,
    /// Resolved with parameters.
    Succeeded,
    /// Resolved with an error.
    Failed,
}

/// How the worker thread ended.
///
/// Parameters travel through the coordinator as the worker gives them: one
/// 32-bit pattern for each single-precision parameter. The coordinator never
/// looks into them.
#[derive(Debug, PartialEq, Eq)]
pub enum WorkerExit {
    /// The worker returned, with parameters or with its own error.
    Returned(Result<Vec<u32>, TaskError>),
    /// The worker unwound.
    Panicked,
}

/// What the caller reports to the coordinator.
#[derive(Debug, PartialEq, Eq)]
pub enum Event {
    /// The task was submitted.
    Submitted,
    /// The worker thread runs.
    WorkerStarted,
    /// The progress cell was read. `worker_ended` says whether the worker
    /// thread had ended before the read began.
    Reading { reading: ProgressReading, worker_ended: bool },
    /// The progress cell can no longer be read.
    CellLost,
    /// The callback was invoked; `true` if the host took the snapshot.
    Delivered(bool),
    /// The polling interval has passed.
    Woke,
    /// The worker was joined.
    Joined(WorkerExit),
}

/// What the coordinator asks of the caller.
#[derive(Debug, PartialEq, Eq)]
pub enum Action {
    /// The event did not apply; nothing has changed.
    Ignored,
    /// Start the worker, then report [`Event::WorkerStarted`].
    StartWorker,
    /// Read the progress cell, then report the reading.
    Poll,
    /// Hand the snapshot to the callback, then report [`Event::Delivered`].
    Deliver(ProgressData),
    /// Wait this many milliseconds, then report [`Event::Woke`].
    Sleep(u64),
    /// Join the worker, then report [`Event::Joined`].
    Join,
    /// Resolve the task with this outcome. Nothing follows.
    Resolve(Result<Vec<u32>, TaskError>),
}

impl Stage {
    /// The state that the caller sees in this stage.
    pub open spec fn state(self) -> TaskState {
        match self {
            Stage::Pending => TaskState::Pending,
            Stage::Succeeded => TaskState::Succeeded,
            Stage::Failed => TaskState::Failed,
            _ => TaskState::Running,
        }
    }

    /// The run has resolved.
    pub open spec fn terminal(self) -> bool {
        self == Stage::Succeeded || self == Stage::Failed
    }
}

impl WorkerExit {
    /// The outcome that a joined worker resolves to. A worker that unwound
    /// has no result of its own: its outcome is [`TaskError::WorkerPanic`].
    pub open spec fn outcome(self) -> Result<Vec<u32>, TaskError> {
        match self {
            WorkerExit::Returned(result) => result,
            WorkerExit::Panicked => Err(TaskError::WorkerPanic),
        }
    }
}

/// The stage that an outcome ends the run in.
pub open spec fn resolved_stage(outcome: Result<Vec<u32>, TaskError>) -> Stage {
    match outcome {
        Ok(_) => Stage::Succeeded,
        Err(_) => Stage::Failed,
    }
}

/// Whether a reading is the last of a run: it is done, or the worker had
/// ended before it was taken and will write no more.
pub open spec fn polling_over(reading: ProgressReading, worker_ended: bool) -> bool {
    reading.done() || worker_ended
}

/// The coordinator's rule: from a stage and an event to the next stage and
/// the action to perform. `report` says whether a callback wants snapshots,
/// `interval` is the polling interval in milliseconds.
pub open spec fn transition(stage: Stage, report: bool, interval: u64, event: Event) -> (Stage, Action) {
    match (stage, event) {
        (Stage::Pending, Event::Submitted) => (Stage::Starting, Action::StartWorker),
        (Stage::Starting, Event::WorkerStarted) => if report {
            (Stage::Polling, Action::Poll)
        } else {
            (Stage::Joining, Action::Join)
        },
        (Stage::Polling, Event::Reading { reading, worker_ended }) => (
            Stage::Delivering { last: polling_over(reading, worker_ended) },
            Action::Deliver(reading.snapshot()),
        ),
        (Stage::Polling, Event::CellLost) => (Stage::Joining, Action::Join),
        (Stage::Delivering { last }, Event::Delivered(_)) => if last {
            (Stage::Joining, Action::Join)
        } else {
            (Stage::Sleeping, Action::Sleep(interval))
        },
        (Stage::Sleeping, Event::Woke) => (Stage::Polling, Action::Poll),
        (Stage::Joining, Event::Joined(exit)) => (
            resolved_stage(exit.outcome()),
            Action::Resolve(exit.outcome()),
        ),
        _ => (stage, Action::Ignored),
    }
}

/// The deciding part of a fitting task: two settings and the stage reached.
#[derive(Clone, Copy, Debug, PartialEq, Eq, Structural)]
pub struct Coordinator {
    /// Whether a callback wants progress snapshots.
    pub report_progress: bool,
    /// Milliseconds between two snapshots.
    pub progress_timeout: u64,
    pub stage: Stage,
}

impl Coordinator {
    /// A coordinator for a task that has not been submitted.
    pub fn new(report_progress: bool, progress_timeout: u64) -> (c: Coordinator)
        ensures
            c == (Coordinator { report_progress, progress_timeout, stage: Stage::Pending }),
    {
        Coordinator { report_progress, progress_timeout, stage: Stage::Pending }
    }

    /// The coordinator after `event`, by [`transition`].
    pub open spec fn after(self, event: Event) -> Coordinator {
        Coordinator {
            stage: transition(self.stage, self.report_progress, self.progress_timeout, event).0,
            ..self
        }
    }

    /// The action that `event` is answered with, by [`transition`].
    pub open spec fn answer(self, event: Event) -> Action {
        transition(self.stage, self.report_progress, self.progress_timeout, event).1
    }

    /// Takes one event and says what to do next.
    pub fn step(&mut self, event: Event) -> (action: Action)
        ensures
            *final(self) == old(self).after(event),
            action == old(self).answer(event),
    {
        match self.stage {
            Stage::Pending => match event {
                Event::Submitted => {
                    self.stage = Stage::Starting;
                    Action::StartWorker
                },
                _ => Action::Ignored,
            },
            Stage::Starting => match event {
                Event::WorkerStarted => {
                    if self.report_progress {
                        self.stage = Stage::Polling;
                        Action::Poll
                    } else {
                        self.stage = Stage::Joining;
                        Action::Join
                    }
                },
                _ => Action::Ignored,
            },
            Stage::Polling => match event {
                Event::Reading { reading, worker_ended } => {
                    self.stage = Stage::Delivering { last: reading.is_done() || worker_ended };
                    Action::Deliver(ProgressData::from_reading(reading))
                },
                Event::CellLost => {
                    self.stage = Stage::Joining;
                    Action::Join
                },
                _ => Action::Ignored,
            },
            Stage::Delivering { last } => match event {
                Event::Delivered(_) => {
                    if last {
                        self.stage = Stage::Joining;
                        Action::Join
                    } else {
                        self.stage = Stage::Sleeping;
                        Action::Sleep(self.progress_timeout)
                    }
                },
                _ => Action::Ignored,
            },
            Stage::Sleeping => match event {
                Event::Woke => {
                    self.stage = Stage::Polling;
                    Action::Poll
                },
                _ => Action::Ignored,
            },
            Stage::Joining => match event {
                Event::Joined(exit) => {
                    let outcome = match exit {
                        WorkerExit::Returned(result) => result,
                        WorkerExit::Panicked => Err(TaskError::WorkerPanic),
                    };
                    self.stage = match &outcome {
                        Ok(_) => Stage::Succeeded,
                        Err(_) => Stage::Failed,
                    };
                    Action::Resolve(outcome)
                },
                _ => Action::Ignored,
            },
            Stage::Succeeded => Action::Ignored,
            Stage::Failed => Action::Ignored,
        }
    }

    /// The state that the caller sees.
    pub fn state(&self) -> (state: TaskState)
        ensures
            state == self.stage.state(),
    {
        match self.stage {
            Stage::Pending => TaskState::Pending,
            Stage::Succeeded => TaskState::Succeeded,
            Stage::Failed => TaskState::Failed,
            _ => TaskState::Running,
        }
    }
}

} // verus!
