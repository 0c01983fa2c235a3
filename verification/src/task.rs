//! A fitting task: the data of one run together with its coordinator.

use crate::coordinator::Action;
use crate::coordinator::Coordinator;
use crate::coordinator::Event;
use crate::coordinator::Stage;
use crate::coordinator::TaskState;
use crate::options::polling_interval_of;
use crate::options::relearning_steps_of;
use crate::options::reports_progress;
use crate::options::resolve;
use crate::options::short_term_of;
use crate::options::ComputeParametersOption;
use crate::outside::share;
use crate::progress::read_cell;
use crate::progress::ProgressCell;
use crate::progress::ProgressReading;
use crate::review::histories;
use crate::review::FSRSItem;
use crate::review::FSRSReview;
use crate::worker::FitJob;
use std::sync::Arc;
use std::sync::Mutex;
use vstd::prelude::*;

verus! {

/// A background task that fits parameters and reports its progress.
pub struct ComputeParametersTask {
    /// The model that the run holds the lock of while it fits.
    pub model: Arc<Mutex<fsrs::FSRS>>,
    pub enable_short_term: bool,
    /// The task's own copy of the training set.
    pub train_data: Vec<FSRSItem>,
    pub num_relearning_steps: usize,
    /// The cell that the worker writes its progress to, made for this run.
    pub progress: ProgressCell,
    pub coordinator: Coordinator,
}

/// The histories of a training set that is handed over by reference.
pub open spec fn borrowed_histories(items: Seq<&FSRSItem>) -> Seq<Seq<FSRSReview>> {
    items.map_values(|item: &FSRSItem| item@)
}

/// The event that a read of the progress cell amounts to, together with
/// the caller's word on whether the worker had ended before the read.
pub open spec fn observed(reading: Option<ProgressReading>, worker_ended: bool) -> Event {
    match reading {
        Some(r) => Event::Reading { reading: r, worker_ended },
        None => Event::CellLost,
    }
}

/// Copies a training set item by item.
pub fn copy_items(items: &Vec<FSRSItem>) -> (copy: Vec<FSRSItem>)
    ensures
        copy@.len() == items@.len(),
        forall|i: int| 0 <= i < items@.len() ==> (#[trigger] copy@[i])@ == items@[i]@,
        histories(copy@) == histories(items@),
{
    let mut copy: Vec<FSRSItem> = Vec::new();
    let mut i: usize = 0;
    while i < items.len()
        invariant
            i <= items@.len(),
            copy@.len() == i,
            forall|k: int| 0 <= k < i ==> (#[trigger] copy@[k])@ == items@[k]@,
        decreases items@.len() - i,
    {
        copy.push(items[i].copy());
        i = i + 1;
    }
    copy
}

/// Whether a task can be prepared with these options: a polling interval,
/// where one is given, is a positive duration.
pub open spec fn acceptable(options: Option<ComputeParametersOption>) -> bool {
    options matches Some(o) ==> o.wf()
}

/// Prepares a fitting task on `model` for a training set and the caller's
/// options, or `None` if the options ask for a polling interval of zero. The
/// task owns a copy of the training set and a new progress cell, and has not
/// been submitted yet.
pub fn compute_parameters(
    model: &Arc<Mutex<fsrs::FSRS>>,
    train_set: Vec<&FSRSItem>,
    options: Option<ComputeParametersOption>,
) -> (prepared: Option<ComputeParametersTask>)
    ensures
        prepared is Some <==> acceptable(options),
        prepared matches Some(task) ==> {
            &&& task.model == *model
            &&& task.train_data@.len() == train_set@.len()
            &&& forall|i: int|
                0 <= i < train_set@.len() ==> (#[trigger] task.train_data@[i])@ == train_set@[i]@
            &&& histories(task.train_data@) == borrowed_histories(train_set@)
            &&& task.enable_short_term == short_term_of(options)
            &&& task.num_relearning_steps == relearning_steps_of(options)
            &&& task.coordinator == (Coordinator {
                report_progress: reports_progress(options),
                progress_timeout: polling_interval_of(options),
                stage: Stage::Pending,
            })
            &&& task.coordinator.progress_timeout > 0
        },
{
    if let Some(o) = options {
        if !o.is_valid() {
            return None;
        }
    }
    let settings = resolve(options);
    let mut train_data: Vec<FSRSItem> = Vec::new();
    let mut i: usize = 0;
    while i < train_set.len()
        invariant
            i <= train_set@.len(),
            train_data@.len() == i,
            forall|k: int| 0 <= k < i ==> (#[trigger] train_data@[k])@ == train_set@[k]@,
        decreases train_set@.len() - i,
    {
        train_data.push(train_set[i].copy());
        i = i + 1;
    }
    Some(
        ComputeParametersTask {
            model: share(model),
            enable_short_term: settings.enable_short_term,
            train_data,
            num_relearning_steps: settings.num_relearning_steps,
            progress: ProgressCell::new(),
            coordinator: Coordinator::new(settings.report_progress, settings.progress_timeout),
        },
    )
}

impl ComputeParametersTask {
    /// The task with its coordinator moved on by `event`, all else as it was.
    pub open spec fn after(self, event: Event) -> ComputeParametersTask {
        ComputeParametersTask { coordinator: self.coordinator.after(event), ..self }
    }

    /// Takes one event and says what to do next.
    pub fn step(&mut self, event: Event) -> (action: Action)
        ensures
            *final(self) == old(self).after(event),
            action == old(self).coordinator.answer(event),
    {
        self.coordinator.step(event)
    }

    /// Answers [`Action::Poll`]: reads the task's progress cell and takes the
    /// reading as the next event. The reading is returned beside the action.
    ///
    /// `worker_ended` is the caller's word on the worker thread, found out
    /// before this call: a worker that had ended by then has written all it
    /// ever will, so the reading taken now is the last.
    pub fn poll(&mut self, worker_ended: bool) -> (polled: (Option<ProgressReading>, Action))
        ensures
            *final(self) == old(self).after(observed(polled.0, worker_ended)),
            polled.1 == old(self).coordinator.answer(observed(polled.0, worker_ended)),
    {
        let reading = read_cell(&self.progress);
        let event = match reading {
            Some(r) => Event::Reading { reading: r, worker_ended },
            None => Event::CellLost,
        };
        let action = self.coordinator.step(event);
        (reading, action)
    }

    /// Answers [`Action::StartWorker`]: what the worker thread is to own. The
    /// job shares the model's lock and the progress cell with the task and has
    /// a copy of the training set and of the fit's settings.
    pub fn worker(&self) -> (job: FitJob)
        ensures
            job.model == self.model,
            job.progress == self.progress,
            job.train_data@.len() == self.train_data@.len(),
            forall|i: int|
                0 <= i < self.train_data@.len() ==> (#[trigger] job.train_data@[i])@ == self.train_data@[i]@,
            histories(job.train_data@) == histories(self.train_data@),
            job.enable_short_term == self.enable_short_term,
            job.num_relearning_steps == self.num_relearning_steps,
    {
        FitJob {
            model: share(&self.model),
            train_data: copy_items(&self.train_data),
            progress: self.progress.share(),
            enable_short_term: self.enable_short_term,
            num_relearning_steps: self.num_relearning_steps,
        }
    }

    /// The state that the caller sees.
    pub fn state(&self) -> (state: TaskState)
        ensures
            state == self.coordinator.stage.state(),
    {
        self.coordinator.state()
    }
}

} // verus!
