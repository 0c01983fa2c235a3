use fsrs_nodejs::coordinator::Action;
use fsrs_nodejs::coordinator::Event;
use fsrs_nodejs::coordinator::Stage;
use fsrs_nodejs::coordinator::TaskState;
use fsrs_nodejs::coordinator::WorkerExit;
use fsrs_nodejs::options::ComputeParametersOption;
use fsrs_nodejs::options::DEFAULT_POLLING_INTERVAL_MS;
use fsrs_nodejs::progress::Fraction;
use fsrs_nodejs::progress::ProgressData;
use fsrs_nodejs::progress::ProgressReading;
use fsrs_nodejs::review::FSRSItem;
use fsrs_nodejs::review::FSRSReview;
use fsrs_nodejs::task::compute_parameters;
use fsrs_nodejs::task::copy_items;
use std::sync::Arc;
use std::sync::Mutex;

fn model() -> Arc<Mutex<fsrs::FSRS>> {
    Arc::new(Mutex::new(fsrs::FSRS::default()))
}

fn item(reviews: &[(u32, u32)]) -> FSRSItem {
    FSRSItem { reviews: reviews.iter().map(|&(rating, delta_t)| FSRSReview::new(rating, delta_t)).collect() }
}

fn options(progress: bool, timeout: Option<u64>) -> ComputeParametersOption {
    ComputeParametersOption { enable_short_term: false, num_relearning_steps: Some(3), progress, timeout }
}

#[test]
fn default_polling_interval_is_half_a_second() {
    assert_eq!(DEFAULT_POLLING_INTERVAL_MS, 500);
}

#[test]
fn options_with_a_zero_interval_are_invalid() {
    assert!(!options(true, Some(0)).is_valid());
    assert!(options(true, Some(1)).is_valid());
    assert!(options(true, None).is_valid());
    assert!(options(false, Some(u64::MAX)).is_valid());
}

#[test]
fn task_without_options_uses_the_defaults() {
    let m = model();
    let task = compute_parameters(&m, vec![], None).unwrap();
    assert!(task.enable_short_term);
    assert_eq!(task.num_relearning_steps, 1);
    assert!(!task.coordinator.report_progress);
    assert_eq!(task.coordinator.progress_timeout, 500);
    assert_eq!(task.coordinator.stage, Stage::Pending);
    assert_eq!(task.state(), TaskState::Pending);
    assert!(task.train_data.is_empty());
}

#[test]
fn task_takes_what_the_options_say() {
    let m = model();
    let task = compute_parameters(&m, vec![], Some(options(true, Some(20)))).unwrap();
    assert!(!task.enable_short_term);
    assert_eq!(task.num_relearning_steps, 3);
    assert!(task.coordinator.report_progress);
    assert_eq!(task.coordinator.progress_timeout, 20);
    assert_eq!(task.coordinator.stage, Stage::Pending);
}

#[test]
fn options_without_an_interval_get_the_default() {
    let m = model();
    let task = compute_parameters(&m, vec![], Some(options(true, None))).unwrap();
    assert_eq!(task.coordinator.progress_timeout, 500);
    assert!(task.coordinator.report_progress);
}

#[test]
fn task_owns_a_copy_of_the_training_set() {
    let m = model();
    let a = item(&[(3, 0), (4, 2)]);
    let b = item(&[(1, 0)]);
    let task = compute_parameters(&m, vec![&a, &b], None).unwrap();
    assert_eq!(task.train_data, vec![a.copy(), b.copy()]);
}

#[test]
fn task_shares_the_model_with_its_caller() {
    let m = model();
    let task = compute_parameters(&m, vec![], None).unwrap();
    assert!(Arc::ptr_eq(&task.model, &m));
    assert_eq!(Arc::strong_count(&m), 2);
}

#[test]
fn each_task_has_a_progress_cell_of_its_own() {
    let m = model();
    let mut first = compute_parameters(&m, vec![], None).unwrap();
    let mut second = compute_parameters(&m, vec![], None).unwrap();
    assert!(first.worker().run().is_ok());
    // The fit of the first task has finished; the second task's cell knows nothing of it.
    assert_eq!(first.poll(true).0, Some(ProgressReading { current: 0, total: 0, finished: true }));
    assert_eq!(second.poll(false).0, Some(ProgressReading { current: 0, total: 0, finished: false }));
}

#[test]
fn copied_items_are_equal_to_those_copied() {
    let items = vec![item(&[(3, 0), (4, 2)]), item(&[]), item(&[(1, 0)])];
    assert_eq!(copy_items(&items), items);
    assert_eq!(copy_items(&Vec::new()), Vec::<FSRSItem>::new());
}

#[test]
fn worker_gets_the_settings_and_shares_model_and_cell() {
    let m = model();
    let a = item(&[(3, 0), (4, 2)]);
    let task = compute_parameters(&m, vec![&a], Some(options(true, Some(5)))).unwrap();
    let job = task.worker();
    assert!(Arc::ptr_eq(&job.model, &m));
    assert_eq!(job.train_data, task.train_data);
    assert_eq!(job.enable_short_term, false);
    assert_eq!(job.num_relearning_steps, 3);
}

#[test]
fn step_moves_only_the_coordinator() {
    let m = model();
    let a = item(&[(3, 0)]);
    let mut task = compute_parameters(&m, vec![&a], Some(options(true, Some(5)))).unwrap();
    assert_eq!(task.step(Event::Submitted), Action::StartWorker);
    assert_eq!(task.state(), TaskState::Running);
    assert_eq!(task.step(Event::WorkerStarted), Action::Poll);
    assert_eq!(task.coordinator.stage, Stage::Polling);
    assert_eq!(task.train_data, vec![a]);
    assert_eq!(task.num_relearning_steps, 3);
    assert_eq!(task.coordinator.progress_timeout, 5);
    assert!(Arc::ptr_eq(&task.model, &m));
}

#[test]
fn poll_delivers_what_the_cell_holds() {
    let m = model();
    let mut task = compute_parameters(&m, vec![], Some(options(true, Some(5)))).unwrap();
    task.step(Event::Submitted);
    task.step(Event::WorkerStarted);
    let (reading, action) = task.poll(false);
    assert_eq!(reading, Some(ProgressReading { current: 0, total: 0, finished: false }));
    assert_eq!(
        action,
        Action::Deliver(ProgressData {
            current: 0,
            total: 0,
            percent: Fraction { numerator: 0, denominator: 1 }
        })
    );
    assert_eq!(task.step(Event::Delivered(true)), Action::Sleep(5));
    assert_eq!(task.step(Event::Woke), Action::Poll);
    // The worker shares the task's cell: what its fit writes, the next poll reads.
    assert!(task.worker().run().is_ok());
    let (reading, action) = task.poll(false);
    assert_eq!(reading, Some(ProgressReading { current: 0, total: 0, finished: true }));
    assert!(matches!(action, Action::Deliver(_)));
    assert_eq!(task.step(Event::Delivered(true)), Action::Join);
}

#[test]
fn poll_after_the_worker_has_ended_is_the_last() {
    let m = model();
    let mut task = compute_parameters(&m, vec![], Some(options(true, Some(5)))).unwrap();
    task.step(Event::Submitted);
    task.step(Event::WorkerStarted);
    // No fit has run: the cell does not read finished, but the worker is gone.
    let (reading, action) = task.poll(true);
    assert_eq!(reading, Some(ProgressReading { current: 0, total: 0, finished: false }));
    assert!(matches!(action, Action::Deliver(_)));
    assert_eq!(task.coordinator.stage, Stage::Delivering { last: true });
    assert_eq!(task.step(Event::Delivered(true)), Action::Join);
    assert_eq!(
        task.step(Event::Joined(WorkerExit::Panicked)),
        Action::Resolve(Err(fsrs_nodejs::error::TaskError::WorkerPanic))
    );
    assert_eq!(task.state(), TaskState::Failed);
}

#[test]
fn poll_reads_the_progress_of_a_training() {
    let m = model();
    let mut items = Vec::new();
    for card in 0..200u32 {
        let mut history = vec![FSRSReview::new(1 + card % 4, 0)];
        for step in 1..8u32 {
            let rating = if (card + step) % 5 == 0 { 1 } else { 3 };
            history.push(FSRSReview::new(rating, 1 + (card % 3) + step * (1 + card % 2)));
            items.push(FSRSItem { reviews: history.clone() });
        }
    }
    let mut task = compute_parameters(&m, items.iter().collect(), Some(options(true, Some(5)))).unwrap();
    task.step(Event::Submitted);
    task.step(Event::WorkerStarted);
    assert!(task.worker().run().is_ok());
    let (reading, action) = task.poll(true);
    let reading = reading.expect("the cell can be read");
    assert!(reading.finished);
    assert!(reading.total > 0);
    assert!(reading.current <= reading.total);
    assert_eq!(action, Action::Deliver(ProgressData::from_reading(reading)));
}

#[test]
fn poll_out_of_turn_reads_but_changes_nothing() {
    let m = model();
    let mut task = compute_parameters(&m, vec![], Some(options(true, Some(5)))).unwrap();
    let (reading, action) = task.poll(false);
    assert_eq!(reading, Some(ProgressReading { current: 0, total: 0, finished: false }));
    assert_eq!(action, Action::Ignored);
    assert_eq!(task.state(), TaskState::Pending);
}

#[test]
fn whole_run_with_a_real_fit() {
    let m = model();
    let a = item(&[(1, 0)]);
    let mut task = compute_parameters(&m, vec![&a], Some(options(true, Some(1)))).unwrap();
    assert_eq!(task.step(Event::Submitted), Action::StartWorker);
    let job = task.worker();
    let mut action = task.step(Event::WorkerStarted);
    // The worker runs here, on this thread, before the first poll.
    let result = job.run();
    let mut deliveries = 0;
    let outcome = loop {
        action = match action {
            Action::Poll => task.poll(true).1,
            Action::Deliver(data) => {
                deliveries += 1;
                assert!(data.percent.numerator <= data.percent.denominator);
                task.step(Event::Delivered(true))
            }
            Action::Sleep(ms) => {
                assert_eq!(ms, 1);
                task.step(Event::Woke)
            }
            Action::Join => break task.step(Event::Joined(WorkerExit::Returned(result))),
            other => panic!("unexpected {:?}", other),
        };
    };
    assert_eq!(deliveries, 1);
    match outcome {
        Action::Resolve(Ok(parameters)) => assert_eq!(parameters.len(), 21),
        other => panic!("the run did not succeed: {:?}", other),
    }
    assert_eq!(task.state(), TaskState::Succeeded);
    // The model's lock is free again.
    assert!(m.try_lock().is_ok());
}

#[test]
fn settings_without_options_are_the_defaults() {
    let settings = fsrs_nodejs::options::resolve(None);
    assert!(settings.enable_short_term);
    assert_eq!(settings.num_relearning_steps, 1);
    assert!(!settings.report_progress);
    assert_eq!(settings.progress_timeout, 500);
}

#[test]
fn settings_follow_the_options() {
    let settings = fsrs_nodejs::options::resolve(Some(options(true, Some(7))));
    assert!(!settings.enable_short_term);
    assert_eq!(settings.num_relearning_steps, 3);
    assert!(settings.report_progress);
    assert_eq!(settings.progress_timeout, 7);
    let settings = fsrs_nodejs::options::resolve(Some(ComputeParametersOption {
        enable_short_term: true,
        num_relearning_steps: None,
        progress: false,
        timeout: None,
    }));
    assert!(settings.enable_short_term);
    assert_eq!(settings.num_relearning_steps, 1);
    assert!(!settings.report_progress);
    assert_eq!(settings.progress_timeout, 500);
}

#[test]
fn options_with_a_zero_interval_prepare_no_task() {
    let m = model();
    assert!(compute_parameters(&m, vec![], Some(options(true, Some(0)))).is_none());
    assert!(compute_parameters(&m, vec![], Some(options(false, Some(0)))).is_none());
    assert!(compute_parameters(&m, vec![], Some(options(true, Some(1)))).is_some());
    assert!(compute_parameters(&m, vec![], None).is_some());
    // Nothing of the refused task is left behind.
    assert_eq!(Arc::strong_count(&m), 1);
}
