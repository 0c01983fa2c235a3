use fsrs_nodejs::coordinator::Action;
use fsrs_nodejs::coordinator::Coordinator;
use fsrs_nodejs::coordinator::Event;
use fsrs_nodejs::coordinator::Stage;
use fsrs_nodejs::coordinator::TaskState;
use fsrs_nodejs::coordinator::WorkerExit;
use fsrs_nodejs::error::FitError;
use fsrs_nodejs::error::TaskError;
use fsrs_nodejs::progress::Fraction;
use fsrs_nodejs::progress::ProgressData;
use fsrs_nodejs::progress::ProgressReading;

fn reading(current: usize, total: usize, finished: bool) -> Event {
    Event::Reading { reading: ProgressReading { current, total, finished }, worker_ended: false }
}

fn polling(interval: u64) -> Coordinator {
    let mut c = Coordinator::new(true, interval);
    assert_eq!(c.step(Event::Submitted), Action::StartWorker);
    assert_eq!(c.step(Event::WorkerStarted), Action::Poll);
    c
}

fn reading_after_the_worker(current: usize, total: usize, finished: bool) -> Event {
    Event::Reading { reading: ProgressReading { current, total, finished }, worker_ended: true }
}

fn every_event() -> Vec<Event> {
    vec![
        Event::Submitted,
        Event::WorkerStarted,
        reading(2, 2, true),
        reading(1, 2, false),
        reading_after_the_worker(1, 2, false),
        Event::CellLost,
        Event::Delivered(true),
        Event::Delivered(false),
        Event::Woke,
        Event::Joined(WorkerExit::Panicked),
        Event::Joined(WorkerExit::Returned(Ok(vec![1, 2, 3]))),
        Event::Joined(WorkerExit::Returned(Err(TaskError::LockFailure))),
    ]
}

#[test]
fn new_coordinator_is_pending() {
    let c = Coordinator::new(true, 500);
    assert_eq!(c.stage, Stage::Pending);
    assert_eq!(c.state(), TaskState::Pending);
    assert!(c.report_progress);
    assert_eq!(c.progress_timeout, 500);
}

#[test]
fn submission_starts_the_worker_and_the_task_runs() {
    let mut c = Coordinator::new(true, 500);
    assert_eq!(c.step(Event::Submitted), Action::StartWorker);
    assert_eq!(c.stage, Stage::Starting);
    assert_eq!(c.state(), TaskState::Running);
}

#[test]
fn run_without_callback_joins_at_once() {
    let mut c = Coordinator::new(false, 500);
    assert_eq!(c.step(Event::Submitted), Action::StartWorker);
    assert_eq!(c.step(Event::WorkerStarted), Action::Join);
    assert_eq!(c.state(), TaskState::Running);
    assert_eq!(
        c.step(Event::Joined(WorkerExit::Returned(Ok(vec![7, 8])))),
        Action::Resolve(Ok(vec![7, 8]))
    );
    assert_eq!(c.state(), TaskState::Succeeded);
}

#[test]
fn open_reading_is_delivered_then_the_coordinator_sleeps_and_polls_again() {
    let mut c = polling(250);
    assert_eq!(
        c.step(reading(3, 12, false)),
        Action::Deliver(ProgressData {
            current: 3,
            total: 12,
            percent: Fraction { numerator: 3, denominator: 12 }
        })
    );
    assert_eq!(c.stage, Stage::Delivering { last: false });
    assert_eq!(c.step(Event::Delivered(true)), Action::Sleep(250));
    assert_eq!(c.step(Event::Woke), Action::Poll);
    assert_eq!(c.stage, Stage::Polling);
}

#[test]
fn finished_reading_is_delivered_and_ends_the_polling() {
    let mut c = polling(250);
    assert_eq!(
        c.step(reading(0, 0, true)),
        Action::Deliver(ProgressData {
            current: 0,
            total: 0,
            percent: Fraction { numerator: 0, denominator: 1 }
        })
    );
    assert_eq!(c.step(Event::Delivered(true)), Action::Join);
    assert_eq!(c.stage, Stage::Joining);
    assert_eq!(c.state(), TaskState::Running);
}

#[test]
fn complete_reading_ends_the_polling_without_the_finished_flag() {
    let mut c = polling(250);
    assert_eq!(
        c.step(reading(12, 12, false)),
        Action::Deliver(ProgressData {
            current: 12,
            total: 12,
            percent: Fraction { numerator: 12, denominator: 12 }
        })
    );
    assert_eq!(c.step(Event::Delivered(true)), Action::Join);
}

#[test]
fn dropped_delivery_does_not_stop_the_run() {
    let mut taken = polling(40);
    let mut dropped = polling(40);
    taken.step(reading(1, 5, false));
    dropped.step(reading(1, 5, false));
    assert_eq!(taken.step(Event::Delivered(true)), Action::Sleep(40));
    assert_eq!(dropped.step(Event::Delivered(false)), Action::Sleep(40));
    assert_eq!(taken, dropped);
    taken.step(Event::Woke);
    dropped.step(Event::Woke);
    taken.step(reading(5, 5, true));
    dropped.step(reading(5, 5, true));
    assert_eq!(taken.step(Event::Delivered(true)), Action::Join);
    assert_eq!(dropped.step(Event::Delivered(false)), Action::Join);
    assert_eq!(
        dropped.step(Event::Joined(WorkerExit::Returned(Ok(vec![1])))),
        Action::Resolve(Ok(vec![1]))
    );
    assert_eq!(dropped.state(), TaskState::Succeeded);
}

#[test]
fn lost_cell_ends_the_polling() {
    let mut c = polling(250);
    assert_eq!(c.step(Event::CellLost), Action::Join);
    assert_eq!(c.stage, Stage::Joining);
    assert_eq!(
        c.step(Event::Joined(WorkerExit::Panicked)),
        Action::Resolve(Err(TaskError::WorkerPanic))
    );
    assert_eq!(c.state(), TaskState::Failed);
}

#[test]
fn worker_panic_is_a_failure_of_its_own() {
    let mut c = Coordinator::new(false, 500);
    c.step(Event::Submitted);
    c.step(Event::WorkerStarted);
    let action = c.step(Event::Joined(WorkerExit::Panicked));
    assert_eq!(action, Action::Resolve(Err(TaskError::WorkerPanic)));
    assert_eq!(c.stage, Stage::Failed);
    assert_eq!(c.state(), TaskState::Failed);
    if let Action::Resolve(Err(error)) = action {
        assert_eq!(error.message(), "Panic occurred in compute thread");
        assert!(!matches!(error, TaskError::Algorithm(_)));
    } else {
        panic!("the run did not fail");
    }
}

#[test]
fn algorithm_error_fails_the_task() {
    let mut c = Coordinator::new(false, 500);
    c.step(Event::Submitted);
    c.step(Event::WorkerStarted);
    let error = TaskError::Algorithm(FitError::NotEnoughData);
    assert_eq!(
        c.step(Event::Joined(WorkerExit::Returned(Err(error)))),
        Action::Resolve(Err(error))
    );
    assert_eq!(c.state(), TaskState::Failed);
}

#[test]
fn lock_failure_fails_the_task() {
    let mut c = Coordinator::new(false, 500);
    c.step(Event::Submitted);
    c.step(Event::WorkerStarted);
    assert_eq!(
        c.step(Event::Joined(WorkerExit::Returned(Err(TaskError::LockFailure)))),
        Action::Resolve(Err(TaskError::LockFailure))
    );
    assert_eq!(c.state(), TaskState::Failed);
}

#[test]
fn resolved_task_ignores_everything() {
    for outcome in [Ok(vec![1, 2]), Err(TaskError::WorkerPanic)] {
        let mut c = Coordinator::new(false, 500);
        c.step(Event::Submitted);
        c.step(Event::WorkerStarted);
        c.step(Event::Joined(WorkerExit::Returned(outcome)));
        let resolved = c;
        for event in every_event() {
            assert_eq!(c.step(event), Action::Ignored);
            assert_eq!(c, resolved);
        }
    }
}

#[test]
fn task_resolves_exactly_once_whatever_is_reported() {
    // Every event, three times over, in an order that lets the run through.
    let mut c = Coordinator::new(true, 10);
    let mut resolutions = 0;
    let mut deliveries_after_resolution = 0;
    for _ in 0..3 {
        for event in every_event() {
            match c.step(event) {
                Action::Resolve(_) => resolutions += 1,
                Action::Deliver(_) if resolutions > 0 => deliveries_after_resolution += 1,
                _ => {}
            }
        }
    }
    assert_eq!(resolutions, 1);
    assert_eq!(deliveries_after_resolution, 0);
    assert!(c.state() == TaskState::Succeeded || c.state() == TaskState::Failed);
}

#[test]
fn events_out_of_turn_are_ignored() {
    let mut c = Coordinator::new(true, 500);
    let pending = c;
    for event in every_event() {
        if event != Event::Submitted {
            assert_eq!(c.step(event), Action::Ignored);
            assert_eq!(c, pending);
        }
    }
    let mut c = polling(500);
    let at_poll = c;
    assert_eq!(c.step(Event::Joined(WorkerExit::Panicked)), Action::Ignored);
    assert_eq!(c.step(Event::Delivered(true)), Action::Ignored);
    assert_eq!(c.step(Event::Woke), Action::Ignored);
    assert_eq!(c.step(Event::Submitted), Action::Ignored);
    assert_eq!(c, at_poll);
    c.step(reading(1, 2, false));
    let at_delivery = c;
    assert_eq!(c.step(reading(2, 2, true)), Action::Ignored);
    assert_eq!(c.step(Event::Woke), Action::Ignored);
    assert_eq!(c, at_delivery);
}

#[test]
fn progress_from_0_to_100_over_ten_ticks() {
    let mut c = polling(1);
    let mut delivered: Vec<ProgressData> = Vec::new();
    let mut tick = 0;
    loop {
        let current = tick * 10;
        match c.step(reading(current, 100, false)) {
            Action::Deliver(data) => delivered.push(data),
            other => panic!("expected a delivery, got {:?}", other),
        }
        match c.step(Event::Delivered(true)) {
            Action::Sleep(ms) => {
                assert_eq!(ms, 1);
                assert_eq!(c.step(Event::Woke), Action::Poll);
            }
            Action::Join => break,
            other => panic!("expected sleep or join, got {:?}", other),
        }
        tick += 1;
    }
    assert_eq!(tick, 10);
    assert!(delivered.len() >= 1 && delivered.len() <= 100);
    assert_eq!(delivered.len(), 11);
    for pair in delivered.windows(2) {
        assert!(pair[0].current <= pair[1].current);
    }
    for data in &delivered {
        assert!(data.percent.numerator <= data.percent.denominator);
        assert_eq!(data.percent, Fraction { numerator: data.current, denominator: 100 });
    }
    let last = delivered.last().unwrap();
    assert_eq!(last.percent.numerator as f64 / last.percent.denominator as f64, 1.0);
    // Percent has reached one before the resolution.
    assert_eq!(c.state(), TaskState::Running);
    assert_eq!(
        c.step(Event::Joined(WorkerExit::Returned(Ok(vec![0; 21])))),
        Action::Resolve(Ok(vec![0; 21]))
    );
    assert_eq!(c.state(), TaskState::Succeeded);
}

#[test]
fn sleep_lasts_the_configured_interval() {
    for interval in [1u64, 500, u64::MAX] {
        let mut c = polling(interval);
        c.step(reading(0, 0, false));
        assert_eq!(c.step(Event::Delivered(true)), Action::Sleep(interval));
    }
}

#[test]
fn reading_taken_after_the_worker_has_ended_is_the_last() {
    let mut c = polling(250);
    assert_eq!(
        c.step(reading_after_the_worker(3, 12, false)),
        Action::Deliver(ProgressData {
            current: 3,
            total: 12,
            percent: Fraction { numerator: 3, denominator: 12 }
        })
    );
    assert_eq!(c.stage, Stage::Delivering { last: true });
    assert_eq!(c.step(Event::Delivered(true)), Action::Join);
    assert_eq!(c.stage, Stage::Joining);
}

#[test]
fn worker_that_could_not_lock_the_model_fails_a_run_with_a_callback() {
    // The worker returns at once and the cell never reads finished.
    let mut c = polling(10);
    assert_eq!(c.step(reading(0, 0, false)), Action::Deliver(ProgressData::from_reading(
        ProgressReading { current: 0, total: 0, finished: false }
    )));
    assert_eq!(c.step(Event::Delivered(true)), Action::Sleep(10));
    assert_eq!(c.step(Event::Woke), Action::Poll);
    c.step(reading_after_the_worker(0, 0, false));
    assert_eq!(c.step(Event::Delivered(true)), Action::Join);
    assert_eq!(
        c.step(Event::Joined(WorkerExit::Returned(Err(TaskError::LockFailure)))),
        Action::Resolve(Err(TaskError::LockFailure))
    );
    assert_eq!(c.state(), TaskState::Failed);
}

#[test]
fn worker_that_unwound_fails_a_run_with_a_callback() {
    // The fit unwound half way: the cell stays at 40 of 100, not finished.
    let mut c = polling(10);
    c.step(reading(40, 100, false));
    assert_eq!(c.step(Event::Delivered(true)), Action::Sleep(10));
    assert_eq!(c.step(Event::Woke), Action::Poll);
    c.step(reading_after_the_worker(40, 100, false));
    assert_eq!(c.step(Event::Delivered(false)), Action::Join);
    let action = c.step(Event::Joined(WorkerExit::Panicked));
    assert_eq!(action, Action::Resolve(Err(TaskError::WorkerPanic)));
    assert_eq!(c.state(), TaskState::Failed);
    if let Action::Resolve(Err(error)) = action {
        assert_eq!(error.message(), "Panic occurred in compute thread");
    }
}
