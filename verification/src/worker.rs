//! What the worker thread of a fitting run does.

use crate::error::FitError;
use crate::error::TaskError;
use crate::outside::acquire;
use crate::outside::fit;
use crate::parameters::PARAMETER_COUNT;
use crate::progress::ProgressCell;
use crate::review::fit_ready;
use crate::review::fit_takes;
use crate::review::histories;
use crate::review::kept_for_fit;
use crate::review::ratable;
use crate::review::trainable;
use crate::review::valid_history;
use crate::review::valid_training_set;
use crate::review::FSRSItem;
use crate::review::FSRSReview;
use fsrs::FSRSError;
use std::sync::Arc;
use std::sync::Mutex;
use std::sync::MutexGuard;
use vstd::prelude::*;

verus! {

/// Everything the worker owns: the model's lock, its copy of the training
/// set, the progress cell it writes to, and the settings of the fit.
pub struct FitJob {
    pub model: Arc<Mutex<fsrs::FSRS>>,
    pub train_data: Vec<FSRSItem>,
    pub progress: ProgressCell,
    pub enable_short_term: bool,
    pub num_relearning_steps: usize,
}

/// What the worker returns for an attempt: `None` if the model's lock could
/// not be had, else what the fit gave. Parameters pass through untouched and
/// the algorithm's error keeps its variant.
pub open spec fn attempt_result(attempt: Option<Result<Vec<u32>, FSRSError>>) -> Result<Vec<u32>, TaskError> {
    match attempt {
        None => Err(TaskError::LockFailure),
        Some(Ok(parameters)) => Ok(parameters),
        Some(Err(error)) => Err(TaskError::Algorithm(FitError::of(error))),
    }
}

/// Computes [`attempt_result`].
pub fn worker_result(attempt: Option<Result<Vec<u32>, FSRSError>>) -> (result: Result<Vec<u32>, TaskError>)
    ensures
        result == attempt_result(attempt),
{
    match attempt {
        None => Err(TaskError::LockFailure),
        Some(Ok(parameters)) => Ok(parameters),
        Some(Err(error)) => Err(TaskError::Algorithm(FitError::from_outside(error))),
    }
}

/// Filtering a sequence that ends in `x` filters what is before `x` and
/// then decides on `x`.
proof fn lemma_filter_push<A>(s: Seq<A>, x: A, pred: spec_fn(A) -> bool)
    ensures
        s.push(x).filter(pred) == if pred(x) {
            s.filter(pred).push(x)
        } else {
            s.filter(pred)
        },
{
    reveal(Seq::filter);
    assert(s.push(x).drop_last() == s);
}

/// A training set that ends in `x` is accepted by the fit if the set before
/// `x` is and `x` is ratable; it is ready for the fit if the set before `x`
/// is and the fit takes `x`.
proof fn lemma_set_push(set: Seq<Seq<FSRSReview>>, x: Seq<FSRSReview>)
    ensures
        trainable(set.push(x)) == (trainable(set) && ratable(x)),
        fit_ready(set.push(x)) == (fit_ready(set) && fit_takes(x)),
{
    let longer = set.push(x);
    assert(longer[set.len() as int] == x);
    assert forall|i: int| 0 <= i < set.len() implies longer[i] == set[i] by {}
    if trainable(set) && ratable(x) {
        assert forall|i: int| 0 <= i < longer.len() implies ratable(#[trigger] longer[i]) by {
            if i < set.len() {
                assert(longer[i] == set[i]);
            }
        }
    }
    if trainable(longer) {
        assert forall|i: int| 0 <= i < set.len() implies ratable(#[trigger] set[i]) by {
            assert(longer[i] == set[i]);
        }
    }
    if fit_ready(set) && fit_takes(x) {
        assert forall|i: int| 0 <= i < longer.len() implies fit_takes(#[trigger] longer[i]) by {
            if i < set.len() {
                assert(longer[i] == set[i]);
            }
        }
    }
    if fit_ready(longer) {
        assert forall|i: int| 0 <= i < set.len() implies fit_takes(#[trigger] set[i]) by {
            assert(longer[i] == set[i]);
        }
    }
}

/// Leaving out what the fit does not take changes nothing about whether the
/// fit accepts the training set, and leaves a set that is ready for the fit.
pub proof fn lemma_kept_for_fit(set: Seq<Seq<FSRSReview>>)
    ensures
        fit_ready(kept_for_fit(set)),
        trainable(kept_for_fit(set)) == trainable(set),
        fit_ready(set) ==> kept_for_fit(set) == set,
    decreases set.len(),
{
    let pred = |reviews: Seq<FSRSReview>| fit_takes(reviews);
    if set.len() == 0 {
        reveal(Seq::filter);
    } else {
        let rest = set.drop_last();
        let x = set.last();
        lemma_kept_for_fit(rest);
        assert(set == rest.push(x));
        lemma_filter_push(rest, x, pred);
        lemma_set_push(rest, x);
        if fit_takes(x) {
            lemma_set_push(kept_for_fit(rest), x);
        }
    }
}

/// The fit does not refuse a training set of valid histories.
pub proof fn lemma_valid_training_set_is_trainable(set: Seq<Seq<FSRSReview>>)
    requires
        valid_training_set(set),
    ensures
        trainable(set),
{
    assert forall|i: int| 0 <= i < set.len() implies ratable(#[trigger] set[i]) by {
        assert(valid_history(set[i]));
    }
}

/// A valid history of a single review is not among what the fit takes: its
/// one review is the first and has no day before it.
pub proof fn lemma_single_review_is_left_out(reviews: Seq<FSRSReview>)
    requires
        valid_history(reviews),
        reviews.len() == 1,
    ensures
        !fit_takes(reviews),
{
    let pred = |r: FSRSReview| r.delta_t > 0;
    assert(reviews == Seq::<FSRSReview>::empty().push(reviews[0]));
    lemma_filter_push(Seq::<FSRSReview>::empty(), reviews[0], pred);
    assert(Seq::<FSRSReview>::empty().filter(pred).len() == 0) by {
        Seq::<FSRSReview>::empty().lemma_filter_len(pred);
    }
}

/// The part of a training set that is handed to the fit: the items whose
/// history the fit takes, copied in their order. A ratable item whose reviews
/// all came without a day between them is left out, because the fit unwinds
/// on it; an item that is not ratable stays, so that the fit refuses the set.
pub fn training_input(items: &Vec<FSRSItem>) -> (kept: Vec<FSRSItem>)
    ensures
        histories(kept@) == kept_for_fit(histories(items@)),
        fit_ready(histories(kept@)),
        trainable(histories(kept@)) == trainable(histories(items@)),
{
    let ghost pred = |reviews: Seq<FSRSReview>| fit_takes(reviews);
    let mut kept: Vec<FSRSItem> = Vec::new();
    let mut i: usize = 0;
    proof {
        reveal(Seq::filter);
        assert(histories(items@.take(0)) == Seq::<Seq<FSRSReview>>::empty());
    }
    while i < items.len()
        invariant
            i <= items@.len(),
            pred == (|reviews: Seq<FSRSReview>| fit_takes(reviews)),
            histories(kept@) == histories(items@.take(i as int)).filter(pred),
        decreases items@.len() - i,
    {
        proof {
            assert(items@.take(i + 1) == items@.take(i as int).push(items@[i as int]));
            assert(histories(items@.take(i + 1)) == histories(items@.take(i as int)).push(items@[i as int]@));
            lemma_filter_push(histories(items@.take(i as int)), items@[i as int]@, pred);
        }
        if items[i].is_taken_by_fit() {
            let ghost before = kept@;
            kept.push(items[i].copy());
            proof {
                assert(histories(kept@) == histories(before).push(items@[i as int]@));
            }
        }
        i = i + 1;
    }
    proof {
        assert(items@.take(items@.len() as int) == items@);
        lemma_kept_for_fit(histories(items@));
    }
    kept
}

/// Takes the model's lock, waiting for whoever holds it. A poisoned lock is
/// not taken: it is reported as [`TaskError::LockFailure`], and nothing else
/// is. The calling thread must not hold the lock already.
///
/// Whether the lock is poisoned is up to those who held it before, so the
/// contract promises no success. What is made of either outcome is
/// [`lock_outcome`].
pub fn lock_model<'a>(model: &'a Mutex<fsrs::FSRS>) -> (held: Result<MutexGuard<'a, fsrs::FSRS>, TaskError>)
    ensures
        held matches Err(e) ==> e == TaskError::LockFailure,
{
    held_or_failure(acquire(model))
}

/// What an attempt at the model's lock comes to: the guard if the lock was
/// had, and [`TaskError::LockFailure`] if it is poisoned.
pub open spec fn lock_outcome<'a>(acquired: Option<MutexGuard<'a, fsrs::FSRS>>) -> Result<
    MutexGuard<'a, fsrs::FSRS>,
    TaskError,
> {
    match acquired {
        Some(guard) => Ok(guard),
        None => Err(TaskError::LockFailure),
    }
}

/// Computes [`lock_outcome`].
pub fn held_or_failure<'a>(acquired: Option<MutexGuard<'a, fsrs::FSRS>>) -> (held: Result<
    MutexGuard<'a, fsrs::FSRS>,
    TaskError,
>)
    ensures
        held == lock_outcome(acquired),
{
    match acquired {
        Some(guard) => Ok(guard),
        None => Err(TaskError::LockFailure),
    }
}

impl FitJob {
    /// Runs the fit under the model's lock, on the [`training_input`] of the
    /// job's training set, and releases the lock on the way out, whatever the
    /// fit returned.
    ///
    /// The parameters come back as the bit patterns of their single-precision
    /// values. They are the algorithm's to choose, so the contract says what
    /// holds of every run: the error is never [`TaskError::WorkerPanic`],
    /// which only a join can find, and a training set that the algorithm does
    /// not accept yields no parameters.
    ///
    /// Whatever parameters come back, there are as many as a model has. The
    /// fit runs long, so the job is meant for a thread of its own.
    pub fn run(self) -> (result: Result<Vec<u32>, TaskError>)
        ensures
            result matches Ok(parameters) ==> parameters@.len() == PARAMETER_COUNT,
            result matches Err(e) ==> e == TaskError::LockFailure || e is Algorithm,
            !trainable(histories(self.train_data@)) ==> (result matches Err(e) && (e
                == TaskError::LockFailure || e == TaskError::Algorithm(FitError::InvalidInput))),
    {
        let attempt = match lock_model(&*self.model) {
            Err(_) => None,
            Ok(_held) => {
                let input = training_input(&self.train_data);
                Some(fit(&input, self.progress, self.enable_short_term, self.num_relearning_steps))
            },
        };
        worker_result(attempt)
    }
}

} // verus!
