//! What this library takes on trust from the `fsrs` crate and from `std::sync`.
//!
//! Nothing here is proved. Each item names the outside function or type it
//! stands for and says what is claimed of it.

use crate::parameters::PARAMETER_COUNT;
use crate::progress::ProgressCell;
use crate::review::fit_ready;
use crate::review::histories;
use crate::review::long_term_reviews;
use crate::review::trainable;
use crate::review::FSRSItem;
use crate::review::FSRSReview;
use fsrs::CombinedProgressState;
use fsrs::ComputeParametersInput;
use fsrs::FSRSError;
use std::sync::Arc;
use std::sync::Mutex;
use std::sync::MutexGuard;
use vstd::prelude::*;

verus! {

/// `fsrs::FSRSError`. Its six variants have no fields, so the type is
/// declared with its body and verified code tells the variants apart itself.
#[verifier::external_type_specification]
pub struct ExFSRSError(FSRSError);

/// `fsrs::FSRS`, the model. Its parameters are never looked at here.
#[verifier::external_type_specification]
#[verifier::external_body]
pub struct ExModel(fsrs::FSRS);

/// `fsrs::CombinedProgressState`, the record behind the progress cell.
#[verifier::external_type_specification]
#[verifier::external_body]
pub struct ExCombinedProgressState(CombinedProgressState);

/// `std::sync::Mutex`.
#[verifier::external_type_specification]
#[verifier::external_body]
#[verifier::reject_recursive_types(T)]
pub struct ExMutex<T: ?Sized>(Mutex<T>);

/// `std::sync::MutexGuard`.
#[verifier::external_type_specification]
#[verifier::external_body]
#[verifier::reject_recursive_types(T)]
pub struct ExMutexGuard<'a, T: ?Sized + 'a>(MutexGuard<'a, T>);

/// `fsrs::FSRSItem::long_term_review_cnt`, on a copy of the item: the number
/// of reviews whose `delta_t` is above zero.
#[verifier::external_body]
pub(crate) fn count_long_term_reviews(item: &FSRSItem) -> (n: usize)
    ensures
        n == long_term_reviews(item@),
{
    let reviews = item
        .reviews
        .iter()
        .map(|r| fsrs::FSRSReview { rating: r.rating, delta_t: r.delta_t })
        .collect();
    fsrs::FSRSItem { reviews }.long_term_review_cnt()
}

/// `CombinedProgressState::new_shared`: a new record behind a lock of its
/// own. Nothing is claimed of it.
pub assume_specification[ CombinedProgressState::new_shared ]() -> (cell: Arc<Mutex<CombinedProgressState>>)
;

/// What `CombinedProgressState::current` returns for a record: the steps done,
/// summed over the record's splits. It depends on the record alone.
pub uninterp spec fn steps_done(state: CombinedProgressState) -> usize;

/// What `CombinedProgressState::total` returns for a record: the steps of the
/// run, summed over the record's splits. It depends on the record alone.
pub uninterp spec fn steps_in_all(state: CombinedProgressState) -> usize;

/// What `CombinedProgressState::finished` returns for a record: the flag that
/// the fit sets on its return. It depends on the record alone.
pub uninterp spec fn marked_finished(state: CombinedProgressState) -> bool;

/// `CombinedProgressState::current`. Claimed: the number is a function of the
/// record that the reference points to. Which record a cell holds at a given
/// moment is the worker's doing, and nothing is claimed of that.
pub assume_specification[ CombinedProgressState::current ](state: &CombinedProgressState) -> (n: usize)
    ensures
        n == steps_done(*state),
;

/// `CombinedProgressState::total`. Claimed: the number is a function of the
/// record that the reference points to.
pub assume_specification[ CombinedProgressState::total ](state: &CombinedProgressState) -> (n: usize)
    ensures
        n == steps_in_all(*state),
;

/// `CombinedProgressState::finished`. Claimed: the flag is a function of the
/// record that the reference points to.
pub assume_specification[ CombinedProgressState::finished ](state: &CombinedProgressState) -> (b: bool)
    ensures
        b == marked_finished(*state),
;

/// The text that `fsrs::FSRSReview` prints for `{:?}`, by its derived
/// `Debug`. It depends on the two fields alone; its exact form is std's to
/// choose.
pub uninterp spec fn review_debug_text(rating: u32, delta_t: u32) -> Seq<char>;

/// The text that `fsrs::FSRSItem` prints for `{:?}`, by its derived `Debug`.
/// It depends on the reviews alone.
pub uninterp spec fn item_debug_text(reviews: Seq<FSRSReview>) -> Seq<char>;

/// `Debug::fmt` of `fsrs::FSRSReview`, on a copy of the review.
#[verifier::external_body]
pub(crate) fn review_debug(review: &FSRSReview) -> (text: String)
    ensures
        text@ == review_debug_text(review.rating, review.delta_t),
{
    format!("{:?}", fsrs::FSRSReview { rating: review.rating, delta_t: review.delta_t })
}

/// `Debug::fmt` of `fsrs::FSRSItem`, on a copy of the item.
#[verifier::external_body]
pub(crate) fn item_debug(item: &FSRSItem) -> (text: String)
    ensures
        text@ == item_debug_text(item@),
{
    let reviews = item
        .reviews
        .iter()
        .map(|r| fsrs::FSRSReview { rating: r.rating, delta_t: r.delta_t })
        .collect();
    format!("{:?}", fsrs::FSRSItem { reviews })
}

/// `fsrs::compute_parameters` on a copy of the training set, without card
/// ids and with the default training configuration. The parameters come back
/// as the bit patterns of the single-precision numbers.
///
/// Asked for: every item that has a review and only ratings from 1 to 4 also
/// has a review with `delta_t` above zero. On a set that it does not refuse,
/// the call unwinds at an item without one. The call also unwinds on a
/// poisoned progress cell; a [`ProgressCell`] is made by this library and
/// written by this call alone, which never unwinds with the cell's lock in
/// hand, so the lock of the cell given here is not poisoned.
///
/// Claimed: a training set in which an item has no review, or a rating is
/// outside 1 to 4, is refused as invalid input before any training; and
/// whatever parameters the call returns, there are as many as a model has.
/// Nothing else is claimed of the parameters, which also depend on the
/// process environment.
#[verifier::external_body]
pub(crate) fn fit(
    train_data: &Vec<FSRSItem>,
    progress: ProgressCell,
    enable_short_term: bool,
    num_relearning_steps: usize,
) -> (fitted: Result<Vec<u32>, FSRSError>)
    requires
        fit_ready(histories(train_data@)),
    ensures
        !trainable(histories(train_data@)) ==> fitted matches Err(FSRSError::InvalidInput),
        fitted matches Ok(parameters) ==> parameters@.len() == PARAMETER_COUNT,
{
    let review = |r: &FSRSReview| fsrs::FSRSReview { rating: r.rating, delta_t: r.delta_t };
    let item = |i: &FSRSItem| fsrs::FSRSItem { reviews: i.reviews.iter().map(review).collect() };
    let input = ComputeParametersInput {
        train_set: train_data.iter().map(item).collect(),
        card_ids: None,
        progress: Some(progress.cell),
        enable_short_term,
        num_relearning_steps: Some(num_relearning_steps),
        training_config: None,
    };
    fsrs::compute_parameters(input).map(|p| p.iter().map(|x| x.to_bits()).collect())
}

/// `Mutex::lock`, waiting until the lock is free. `None` stands for a
/// poisoned lock: an earlier holder unwound while holding it. A thread that
/// holds the lock already must not call this: std leaves open whether the
/// second call panics or never returns.
#[verifier::external_body]
pub(crate) fn acquire<'a, T>(lock: &'a Mutex<T>) -> (guard: Option<MutexGuard<'a, T>>)
{
    lock.lock().ok()
}

/// `Deref::deref` of a `MutexGuard`: the value that the held lock protects.
#[verifier::external_body]
pub(crate) fn guarded<'a, 'b, T>(guard: &'b MutexGuard<'a, T>) -> (value: &'b T)
{
    &**guard
}

/// `Arc::clone`: a second handle to the same allocation.
#[verifier::external_body]
pub(crate) fn share<T>(handle: &Arc<T>) -> (other: Arc<T>)
    ensures
        other == *handle,
{
    Arc::clone(handle)
}

} // verus!
