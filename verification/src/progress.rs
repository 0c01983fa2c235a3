//! Progress of one fitting run, as the poller sees it.

use crate::outside::acquire;
use crate::outside::guarded;
use crate::outside::marked_finished;
use crate::outside::share;
use crate::outside::steps_done;
use crate::outside::steps_in_all;
use fsrs::CombinedProgressState;
use std::sync::Arc;
use std::sync::Mutex;
use vstd::prelude::*;

verus! {

/// One consistent read of the shared progress cell.
#[derive(Clone, Copy, Debug, PartialEq, Eq, Structural)]
pub struct ProgressReading {
    /// Steps done so far.
    pub current: usize,
    /// Steps of the whole run; 0 until the fit knows it.
    pub total: usize,
    /// Set by the fit when it has returned, with or without parameters.
    pub finished: bool,
}

/// A share of a whole, kept exact: `numerator` parts out of `denominator`.
///
/// The pair is stored as given, not reduced, so `==` compares the two fields.
#[derive(Clone, Copy, Debug, PartialEq, Eq, Structural)]
pub struct Fraction {
    pub numerator: usize,
    pub denominator: usize,
}

/// What the progress callback receives for one tick.
#[derive(Clone, Copy, Debug, PartialEq, Eq, Structural)]
pub struct ProgressData {
    pub current: usize,
    pub total: usize,
    /// `current / total`, cut off at one; zero while `total` is 0.
    pub percent: Fraction,
}

impl Fraction {
    /// The fraction lies between zero and one and can be divided out.
    pub open spec fn wf(self) -> bool {
        0 < self.denominator && self.numerator <= self.denominator
    }

    pub open spec fn is_zero(self) -> bool {
        self.numerator == 0
    }

    pub open spec fn is_one(self) -> bool {
        self.numerator == self.denominator
    }

    /// Completion of a run that has done `current` of `total` steps: zero
    /// while the total is unknown, and never more than one.
    pub open spec fn completion(current: usize, total: usize) -> Fraction {
        Fraction {
            numerator: if current < total { current } else { total },
            denominator: if total == 0 { 1 } else { total },
        }
    }

    /// Computes [`Fraction::completion`].
    pub fn of(current: usize, total: usize) -> (f: Fraction)
        ensures
            f == Fraction::completion(current, total),
            f.wf(),
            total == 0 ==> f.is_zero(),
            f.is_one() <==> (total > 0 && current >= total),
    {
        if total == 0 {
            Fraction { numerator: 0, denominator: 1 }
        } else if current >= total {
            Fraction { numerator: total, denominator: total }
        } else {
            Fraction { numerator: current, denominator: total }
        }
    }
}

impl ProgressReading {
    /// The reading that a record of the progress cell amounts to: the steps
    /// done, the steps in all and the finished flag of that one record.
    pub open spec fn of_record(state: CombinedProgressState) -> ProgressReading {
        ProgressReading {
            current: steps_done(state),
            total: steps_in_all(state),
            finished: marked_finished(state),
        }
    }

    /// The run needs no further polling: the fit said so, or every step is done.
    pub open spec fn done(self) -> bool {
        self.finished || (self.total > 0 && self.current >= self.total)
    }

    /// The snapshot that this reading is delivered as.
    pub open spec fn snapshot(self) -> ProgressData {
        ProgressData {
            current: self.current,
            total: self.total,
            percent: Fraction::completion(self.current, self.total),
        }
    }

    /// Computes [`ProgressReading::done`].
    pub fn is_done(&self) -> (b: bool)
        ensures
            b == self.done(),
            b == (self.finished || self.snapshot().percent.is_one()),
    {
        self.finished || (self.total > 0 && self.current >= self.total)
    }
}

/// The progress cell of one run: the record that the fit writes its progress
/// to, behind a lock.
///
/// A cell is made here and nowhere else, and only the fit writes to it. The
/// fit never unwinds while it holds the cell's lock, and a read holds it for
/// three look-ups, so the lock of a cell is not poisoned by either.
pub struct ProgressCell {
    pub(crate) cell: Arc<Mutex<CombinedProgressState>>,
}

impl ProgressCell {
    /// A new cell: nothing done, no total, not finished.
    pub fn new() -> (cell: ProgressCell) {
        ProgressCell { cell: CombinedProgressState::new_shared() }
    }

    /// A second handle to the same cell, for the thread that writes to it.
    pub fn share(&self) -> (other: ProgressCell)
        ensures
            other == *self,
    {
        ProgressCell { cell: share(&self.cell) }
    }
}

/// Reads the shared progress cell under its lock. `None` if the lock is
/// poisoned: whoever wrote last unwound while writing, and the cell has
/// nothing more to say.
///
/// A reading is never pieced together from two updates: its three values are
/// those of one record, the one that the cell held while this call had the
/// lock. Which record that is depends on how far the worker has come, so
/// nothing more is promised of the values. The calling thread must not hold
/// the cell's lock.
pub fn read_cell(cell: &ProgressCell) -> (reading: Option<ProgressReading>)
    ensures
        reading matches Some(r) ==> exists|state: CombinedProgressState|
            r == #[trigger] ProgressReading::of_record(state),
{
    match acquire(&*cell.cell) {
        Some(guard) => Some(reading_of(guarded(&guard))),
        None => None,
    }
}

/// The reading of a record of the progress cell, taken while nobody can
/// write to it.
pub fn reading_of(state: &CombinedProgressState) -> (reading: ProgressReading)
    ensures
        reading == ProgressReading::of_record(*state),
{
    ProgressReading { current: state.current(), total: state.total(), finished: state.finished() }
}

impl ProgressData {
    /// Builds the snapshot for a reading. The counts are passed on as read;
    /// only the fraction is cut off at one.
    pub fn from_reading(reading: ProgressReading) -> (data: ProgressData)
        ensures
            data == reading.snapshot(),
            data.current == reading.current,
            data.total == reading.total,
            data.percent.wf(),
            reading.total == 0 ==> data.percent.is_zero(),
    {
        ProgressData {
            current: reading.current,
            total: reading.total,
            percent: Fraction::of(reading.current, reading.total),
        }
    }
}

} // verus!
