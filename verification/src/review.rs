//! Review histories, the training data of a fit.

use crate::outside::count_long_term_reviews;
use crate::outside::item_debug;
use crate::outside::item_debug_text;
use crate::outside::review_debug;
use crate::outside::review_debug_text;
use vstd::prelude::*;

verus! {

/// One rated recall: the rating given and the days since the review before.
#[derive(Clone, Copy, Debug, PartialEq, Eq, Structural)]
pub struct FSRSReview {
    /// 1 (again) to 4 (easy).
    pub rating: u32,
    /// Days since the review before; 0 in the first review of a card.
    pub delta_t: u32,
}

/// The reviews of one card, oldest first.
#[derive(Clone, Debug, PartialEq, Eq)]
pub struct FSRSItem {
    pub reviews: Vec<FSRSReview>,
}

/// Ratings run from 1 to 4.
pub open spec fn rating_in_range(rating: u32) -> bool {
    1 <= rating <= 4
}

/// A valid history: it has a first review, that review has nothing before
/// it, and every rating is one of the four.
pub open spec fn valid_history(reviews: Seq<FSRSReview>) -> bool {
    &&& reviews.len() > 0
    &&& reviews[0].delta_t == 0
    &&& forall|i: int| 0 <= i < reviews.len() ==> rating_in_range(#[trigger] reviews[i].rating)
}

/// A history that the fitting algorithm accepts: it has a review, and every
/// rating is one of the four.
pub open spec fn ratable(reviews: Seq<FSRSReview>) -> bool {
    &&& reviews.len() > 0
    &&& forall|i: int| 0 <= i < reviews.len() ==> rating_in_range(#[trigger] reviews[i].rating)
}

/// A history that may be handed to the fit. The fit refuses a training set
/// with a history that is not ratable, and it can train on a ratable history
/// only if one of its reviews came a day or more after the one before.
pub open spec fn fit_takes(reviews: Seq<FSRSReview>) -> bool {
    ratable(reviews) ==> long_term_reviews(reviews) > 0
}

/// The training set as plain histories, one per item.
pub open spec fn histories(items: Seq<FSRSItem>) -> Seq<Seq<FSRSReview>> {
    items.map_values(|item: FSRSItem| item@)
}

/// A training set that the fitting algorithm accepts.
pub open spec fn trainable(set: Seq<Seq<FSRSReview>>) -> bool {
    forall|i: int| 0 <= i < set.len() ==> ratable(#[trigger] set[i])
}

/// A training set of which the fit takes every history.
pub open spec fn fit_ready(set: Seq<Seq<FSRSReview>>) -> bool {
    forall|i: int| 0 <= i < set.len() ==> fit_takes(#[trigger] set[i])
}

/// The histories of a training set that the fit takes, in their order.
pub open spec fn kept_for_fit(set: Seq<Seq<FSRSReview>>) -> Seq<Seq<FSRSReview>> {
    set.filter(|reviews: Seq<FSRSReview>| fit_takes(reviews))
}

/// A training set of valid histories.
pub open spec fn valid_training_set(set: Seq<Seq<FSRSReview>>) -> bool {
    forall|i: int| 0 <= i < set.len() ==> valid_history(#[trigger] set[i])
}

/// How many of the reviews came a day or more after the one before.
pub open spec fn long_term_reviews(reviews: Seq<FSRSReview>) -> nat {
    reviews.filter(|r: FSRSReview| r.delta_t > 0).len()
}

impl FSRSReview {
    pub fn new(rating: u32, delta_t: u32) -> (review: FSRSReview)
        ensures
            review.rating == rating,
            review.delta_t == delta_t,
    {
        FSRSReview { rating, delta_t }
    }

    pub fn rating(&self) -> (rating: u32)
        ensures
            rating == self.rating,
    {
        self.rating
    }

    pub fn delta_t(&self) -> (days: u32)
        ensures
            days == self.delta_t,
    {
        self.delta_t
    }

    /// The review as the algorithm's own review type prints itself.
    pub fn to_json(&self) -> (text: String)
        ensures
            text@ == review_debug_text(self.rating, self.delta_t),
    {
        review_debug(self)
    }
}

impl View for FSRSItem {
    type V = Seq<FSRSReview>;

    open spec fn view(&self) -> Seq<FSRSReview> {
        self.reviews@
    }
}

impl FSRSItem {
    /// The item is a valid history.
    pub open spec fn wf(&self) -> bool {
        valid_history(self@)
    }

    /// Collects the reviews, in the order given.
    pub fn new(reviews: Vec<&FSRSReview>) -> (item: FSRSItem)
        ensures
            item@.len() == reviews@.len(),
            forall|i: int| 0 <= i < reviews@.len() ==> #[trigger] item@[i] == *reviews@[i],
    {
        let mut collected: Vec<FSRSReview> = Vec::new();
        let mut i: usize = 0;
        while i < reviews.len()
            invariant
                i <= reviews@.len(),
                collected@.len() == i,
                forall|k: int| 0 <= k < i ==> #[trigger] collected@[k] == *reviews@[k],
            decreases reviews@.len() - i,
        {
            collected.push(*reviews[i]);
            i = i + 1;
        }
        FSRSItem { reviews: collected }
    }

    /// The item as the algorithm's own item type prints itself.
    pub fn to_json(&self) -> (text: String)
        ensures
            text@ == item_debug_text(self@),
    {
        item_debug(self)
    }

    /// A copy with the same reviews.
    pub fn copy(&self) -> (item: FSRSItem)
        ensures
            item@ == self@,
    {
        FSRSItem { reviews: self.reviews() }
    }

    /// A copy of the reviews, in order.
    pub fn reviews(&self) -> (reviews: Vec<FSRSReview>)
        ensures
            reviews@ == self@,
    {
        let mut out: Vec<FSRSReview> = Vec::new();
        let mut i: usize = 0;
        while i < self.reviews.len()
            invariant
                i <= self@.len(),
                out@ == self@.take(i as int),
            decreases self@.len() - i,
        {
            out.push(self.reviews[i]);
            proof {
                assert(self@.take(i + 1) == self@.take(i as int).push(self@[i as int]));
            }
            i = i + 1;
        }
        proof {
            assert(self@.take(self@.len() as int) == self@);
        }
        out
    }

    /// Counts the reviews with `delta_t` above zero. The count is cut to 32
    /// bits, which loses nothing below 2^32 reviews.
    pub fn long_term_review_cnt(&self) -> (n: u32)
        ensures
            n == long_term_reviews(self@) as u32,
            long_term_reviews(self@) <= u32::MAX ==> n == long_term_reviews(self@),
            long_term_reviews(self@) <= self@.len(),
    {
        proof {
            self@.lemma_filter_len(|r: FSRSReview| r.delta_t > 0);
        }
        let count: usize = count_long_term_reviews(self);
        #[verifier::truncate]
        let n: u32 = count as u32;
        n
    }

    /// Computes [`FSRSItem::wf`].
    pub fn is_valid(&self) -> (ok: bool)
        ensures
            ok == self.wf(),
    {
        self.is_ratable() && self.reviews[0].delta_t == 0
    }

    /// Computes [`fit_takes`] for the item's history.
    pub fn is_taken_by_fit(&self) -> (ok: bool)
        ensures
            ok == fit_takes(self@),
    {
        !self.is_ratable() || count_long_term_reviews(self) > 0
    }

    /// Computes [`ratable`] for the item's history.
    pub fn is_ratable(&self) -> (ok: bool)
        ensures
            ok == ratable(self@),
    {
        let n: usize = self.reviews.len();
        if n == 0 {
            return false;
        }
        let mut i: usize = 0;
        while i < n
            invariant
                n == self@.len(),
                i <= n,
                forall|k: int| 0 <= k < i ==> rating_in_range(#[trigger] self@[k].rating),
            decreases n - i,
        {
            let rating: u32 = self.reviews[i].rating;
            if rating < 1 || rating > 4 {
                return false;
            }
            i = i + 1;
        }
        true
    }
}

} // verus!
