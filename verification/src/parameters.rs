//! The parameter vector that a model is made from.

use vstd::prelude::*;

verus! {

/// A model has this many parameters.
pub const PARAMETER_COUNT: usize = 21;

/// The first [`PARAMETER_COUNT`] of the given values, filled up with `fill`
/// where fewer are given.
pub open spec fn padded<T>(values: Seq<T>, fill: T) -> Seq<T> {
    Seq::new(
        PARAMETER_COUNT as nat,
        |i: int| if i < values.len() { values[i] } else { fill },
    )
}

/// Brings a caller's values to the length of a parameter vector: values
/// beyond the last parameter are dropped, missing ones are `fill`.
pub fn padded_parameters<T: Copy>(values: &Vec<T>, fill: T) -> (parameters: Vec<T>)
    ensures
        parameters@ == padded(values@, fill),
        parameters@.len() == PARAMETER_COUNT,
{
    let mut parameters: Vec<T> = Vec::new();
    let mut i: usize = 0;
    while i < PARAMETER_COUNT
        invariant
            i <= PARAMETER_COUNT,
            parameters@.len() == i,
            forall|k: int| 0 <= k < i ==> parameters@[k] == padded(values@, fill)[k],
        decreases PARAMETER_COUNT - i,
    {
        if i < values.len() {
            parameters.push(values[i]);
        } else {
            parameters.push(fill);
        }
        i = i + 1;
    }
    parameters
}

} // verus!
