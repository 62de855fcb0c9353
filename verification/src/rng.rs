//! The single trusted boundary to ambient randomness.
//!
//! All random draws in the simulation (spawn positions, effect choice,
//! weight initialization and mutation, reproduction gating) come from the
//! process-wide generator, so nothing can be promised of a drawn value;
//! every caller states what holds of each possible outcome.

use vstd::prelude::*;

verus! {

/// Relies on rand::random: draws a value of `T` from the thread-local
/// generator. The result is ambient randomness, so no clause constrains it.
pub assume_specification<T>[ rand::random::<T> ]() -> (r: T)
    where
        rand::distributions::Standard: rand::distributions::Distribution<T>,
;

} // verus!
