//! The one source of randomness: power-on garbling draws bytes from the
//! host's thread-local generator.

use vstd::prelude::*;

verus! {

/// Relies on rand::random: a value drawn from the thread-local generator.
/// The draw is not a function of anything the machine holds, so nothing is
/// promised of the result.
pub assume_specification<T>[ rand::random::<T> ]() -> (r: T)
    where
        rand::distr::StandardUniform: rand::distr::Distribution<T>,
;

} // verus!
