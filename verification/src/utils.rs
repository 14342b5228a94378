//! Building blocks shared by the decoders.

pub mod cursor;
pub mod error;
pub mod memory;
pub mod process;

use vstd::prelude::*;
use vstd::std_specs::ops::NotSpec;

verus! {

/// Turns every bit of `value` around.
pub fn flip_bits<T>(value: T) -> (flipped: T) where T: std::ops::Not<Output = T>
    requires
        value.not_req(),
    ensures
        T::obeys_not_spec() ==> flipped == value.not_spec(),
{
    !value
}

} // verus!
