//! Which optional device features to ask for.

use vstd::prelude::*;

verus! {

/// The feature bits to request from a device: those of `wanted` that the
/// adapter offers in `available`, and no others.
pub fn requested_features(available: u64, wanted: u64) -> (r: u64)
    ensures
        r == available & wanted,
{
    available & wanted
}

} // verus!
