//! The one place where chance enters the library.

use rand::Rng;
use vstd::prelude::*;

verus! {

/// Calls `rand::thread_rng()` and, on the generator it returns,
/// `Rng::gen_range(low..high)`.
///
/// Trusted: for a half-open range of `i32` with `low < high`, `gen_range`
/// returns a value `r` with `low <= r < high`; on an empty range it panics,
/// which `requires` rules out. Nothing is claimed about which value comes
/// back. The thread-local generator is seeded from the operating system and
/// panics if that source is unavailable.
#[verifier::external_body]
pub(crate) fn random_in_range(low: i32, high: i32) -> (r: i32)
    requires
        low < high,
    ensures
        low <= r < high,
{
    rand::thread_rng().gen_range(low..high)
}

} // verus!
