//! The one source of chance: integers drawn from the thread's generator.

use rand::Rng;
use vstd::prelude::*;

verus! {

/// Calls `rand::Rng::gen_range` with the half-open range `low..high` on the
/// generator that `rand::thread_rng` hands out. Believed, not proved: the
/// call returns, and what it returns lies in the range, its lower end
/// included and its upper end excluded. The outside call panics on an empty
/// range, which `requires` leaves out; it also panics where the system can
/// give the generator no seed.
#[verifier::external_body]
pub(crate) fn random_in_range(low: i64, high: i64) -> (value: i64)
    requires
        low < high,
    ensures
        low <= value < high,
{
    rand::thread_rng().gen_range(low..high)
}

} // verus!
