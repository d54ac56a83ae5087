//! The byte-slice driver of `bolero_generator`, as far as this library uses it.
//!
//! Nothing in this module is proved. It states what the library takes on trust
//! from the outside crate: the driver's type, a name for the entropy that a
//! driver holds, and the one call that the library makes into it.

use bolero_generator::driver::ByteSliceDriver;
use bolero_generator::ValueGenerator;
use vstd::prelude::*;

verus! {

/// Trusted: makes `bolero_generator::driver::ByteSliceDriver` known to the
/// verifier, as a type whose inside it does not see.
#[verifier::external_type_specification]
#[verifier::external_body]
pub struct ExByteSliceDriver<'a>(ByteSliceDriver<'a>);

/// Trusted name for the entropy that a driver has left: the bytes that
/// `ByteSliceDriver::as_slice` hands out. They are the bytes of the driver's
/// input, cut at the length limit of its options, that no draw has consumed.
pub uninterp spec fn remaining(driver: ByteSliceDriver<'_>) -> Seq<u8>;

/// Trusted name for a draw from `start..end`: the value that
/// `ValueGenerator::generate` of that range returns on a byte-slice driver that
/// has `entropy` left, and the entropy that the driver has left after it.
pub uninterp spec fn range_draw(entropy: Seq<u8>, start: usize, end: usize) -> (Option<usize>, Seq<u8>);

/// Trusted: calls `ValueGenerator::generate` of the range `start..end`, which
/// asks the driver's `gen_usize` for a value from `start` inclusive to `end`
/// exclusive.
///
/// The contract claims three things of that call. What it returns and what
/// entropy it leaves depend on the entropy that the driver had and on the two
/// bounds, and on nothing else: a byte-slice driver reads its bytes in order,
/// takes zeros where they run out, and scales what it read into the range; its
/// depth counters play no part. And a value that comes back lies in the range.
///
/// The precondition keeps the range from being empty.
#[verifier::external_body]
pub(crate) fn draw_in(
    driver: &mut ByteSliceDriver<'_>,
    start: usize,
    end: usize,
) -> (drawn: Option<usize>)
    requires
        start < end,
    ensures
        drawn == range_draw(remaining(*old(driver)), start, end).0,
        remaining(*final(driver)) == range_draw(remaining(*old(driver)), start, end).1,
        drawn matches Some(n) ==> start <= n < end,
{
    (start..end).generate(driver)
}

} // verus!
