//! Randomized construction: a container made from the entropy of a byte-slice
//! driver.
//!
//! The live count is drawn first; then an element generator, which the caller
//! hands in, fills every slot from the same driver. The count is a function of
//! the bytes that the driver holds, so a replay of the same bytes gives the same
//! container wherever the element generator is a function of its bytes too.

use crate::driver::{draw_in, range_draw, remaining};
use crate::inline_vec::InlineVec;
use bolero_generator::driver::ByteSliceDriver;
use vstd::prelude::*;

verus! {

/// The live count that is drawn from `entropy` for a container of capacity
/// `cap`, or `None` where the draw fails.
///
/// Without capacity there is nothing to draw, and the count is 0. Otherwise the
/// count comes from `0..cap`, so that it never reaches the capacity itself.
pub open spec fn drawn_len(entropy: Seq<u8>, cap: usize) -> Option<usize> {
    if cap == 0 {
        Some(0usize)
    } else {
        range_draw(entropy, 0, cap).0
    }
}

/// The entropy that the draw of the live count leaves of `entropy`, for the
/// element generator to read. Without capacity that is all of it.
pub open spec fn entropy_after_len(entropy: Seq<u8>, cap: usize) -> Seq<u8> {
    if cap == 0 {
        entropy
    } else {
        range_draw(entropy, 0, cap).1
    }
}

impl<T, const LEN: usize> InlineVec<T, LEN> {
    /// Whether `made` is what the slots from the element generator come to, with
    /// `len` of them live: a container of exactly these slots, or nothing where
    /// the generator gave nothing.
    pub open spec fn assembled(slots: Option<[T; LEN]>, len: usize, made: Option<Self>) -> bool {
        match slots {
            Some(values) => made matches Some(v) && v.storage() == values@ && v.len() == len,
            None => made is None,
        }
    }

    /// Whether one call of the element generator `storage`, made on the driver
    /// `mid` and answered with `slots`, accounts for `made` on `entropy`: the
    /// draw of the live count succeeds, with a count below the capacity or, for
    /// want of capacity, 0; `mid` holds the entropy that the draw leaves; and
    /// `made` is assembled from the count and `slots`.
    pub open spec fn is_run<'a, F>(
        entropy: Seq<u8>,
        storage: F,
        mid: &mut ByteSliceDriver<'a>,
        slots: Option<[T; LEN]>,
        made: Option<Self>,
    ) -> bool where F: FnOnce(&mut ByteSliceDriver<'a>) -> Option<[T; LEN]> {
        &&& drawn_len(entropy, LEN) matches Some(len)
        &&& LEN == 0 ==> len == 0
        &&& LEN > 0 ==> len < LEN
        &&& remaining(*mid) == entropy_after_len(entropy, LEN)
        &&& call_ensures(storage, (mid,), slots)
        &&& Self::assembled(slots, len, made)
    }

    /// Whether `made` is a result of [`InlineVec::generate`] on a driver that
    /// holds `entropy`, with `storage` as the element generator: nothing where
    /// the draw of the live count fails, and else what some call of `storage`
    /// accounts for.
    pub open spec fn generates<'a, F>(entropy: Seq<u8>, storage: F, made: Option<Self>) -> bool where
        F: FnOnce(&mut ByteSliceDriver<'a>) -> Option<[T; LEN]>,
     {
        if drawn_len(entropy, LEN) is None {
            made is None
        } else {
            exists|mid: &mut ByteSliceDriver<'a>, slots: Option<[T; LEN]>|
                #![trigger call_ensures(storage, (mid,), slots)]
                Self::is_run(entropy, storage, mid, slots, made)
        }
    }

    /// Draws the live count of a container of this capacity.
    ///
    /// With `LEN == 0` no draw is made: the count is 0 and the driver stays as
    /// it is. Otherwise the count is drawn from `0..LEN`. Either way the count
    /// is [`drawn_len`] of the driver's entropy, and the driver is left with
    /// [`entropy_after_len`] of it.
    pub fn draw_len(driver: &mut ByteSliceDriver<'_>) -> (drawn: Option<usize>)
        ensures
            drawn == drawn_len(remaining(*old(driver)), LEN),
            remaining(*final(driver)) == entropy_after_len(remaining(*old(driver)), LEN),
            LEN == 0 ==> *final(driver) == *old(driver),
            drawn matches Some(len) ==> (LEN == 0 ==> len == 0) && (LEN > 0 ==> len < LEN),
    {
        if LEN == 0 {
            Some(0)
        } else {
            draw_in(driver, 0, LEN)
        }
    }

    /// Makes a container from the driver's entropy: draws the live count, then
    /// has `storage` generate all `LEN` slots from the same driver.
    ///
    /// The result is nothing exactly where the draw or `storage` gives nothing.
    /// Otherwise it holds the slots that `storage` returned, with the drawn
    /// count of them live; that count is below `LEN`, or 0 where `LEN` is 0.
    ///
    /// The first clause says so in the form that the laws of this module take
    /// up. The next two say it once more, together with the state in which the
    /// run leaves the driver: as the failed draw left it, or else as `storage`
    /// left it; with `LEN == 0` the driver reaches `storage` untouched. The last
    /// clause spells out what the first holds on the live count.
    pub fn generate<'a, F>(driver: &mut ByteSliceDriver<'a>, storage: F) -> (made: Option<Self>) where
        F: FnOnce(&mut ByteSliceDriver<'a>) -> Option<[T; LEN]>,
        requires
            forall|d: &mut ByteSliceDriver<'a>| call_requires(storage, (d,)),
        ensures
            Self::generates(remaining(*old(driver)), storage, made),
            drawn_len(remaining(*old(driver)), LEN) is None
                ==> remaining(*final(driver)) == entropy_after_len(remaining(*old(driver)), LEN),
            drawn_len(remaining(*old(driver)), LEN) is Some
                ==> (exists|mid: &mut ByteSliceDriver<'a>, slots: Option<[T; LEN]>|
                    #![trigger call_ensures(storage, (mid,), slots)]
                    Self::is_run(remaining(*old(driver)), storage, mid, slots, made)
                        && (LEN == 0 ==> *mid == *old(driver))
                        && *final(mid) == *final(driver)),
            made matches Some(v)
                ==> v@.len() == v.len() && (LEN == 0 ==> v.len() == 0) && (LEN > 0 ==> v.len() < LEN),
    {
        let len = match Self::draw_len(driver) {
            Some(len) => len,
            None => {
                return None;
            },
        };
        match storage(driver) {
            Some(values) => Some(InlineVec::new(values, len)),
            None => None,
        }
    }

    /// A generated container is never full: its live count, which is the length
    /// of its sequence, is below the capacity. Without capacity it is empty.
    pub proof fn lemma_generated_is_never_full<'a, F>(entropy: Seq<u8>, storage: F, made: Self) where
        F: FnOnce(&mut ByteSliceDriver<'a>) -> Option<[T; LEN]>,
        requires
            Self::generates(entropy, storage, Some(made)),
        ensures
            made.wf(),
            made@.len() == made.len(),
            LEN > 0 ==> made.len() < LEN,
            LEN == 0 ==> made.len() == 0 && made@ == Seq::<T>::empty(),
    {
        let (mid, slots) = choose|mid: &mut ByteSliceDriver<'a>, slots: Option<[T; LEN]>|
            #![trigger call_ensures(storage, (mid,), slots)]
            Self::is_run(entropy, storage, mid, slots, Some(made));
        assert(slots is Some);
    }

    /// Determinism: two runs of [`InlineVec::generate`] over the same entropy
    /// end alike, with equal containers or with nothing both times, provided
    /// that what the element generator returns depends on nothing but the
    /// entropy of the driver it is given.
    pub proof fn lemma_generate_deterministic<'a, F>(
        entropy: Seq<u8>,
        storage: F,
        first: Option<Self>,
        second: Option<Self>,
    ) where F: FnOnce(&mut ByteSliceDriver<'a>) -> Option<[T; LEN]>,
        requires
            Self::generates(entropy, storage, first),
            Self::generates(entropy, storage, second),
            forall|
                m: &mut ByteSliceDriver<'a>,
                n: &mut ByteSliceDriver<'a>,
                x: Option<[T; LEN]>,
                y: Option<[T; LEN]>,
            |
                remaining(*m) == remaining(*n)
                    && #[trigger] call_ensures(storage, (m,), x)
                    && #[trigger] call_ensures(storage, (n,), y)
                    ==> x == y,
        ensures
            first == second,
    {
        if drawn_len(entropy, LEN) is Some {
            let (m, x) = choose|m: &mut ByteSliceDriver<'a>, x: Option<[T; LEN]>|
                #![trigger call_ensures(storage, (m,), x)]
                Self::is_run(entropy, storage, m, x, first);
            let (n, y) = choose|n: &mut ByteSliceDriver<'a>, y: Option<[T; LEN]>|
                #![trigger call_ensures(storage, (n,), y)]
                Self::is_run(entropy, storage, n, y, second);
            assert(x == y);
            if let (Some(a), Some(b)) = (first, second) {
                Self::lemma_equal_by_parts(a, b);
            }
        }
    }
}

} // verus!
