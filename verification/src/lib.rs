//! A one-byte codec for a single nibble of a `u64`.
//!
//! A [`Crumb`] packs the position of a 4-bit nibble within a 64-bit
//! integer, together with that nibble's value, into a single byte:
//!
//! `|      4 bits     |     4 bits     |`
//!
//! `| index of nibble | nibble of data |`
//!
//! Decoding restores the nibble at its original position inside the
//! `u64` and leaves every other bit zero, so encode-then-decode is
//! lossless for the selected nibble.

use vstd::prelude::*;

verus! {

/// Number of nibbles in a `u64`. A nibble index is valid exactly when it
/// is below this bound.
pub const MAX_NIBBLE_INDEX: u8 = 16;

/// Error returned by [`Crumb::new`] when the nibble index is
/// [`MAX_NIBBLE_INDEX`] or more.
#[derive(Clone, Copy, Debug, PartialEq, Eq, Structural)]
pub struct InvalidIndex;

/// A nibble index and the 4-bit value found at that index, packed into
/// one byte: the index in the high nibble, the data in the low nibble.
#[derive(Clone, Copy, Default)]
pub struct Crumb(u8);

impl View for Crumb {
    type V = u8;

    closed spec fn view(&self) -> u8 {
        self.0
    }
}

/// The distance, in bits, from bit 0 of a `u64` to the nibble at
/// `nibble_index`.
pub open spec fn nibble_shift(nibble_index: u8) -> u64 {
    ((nibble_index as u64) * 4) as u64
}

/// The 4-bit value of `src` at `nibble_index`, as the low bits of a `u64`.
pub open spec fn nibble_at(nibble_index: u8, src: u64) -> u64 {
    (src >> nibble_shift(nibble_index)) & 0xF
}

/// The byte that encoding produces: `nibble_index` in the high nibble,
/// the selected 4-bit value of `src` in the low nibble.
pub open spec fn packed_byte(nibble_index: u8, src: u64) -> u8 {
    (nibble_index << 4) | (nibble_at(nibble_index, src) as u8)
}

/// The `u64` that decoding a crumb with raw byte `raw` produces: the
/// crumb's data nibble placed back at the crumb's index, all other bits
/// zero.
pub open spec fn decoded(raw: u8) -> u64 {
    ((raw & 0xF) as u64) << nibble_shift(raw >> 4)
}

impl Crumb {
    /// Packs the nibble of `src` at `nibble_index` together with that
    /// index into a crumb. Fails with [`InvalidIndex`] exactly when
    /// `nibble_index` is out of range; every in-range index succeeds.
    pub fn new(nibble_index: u8, src: u64) -> (result: Result<Self, InvalidIndex>)
        ensures
            result is Ok <==> nibble_index < MAX_NIBBLE_INDEX,
            (result matches Ok(crumb) ==> crumb@ == packed_byte(nibble_index, src)),
    {
        if nibble_index >= MAX_NIBBLE_INDEX {
            Err(InvalidIndex)
        } else {
            Ok(Self::new_unchecked(nibble_index, src))
        }
    }

    /// Packs the nibble of `src` at `nibble_index` without checking the
    /// index: the caller must establish `nibble_index < MAX_NIBBLE_INDEX`
    /// beforehand, for instance by calling [`Crumb::new`] instead.
    pub fn new_unchecked(nibble_index: u8, src: u64) -> (crumb: Self)
        requires
            nibble_index < MAX_NIBBLE_INDEX,
        ensures
            crumb@ == packed_byte(nibble_index, src),
    {
        let shift: u64 = (nibble_index as u64) * 4;
        let data: u8 = ((src >> shift) & 0xF) as u8;
        Crumb((nibble_index << 4) | data)
    }

    /// Unpacks the crumb into a `u64`: the data nibble stands at the
    /// encoded index, and every bit outside that 4-bit window is zero.
    pub fn get_u64(&self) -> (r: u64)
        ensures
            r == decoded(self@),
    {
        let raw: u8 = self.0;
        let data: u64 = (raw & 0xF) as u64;
        let nibble_index: u8 = raw >> 4;
        proof {
            assert(raw >> 4 < 16) by (bit_vector);
        }
        let shift: u64 = (nibble_index as u64) * 4;
        data << shift
    }

    /// Returns the packed byte itself, for callers who persist or
    /// transmit the crumb directly.
    pub fn get_u8(&self) -> (r: u8)
        ensures
            r == self@,
    {
        self.0
    }
}

/// Round trip: decoding an encoded crumb yields the selected nibble of
/// the source, restored at its original position — equal to
/// `(src >> (nibble_index * 4)) & 0xF`, shifted back up by
/// `nibble_index * 4`.
pub proof fn lemma_round_trip(nibble_index: u8, src: u64)
    requires
        nibble_index < MAX_NIBBLE_INDEX,
    ensures
        decoded(packed_byte(nibble_index, src)) == nibble_at(nibble_index, src) << nibble_shift(nibble_index),
{
    assert(decoded(packed_byte(nibble_index, src)) == nibble_at(nibble_index, src)
        << nibble_shift(nibble_index)) by (bit_vector)
        requires
            nibble_index < 16,
    ;
}

/// Isolation: whatever byte a crumb holds, the decoded `u64` has zero
/// bits everywhere outside the 4-bit window at the crumb's index.
pub proof fn lemma_isolation(raw: u8)
    ensures
        decoded(raw) & !(0xFu64 << nibble_shift(raw >> 4)) == 0,
{
    assert(decoded(raw) & !(0xFu64 << nibble_shift(raw >> 4)) == 0) by (bit_vector);
}

/// Injectivity at a fixed index: two sources whose nibbles at
/// `nibble_index` differ encode to different raw bytes, and those bytes
/// decode to different values.
pub proof fn lemma_injective(nibble_index: u8, src1: u64, src2: u64)
    requires
        nibble_index < MAX_NIBBLE_INDEX,
        nibble_at(nibble_index, src1) != nibble_at(nibble_index, src2),
    ensures
        packed_byte(nibble_index, src1) != packed_byte(nibble_index, src2),
        decoded(packed_byte(nibble_index, src1)) != decoded(packed_byte(nibble_index, src2)),
{
    assert(packed_byte(nibble_index, src1) != packed_byte(nibble_index, src2)
        && decoded(packed_byte(nibble_index, src1)) != decoded(packed_byte(nibble_index, src2)))
        by (bit_vector)
        requires
            nibble_index < 16,
            nibble_at(nibble_index, src1) != nibble_at(nibble_index, src2),
    ;
}

} // verus!
