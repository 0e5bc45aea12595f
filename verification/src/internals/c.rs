//! The NA markers of R's atomic types.
use vstd::prelude::*;

verus! {

/// The integer NA: the smallest `i32`.
pub const R_NaInt: i32 = i32::MIN;

/// The logical NA, which R stores as the integer NA.
pub const R_NaLogical: i32 = R_NaInt;

/// The bit pattern of the double NA: a NaN whose high 32-bit word is
/// `0x7ff00000` and whose low word is 1954.
pub fn r_na_real_bits() -> (r: u64)
    ensures
        r == 0x7ff0_0000_0000_07a2u64,
{
    let r = (0x7ff00000u64 << 32u64) | 1954u64;
    assert((0x7ff00000u64 << 32u64) | 1954u64 == 0x7ff0_0000_0000_07a2u64) by (bit_vector);
    r
}

/// Whether a double, given by its bits, is the double NA: bit for bit equal
/// to it.
pub fn is_na_real_bits(bits: u64) -> (r: bool)
    ensures
        r == (bits == 0x7ff0_0000_0000_07a2u64),
{
    bits == r_na_real_bits()
}

} // verus!
