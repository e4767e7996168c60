//! Raw and signed samples.
//!
//! A raw sample is the unsigned 24-bit register the converter shifts out. A
//! signed sample is the same register read as a two's-complement number in a
//! native `i32`.

use vstd::prelude::*;

verus! {

/// A sample as delivered to the caller.
pub type SignedSample = i32;

/// Number of data bits in one conversion.
pub const SAMPLE_BITS: u8 = 24;

/// Largest value of a raw sample, `2^24 - 1`.
pub const RAW_MAX: u32 = 0xFF_FFFF;

/// Bit 23 of a raw sample, which carries the sign.
pub const SIGN_BIT: u32 = 0x80_0000;

/// The number of values a raw sample can take, `2^24`.
pub open spec fn raw_modulus() -> int {
    0x100_0000
}

/// The two's-complement reading of a 24-bit register that holds `raw`.
pub open spec fn signed_value(raw: int) -> int {
    if raw >= 0x80_0000 {
        raw - raw_modulus()
    } else {
        raw
    }
}

/// Whether the sign bit of `raw` is set.
pub fn is_negative(raw: u32) -> (negative: bool)
    ensures
        negative == (raw & SIGN_BIT != 0),
        raw <= RAW_MAX ==> negative == (raw >= 0x80_0000),
{
    assert(raw <= 0xFF_FFFFu32 ==> ((raw & 0x80_0000u32 != 0) <==> raw >= 0x80_0000u32))
        by (bit_vector);
    raw & SIGN_BIT != 0
}

/// Widens a raw sample to a signed one.
///
/// Only the low 24 bits of `raw` are read, so the function is defined on
/// every `u32`; on a proper raw sample it is plain sign extension: the value
/// itself when bit 23 is clear and the value less `2^24` when it is set.
pub fn sign_extend(raw: u32) -> (signed: SignedSample)
    ensures
        signed == signed_value(raw as int % raw_modulus()),
        raw <= RAW_MAX && raw & SIGN_BIT == 0 ==> signed == raw,
        raw <= RAW_MAX && raw & SIGN_BIT != 0 ==> signed == raw - 16777216,
        -8388608 <= signed <= 8388607,
{
    let low: u32 = raw & RAW_MAX;
    assert(raw & 0xFF_FFFFu32 == raw % 0x100_0000u32) by (bit_vector);
    assert(raw <= 0xFF_FFFFu32 ==> raw & 0xFF_FFFFu32 == raw) by (bit_vector);
    assert(raw & 0xFF_FFFFu32 <= 0xFF_FFFFu32) by (bit_vector);
    if is_negative(low) {
        low as i32 - 0x100_0000
    } else {
        low as i32
    }
}

} // verus!
