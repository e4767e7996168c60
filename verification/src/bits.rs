//! The bit assembler.
//!
//! The converter shifts its 24-bit register out most significant bit first,
//! one bit per clock pulse. Each sampled bit is shifted into the low end of a
//! register that is 24 bits wide: `raw = (raw << 1) | bit`.

use vstd::prelude::*;
use vstd::arithmetic::div_mod::{lemma_fundamental_div_mod, lemma_mod_multiples_vanish, lemma_small_mod};
use vstd::arithmetic::power2::{lemma2_to64, lemma_pow2_strictly_increases, lemma_pow2_unfold, pow2};
use crate::sample::{RAW_MAX, SAMPLE_BITS};

verus! {

/// The weight a single bit adds to a register: 1 when set, 0 when clear.
pub open spec fn bit_value(bit: bool) -> nat {
    if bit {
        1
    } else {
        0
    }
}

/// The number that `bits` spell when read most significant bit first.
pub open spec fn value_of(bits: Seq<bool>) -> nat
    decreases bits.len(),
{
    if bits.len() == 0 {
        0
    } else {
        2 * value_of(bits.drop_last()) + bit_value(bits.last())
    }
}

/// The `width` low bits of `value`, most significant bit first.
pub open spec fn bits_msb(value: nat, width: nat) -> Seq<bool>
    decreases width,
{
    if width == 0 {
        Seq::empty()
    } else {
        bits_msb(value / 2, (width - 1) as nat).push(value % 2 == 1)
    }
}

/// A 24-bit register that held `raw`, after `bit` was shifted in at the low
/// end. The bit that leaves at the high end is lost.
pub open spec fn shifted(raw: nat, bit: bool) -> nat {
    (2 * raw + bit_value(bit)) % 0x100_0000
}

/// `bits_msb` yields exactly `width` bits.
pub proof fn bits_msb_len(value: nat, width: nat)
    ensures
        bits_msb(value, width).len() == width,
    decreases width,
{
    if width > 0 {
        bits_msb_len(value / 2, (width - 1) as nat);
    }
}

/// A sequence of `n` bits spells a number below `2^n`.
pub proof fn value_of_bound(bits: Seq<bool>)
    ensures
        value_of(bits) < pow2(bits.len()),
    decreases bits.len(),
{
    if bits.len() == 0 {
        lemma2_to64();
    } else {
        value_of_bound(bits.drop_last());
        lemma_pow2_unfold(bits.len());
    }
}

/// Up to 24 bits spell a number that fits a raw sample.
pub proof fn value_of_fits(bits: Seq<bool>)
    requires
        bits.len() <= 24,
    ensures
        value_of(bits) <= 0xFF_FFFF,
{
    value_of_bound(bits);
    lemma2_to64();
    if bits.len() < 24 {
        lemma_pow2_strictly_increases(bits.len(), 24);
    }
}

/// Splitting a number below `2^width` into `width` bits and reading them back
/// gives the number again.
pub proof fn value_of_bits_msb(value: nat, width: nat)
    requires
        value < pow2(width),
    ensures
        value_of(bits_msb(value, width)) == value,
    decreases width,
{
    if width == 0 {
        lemma2_to64();
    } else {
        lemma_pow2_unfold(width);
        value_of_bits_msb(value / 2, (width - 1) as nat);
        let rest = bits_msb(value / 2, (width - 1) as nat);
        let bit = value % 2 == 1;
        assert(rest.push(bit).drop_last() =~= rest);
        assert(rest.push(bit).last() == bit);
    }
}

/// Reading a bit sequence as a number and splitting that number into as many
/// bits gives the sequence again.
pub proof fn bits_msb_of_value(bits: Seq<bool>)
    ensures
        bits_msb(value_of(bits), bits.len()) == bits,
    decreases bits.len(),
{
    if bits.len() > 0 {
        bits_msb_of_value(bits.drop_last());
        let high = value_of(bits.drop_last());
        let value = value_of(bits);
        assert(value / 2 == high);
        assert((value % 2 == 1) == bits.last());
        assert(bits.drop_last().push(bits.last()) =~= bits);
    }
}

/// Bit assembly preserves order: a 24-bit pattern fed most significant bit
/// first comes out of the assembler as the same pattern.
pub proof fn assemble_round_trip(raw: nat)
    requires
        raw <= 0xFF_FFFF,
    ensures
        bits_msb(raw, 24).len() == 24,
        value_of(bits_msb(raw, 24)) == raw,
{
    lemma2_to64();
    bits_msb_len(raw, 24);
    value_of_bits_msb(raw, 24);
}

/// Shifting a whole bit sequence into an empty 24-bit register, one bit at a
/// time, leaves the number the sequence spells, reduced to 24 bits.
proof fn shifted_follows_value(bits: Seq<bool>)
    requires
        bits.len() > 0,
    ensures
        shifted(value_of(bits.drop_last()) % 0x100_0000, bits.last()) == value_of(bits)
            % 0x100_0000,
{
    let high = value_of(bits.drop_last()) as int;
    let low = bit_value(bits.last()) as int;
    let m = 0x100_0000int;
    lemma_fundamental_div_mod(high, m);
    lemma_mod_multiples_vanish(2 * (high / m), 2 * (high % m) + low, m);
    assert(m * (2 * (high / m)) + (2 * (high % m) + low) == 2 * high + low);
}

/// Shifts one sampled bit into the low end of the 24-bit register.
pub fn shift_in(raw: u32, bit: bool) -> (next: u32)
    ensures
        next == shifted(raw as nat, bit),
        next <= RAW_MAX,
        raw <= 0x7F_FFFF ==> next == 2 * raw + bit_value(bit),
{
    let low: u32 = if bit {
        1
    } else {
        0
    };
    assert(low <= 1 ==> ((raw << 1u32) | low) & 0xFF_FFFFu32 == (2 * raw + low) % 0x100_0000)
        by (bit_vector);
    assert(((raw << 1u32) | low) & 0xFF_FFFFu32 <= 0xFF_FFFFu32) by (bit_vector);
    ((raw << 1u32) | low) & RAW_MAX
}

/// Assembles sampled bits, most significant first, into a raw sample.
///
/// The register keeps 24 bits: of a longer sequence only the last 24 bits
/// remain in it.
pub fn assemble(bits: &[bool]) -> (raw: u32)
    ensures
        raw == value_of(bits@) % 0x100_0000,
        raw <= RAW_MAX,
        bits@.len() <= 24 ==> raw == value_of(bits@),
{
    let mut raw: u32 = 0;
    let mut i: usize = 0;
    while i < bits.len()
        invariant
            i <= bits.len(),
            raw <= RAW_MAX,
            raw == value_of(bits@.take(i as int)) % 0x100_0000,
        decreases bits.len() - i,
    {
        proof {
            let upto = bits@.take(i + 1);
            assert(upto.drop_last() =~= bits@.take(i as int));
            assert(upto.last() == bits@[i as int]);
            shifted_follows_value(upto);
        }
        raw = shift_in(raw, bits[i]);
        i = i + 1;
    }
    proof {
        assert(bits@.take(i as int) =~= bits@);
        if bits@.len() <= 24 {
            value_of_fits(bits@);
            lemma_small_mod(value_of(bits@), 0x100_0000);
        }
    }
    raw
}

/// Splits a raw sample into its 24 bits, most significant first.
///
/// Bits of `raw` above bit 23 are not part of a sample and are left out.
pub fn bits_of(raw: u32) -> (bits: Vec<bool>)
    ensures
        bits@ == bits_msb(raw as nat, SAMPLE_BITS as nat),
        bits@.len() == SAMPLE_BITS,
{
    let mut bits: Vec<bool> = Vec::new();
    let mut i: u32 = 0;
    while i < 24
        invariant
            i <= 24,
            bits@ == bits_msb((raw >> ((24 - i) as u32)) as nat, i as nat),
        decreases 24 - i,
    {
        let place: u32 = 23 - i;
        let field: u32 = raw >> place;
        proof {
            let above: u32 = (24 - i) as u32;
            assert(place < 24 && above == place + 1 ==> (raw >> place) / 2 == raw >> above)
                by (bit_vector);
            assert(((raw >> place) & 1u32 == 1u32) == ((raw >> place) % 2 == 1)) by (bit_vector);
        }
        bits.push(field & 1 == 1);
        i = i + 1;
    }
    proof {
        assert(raw >> 0u32 == raw) by (bit_vector);
        bits_msb_len(raw as nat, 24);
    }
    bits
}

} // verus!
