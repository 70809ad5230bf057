//! Bit-field extraction from 32-bit instruction words.
//!
//! A [`Field`] names a contiguous range of bits inside a word by its width
//! and the position of its least-significant bit.  [`get`] returns the
//! unsigned value those bits encode, shifted down into the low bits of the
//! result.

use vstd::arithmetic::div_mod::lemma_div_multiples_vanish;
use vstd::arithmetic::div_mod::lemma_small_mod;
use vstd::arithmetic::power2::lemma2_to64;
use vstd::arithmetic::power2::lemma_pow2_pos;
use vstd::arithmetic::power2::lemma_pow2_strictly_increases;
use vstd::arithmetic::power2::pow2;
use vstd::bits::lemma_u64_low_bits_mask_is_mod;
use vstd::bits::lemma_u64_shl_is_mul;
use vstd::bits::lemma_u64_shr_is_div;
use vstd::bits::low_bits_mask;
use vstd::prelude::*;

verus! {

/// A contiguous bit range inside a 32-bit word: `width` bits, the lowest of
/// which is bit `lsb` of the word.  Well-formed fields fit entirely inside
/// the word (`width + lsb <= 32`).
#[derive(Clone, Copy, Debug)]
pub struct Field {
    pub width: u32,
    pub lsb: u32,
}

impl Field {
    /// The field lies entirely within a 32-bit word.
    pub open spec fn wf(self) -> bool {
        self.width + self.lsb <= 32
    }
}

/// The mathematical value of the bit range `[lsb, lsb + width)` of `word`:
/// discard the `lsb` low bits, then keep the next `width` bits.
pub open spec fn bit_slice(word: u32, width: nat, lsb: nat) -> nat {
    (word as nat / pow2(lsb)) % pow2(width)
}

/// Given a `field` and an `instruction` word, extract that field from the
/// instruction as a `u32`.
pub fn get(field: &Field, instruction: u32) -> (r: u32)
    requires
        field.wf(),
    ensures
        r as nat == bit_slice(instruction, field.width as nat, field.lsb as nat),
        (r as nat) < pow2(field.width as nat),
{
    proof {
        lemma2_to64();
        lemma_pow2_pos(field.width as nat);
        if field.width < 32 {
            lemma_pow2_strictly_increases(field.width as nat, 32);
        }
        lemma_u64_shl_is_mul(1u64, field.width as u64);
    }
    let shifted: u64 = (instruction as u64) >> (field.lsb as u64);
    let mask: u64 = (1u64 << (field.width as u64)) - 1;
    let r64: u64 = shifted & mask;
    proof {
        lemma_u64_shr_is_div(instruction as u64, field.lsb as u64);
        assert(mask == low_bits_mask(field.width as nat) as u64);
        lemma_u64_low_bits_mask_is_mod(shifted, field.width as nat);
    }
    r64 as u32
}

/// Round trip: a word built by placing a value `v < 2^width` at bit `lsb`
/// with every other bit zero (that is, `w == v * 2^lsb`) gives back exactly
/// `v` when the field `{width, lsb}` is extracted from it.
pub proof fn lemma_place_then_extract(w: u32, width: nat, lsb: nat, v: nat)
    requires
        width + lsb <= 32,
        v < pow2(width),
        w as nat == v * pow2(lsb),
    ensures
        bit_slice(w, width, lsb) == v,
{
    lemma_pow2_pos(lsb);
    lemma_pow2_pos(width);
    lemma_div_multiples_vanish(v as int, pow2(lsb) as int);
    lemma_small_mod(v, pow2(width));
}

} // verus!
