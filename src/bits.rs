//! Bit-field extraction and sign extension, the primitives that every
//! instruction-field accessor is built from.
use vstd::arithmetic::power2::{lemma2_to64, lemma_pow2_pos, lemma_pow2_unfold, pow2};
use vstd::bits::{
    lemma_u32_low_bits_mask_is_mod, lemma_u32_pow2_no_overflow, lemma_u32_shl_is_mul,
    lemma_u32_shr_is_div, low_bits_mask,
};
use vstd::prelude::*;

verus! {

/// `w[hi:lo]` in the notation of the ISA manual: bits `hi` down to `lo` of
/// `w`, read as an unsigned number.
pub open spec fn field(w: u32, hi: nat, lo: nat) -> nat {
    (w as nat / pow2(lo)) % pow2((hi + 1 - lo) as nat)
}

/// `w[i]`: the single bit `i` of `w`.
pub open spec fn bit(w: u32, i: nat) -> nat {
    field(w, i, i)
}

/// The low `n` bits of `v` read as an `n`-bit two's-complement number.
pub open spec fn sext(v: nat, n: nat) -> int {
    let low = v % pow2(n);
    if low >= pow2((n - 1) as nat) {
        low - pow2(n)
    } else {
        low as int
    }
}

/// A 32-bit register value read as a signed number.
pub open spec fn signed(v: u32) -> int {
    if v < 0x8000_0000 {
        v as int
    } else {
        v - 0x1_0000_0000
    }
}

/// An integer reduced modulo 2^32, as a 32-bit register holds it.
pub open spec fn wrap(x: int) -> u32 {
    (x % 0x1_0000_0000) as u32
}

/// Extracts `w[hi:lo]`.
pub fn bits_of(w: u32, hi: u32, lo: u32) -> (r: u32)
    requires
        lo <= hi <= 31,
        hi - lo < 31,
    ensures
        r == field(w, hi as nat, lo as nat),
        r < pow2((hi + 1 - lo) as nat),
{
    let width: u32 = hi - lo + 1;
    proof {
        lemma_u32_shr_is_div(w, lo);
        lemma_u32_pow2_no_overflow(width as nat);
        lemma_u32_shl_is_mul(1, width);
        lemma_u32_low_bits_mask_is_mod(w >> lo, width as nat);
        lemma_pow2_pos(width as nat);
    }
    let mask: u32 = (1u32 << width) - 1;
    assert(mask == low_bits_mask(width as nat) as u32);
    (w >> lo) & mask
}

/// Extracts the five-bit field `w[hi:hi-4]`.
pub fn bits5_of(w: u32, hi: u32) -> (r: u32)
    requires
        4 <= hi <= 31,
    ensures
        r == field(w, hi as nat, (hi - 4) as nat),
        r < 32,
{
    proof {
        lemma2_to64();
    }
    bits_of(w, hi, hi - 4)
}

/// Sign-extends the low `n` bits of `v` to a 32-bit signed value.
pub fn sign_extend(v: u32, n: u32) -> (r: i32)
    requires
        1 <= n <= 31,
    ensures
        r as int == sext(v as nat, n as nat),
{
    proof {
        lemma_u32_pow2_no_overflow(n as nat);
        lemma_u32_shl_is_mul(1, n);
        lemma_pow2_unfold(n as nat);
        lemma_pow2_pos((n - 1) as nat);
    }
    let m: u32 = 1u32 << n;
    let low: u32 = v % m;
    let half: u32 = m / 2;
    if low >= half {
        (low as i64 - m as i64) as i32
    } else {
        low as i32
    }
}

/// Reads a register value as a signed number.
pub fn to_signed(v: u32) -> (r: i32)
    ensures
        r as int == signed(v),
{
    if v < 0x8000_0000 {
        v as i32
    } else {
        (v as i64 - 0x1_0000_0000) as i32
    }
}

/// Reduces a signed number modulo 2^32.
pub fn wrap_signed(x: i32) -> (r: u32)
    ensures
        r == wrap(x as int),
{
    if x >= 0 {
        x as u32
    } else {
        (x as i64 + 0x1_0000_0000) as u32
    }
}

} // verus!
