//! The arithmetic of the M extension: full-width products and division
//! with the ISA's results for division by zero and overflow.
use crate::bits::{signed, to_signed, wrap};
use vstd::prelude::*;

verus! {

/// Division rounded toward zero (`y != 0`).
pub open spec fn tdiv(x: int, y: int) -> int {
    let q = abs(x) / abs(y);
    if (x < 0) != (y < 0) {
        -q
    } else {
        q as int
    }
}

/// The remainder of division rounded toward zero; it takes the sign of
/// the dividend (`y != 0`).
pub open spec fn trem(x: int, y: int) -> int {
    let r = abs(x) % abs(y);
    if x < 0 {
        -r
    } else {
        r as int
    }
}

pub open spec fn abs(x: int) -> nat {
    if x < 0 {
        (-x) as nat
    } else {
        x as nat
    }
}

/// `MUL`: the low 32 bits of the product.
pub open spec fn mul_spec(a: u32, b: u32) -> u32 {
    wrap(a * b)
}

/// `MULH`: the high 32 bits of the signed x signed product.
pub open spec fn mulh_spec(a: u32, b: u32) -> u32 {
    wrap((signed(a) * signed(b)) / 0x1_0000_0000)
}

/// `MULHSU`: the high 32 bits of the signed x unsigned product.
pub open spec fn mulhsu_spec(a: u32, b: u32) -> u32 {
    wrap((signed(a) * b) / 0x1_0000_0000)
}

/// `MULHU`: the high 32 bits of the unsigned x unsigned product.
pub open spec fn mulhu_spec(a: u32, b: u32) -> u32 {
    wrap((a * b) / 0x1_0000_0000)
}

/// `DIV`: signed division; all ones on division by zero, the dividend on
/// overflow (`INT32_MIN / -1`).
pub open spec fn div_spec(a: u32, b: u32) -> u32 {
    if b == 0 {
        0xFFFF_FFFF
    } else if a == 0x8000_0000 && b == 0xFFFF_FFFF {
        a
    } else {
        wrap(tdiv(signed(a), signed(b)))
    }
}

/// `DIVU`: unsigned division; all ones on division by zero.
pub open spec fn divu_spec(a: u32, b: u32) -> u32 {
    if b == 0 {
        0xFFFF_FFFF
    } else {
        a / b
    }
}

/// `REM`: signed remainder; the dividend on division by zero, zero on
/// overflow.
pub open spec fn rem_spec(a: u32, b: u32) -> u32 {
    if b == 0 {
        a
    } else if a == 0x8000_0000 && b == 0xFFFF_FFFF {
        0
    } else {
        wrap(trem(signed(a), signed(b)))
    }
}

/// `REMU`: unsigned remainder; the dividend on division by zero.
pub open spec fn remu_spec(a: u32, b: u32) -> u32 {
    if b == 0 {
        a
    } else {
        a % b
    }
}

pub fn mul_low(a: u32, b: u32) -> (r: u32)
    ensures
        r == mul_spec(a, b),
{
    a.wrapping_mul(b)
}

pub fn mulh(a: u32, b: u32) -> (r: u32)
    ensures
        r == mulh_spec(a, b),
{
    let sa = to_signed(a) as i128;
    let sb = to_signed(b) as i128;
    assert(-0x8000_0000 * 0x8000_0000 <= sa * sb <= 0x8000_0000 * 0x8000_0000) by (nonlinear_arith)
        requires
            -0x8000_0000 <= sa < 0x8000_0000,
            -0x8000_0000 <= sb < 0x8000_0000,
    ;
    let p: i128 = sa * sb;
    let t: u128 = (p + 0x1_0000_0000_0000_0000) as u128;
    let hi: u128 = t / 0x1_0000_0000;
    assert(hi == p / 0x1_0000_0000 + 0x1_0000_0000);
    (hi % 0x1_0000_0000) as u32
}

pub fn mulhsu(a: u32, b: u32) -> (r: u32)
    ensures
        r == mulhsu_spec(a, b),
{
    let sa = to_signed(a) as i128;
    let ub = b as i128;
    assert(-0x8000_0000 * 0x1_0000_0000 <= sa * ub <= 0x8000_0000 * 0x1_0000_0000) by (nonlinear_arith)
        requires
            -0x8000_0000 <= sa < 0x8000_0000,
            0 <= ub < 0x1_0000_0000,
    ;
    let p: i128 = sa * ub;
    let t: u128 = (p + 0x1_0000_0000_0000_0000) as u128;
    let hi: u128 = t / 0x1_0000_0000;
    assert(hi == p / 0x1_0000_0000 + 0x1_0000_0000);
    (hi % 0x1_0000_0000) as u32
}

pub fn mulhu(a: u32, b: u32) -> (r: u32)
    ensures
        r == mulhu_spec(a, b),
{
    assert(a * b <= 0xFFFF_FFFF * 0xFFFF_FFFF) by (nonlinear_arith)
        requires
            a <= 0xFFFF_FFFF,
            b <= 0xFFFF_FFFF,
    ;
    let p: u64 = a as u64 * b as u64;
    let hi: u64 = p / 0x1_0000_0000;
    hi as u32
}

/// The magnitude of a register value read as signed.
fn magnitude(a: u32) -> (r: u32)
    ensures
        r == abs(signed(a)),
{
    if a >= 0x8000_0000 {
        0u32.wrapping_sub(a)
    } else {
        a
    }
}

/// Negates modulo 2^32.
fn negate(q: u32) -> (r: u32)
    ensures
        r == wrap(-(q as int)),
{
    0u32.wrapping_sub(q)
}

pub fn div(a: u32, b: u32) -> (r: u32)
    ensures
        r == div_spec(a, b),
{
    if b == 0 {
        0xFFFF_FFFF
    } else if a == 0x8000_0000 && b == 0xFFFF_FFFF {
        a
    } else {
        let q = magnitude(a) / magnitude(b);
        if (a >= 0x8000_0000) != (b >= 0x8000_0000) {
            negate(q)
        } else {
            q
        }
    }
}

pub fn divu(a: u32, b: u32) -> (r: u32)
    ensures
        r == divu_spec(a, b),
{
    if b == 0 {
        0xFFFF_FFFF
    } else {
        a / b
    }
}

pub fn rem(a: u32, b: u32) -> (r: u32)
    ensures
        r == rem_spec(a, b),
{
    if b == 0 {
        a
    } else if a == 0x8000_0000 && b == 0xFFFF_FFFF {
        0
    } else {
        let m = magnitude(a) % magnitude(b);
        if a >= 0x8000_0000 {
            negate(m)
        } else {
            m
        }
    }
}

pub fn remu(a: u32, b: u32) -> (r: u32)
    ensures
        r == remu_spec(a, b),
{
    if b == 0 {
        a
    } else {
        a % b
    }
}

/// Signed-division boundaries: `DIV(INT32_MIN, -1) == INT32_MIN`,
/// `REM(INT32_MIN, -1) == 0`, and division by zero gives all ones for the
/// quotient and the dividend for the remainder, signed or not.
pub proof fn lemma_division_boundaries(x: u32)
    ensures
        div_spec(0x8000_0000, 0xFFFF_FFFF) == 0x8000_0000,
        rem_spec(0x8000_0000, 0xFFFF_FFFF) == 0,
        div_spec(x, 0) == 0xFFFF_FFFF,
        rem_spec(x, 0) == x,
        divu_spec(x, 0) == 0xFFFF_FFFF,
        remu_spec(x, 0) == x,
{
}

} // verus!
