//! The operand fields of the RV32 instruction formats: where each register
//! number and immediate sits in the instruction word, and how immediates are
//! assembled and sign-extended.
use crate::bits::{bit, bits5_of, bits_of, field, sext, sign_extend, signed, to_signed};
use crate::reg::{FReg, Reg};
use vstd::arithmetic::power2::lemma2_to64;
use vstd::prelude::*;

verus! {

// ----- 32-bit formats -----

/// I-type immediate: `w[31:20]`, sign-extended from 12 bits.
pub open spec fn i_imm(w: u32) -> int {
    sext(field(w, 31, 20), 12)
}

/// S-type immediate: `w[31:25]:w[11:7]`, sign-extended from 12 bits.
pub open spec fn s_imm(w: u32) -> int {
    sext(field(w, 31, 25) * 32 + field(w, 11, 7), 12)
}

/// B-type immediate: `w[31]:w[7]:w[30:25]:w[11:8]:0`, sign-extended from 13 bits.
pub open spec fn b_imm(w: u32) -> int {
    sext(bit(w, 31) * 4096 + bit(w, 7) * 2048 + field(w, 30, 25) * 32 + field(w, 11, 8) * 2, 13)
}

/// U-type immediate: `w[31:12] << 12`, read as a signed 32-bit number.
pub open spec fn u_imm(w: u32) -> int {
    signed((field(w, 31, 12) * 4096) as u32)
}

/// J-type immediate: `w[31]:w[19:12]:w[20]:w[30:21]:0`, sign-extended from 21 bits.
pub open spec fn j_imm(w: u32) -> int {
    sext(
        bit(w, 31) * 0x10_0000 + field(w, 19, 12) * 4096 + bit(w, 20) * 2048 + field(w, 30, 21)
            * 2,
        21,
    )
}

/// `rd`, bits 11..7.
pub open spec fn rd_of(w: u32) -> nat {
    field(w, 11, 7)
}

/// `rs1`, bits 19..15.
pub open spec fn rs1_of(w: u32) -> nat {
    field(w, 19, 15)
}

/// `rs2`, bits 24..20.
pub open spec fn rs2_of(w: u32) -> nat {
    field(w, 24, 20)
}

/// `rs3`, bits 31..27 (fused multiply-add).
pub open spec fn rs3_of(w: u32) -> nat {
    field(w, 31, 27)
}

// ----- 16-bit (compressed) formats -----

/// A compressed register field of three bits names one of `x8..x15`.
pub open spec fn creg_of(w: u32, hi: nat) -> nat {
    8 + field(w, hi, (hi - 2) as nat)
}

/// C.ADDI4SPN: `nzuimm[5:4|9:6|2|3]` in bits 12..5.
pub open spec fn ciw_imm(w: u32) -> nat {
    field(w, 12, 11) * 16 + field(w, 10, 7) * 64 + bit(w, 6) * 4 + bit(w, 5) * 8
}

/// C.LW / C.SW: `offset[5:3]` in bits 12..10, `offset[2|6]` in bits 6..5.
pub open spec fn cl_imm(w: u32) -> nat {
    field(w, 12, 10) * 8 + bit(w, 6) * 4 + bit(w, 5) * 64
}

/// C.ADDI / C.LI / C.ANDI: `imm[5]` in bit 12, `imm[4:0]` in bits 6..2,
/// sign-extended from 6 bits.
pub open spec fn ci_imm(w: u32) -> int {
    sext(bit(w, 12) * 32 + field(w, 6, 2), 6)
}

/// C.ADDI16SP: `nzimm[9]` in bit 12, `nzimm[4|6|8:7|5]` in bits 6..2,
/// sign-extended from 10 bits.
pub open spec fn ci16sp_imm(w: u32) -> int {
    sext(bit(w, 12) * 512 + bit(w, 6) * 16 + bit(w, 5) * 64 + field(w, 4, 3) * 128 + bit(w, 2) * 32, 10)
}

/// C.LUI: `nzimm[17]` in bit 12, `nzimm[16:12]` in bits 6..2, sign-extended
/// from 18 bits.
pub open spec fn clui_imm(w: u32) -> int {
    sext(bit(w, 12) * 0x2_0000 + field(w, 6, 2) * 4096, 18)
}

/// C.J / C.JAL: `offset[11|4|9:8|10|6|7|3:1|5]` in bits 12..2, sign-extended
/// from 12 bits.
pub open spec fn cj_imm(w: u32) -> int {
    sext(
        bit(w, 12) * 2048 + bit(w, 11) * 16 + field(w, 10, 9) * 256 + bit(w, 8) * 1024 + bit(w, 7)
            * 64 + bit(w, 6) * 128 + field(w, 5, 3) * 2 + bit(w, 2) * 32,
        12,
    )
}

/// C.BEQZ / C.BNEZ: `offset[8|4:3]` in bits 12..10, `offset[7:6|2:1|5]` in
/// bits 6..2, sign-extended from 9 bits.
pub open spec fn cb_imm(w: u32) -> int {
    sext(bit(w, 12) * 256 + field(w, 11, 10) * 8 + field(w, 6, 5) * 64 + field(w, 4, 3) * 2 + bit(w, 2)
        * 32, 9)
}

/// C.LWSP: `offset[5]` in bit 12, `offset[4:2|7:6]` in bits 6..2.
pub open spec fn clwsp_imm(w: u32) -> nat {
    bit(w, 12) * 32 + field(w, 6, 4) * 4 + field(w, 3, 2) * 64
}

/// C.SWSP: `offset[5:2|7:6]` in bits 12..7.
pub open spec fn cswsp_imm(w: u32) -> nat {
    field(w, 12, 9) * 4 + field(w, 8, 7) * 64
}

/// C.SLLI / C.SRLI / C.SRAI: `shamt[4:0]` in bits 6..2.
pub open spec fn cshamt(w: u32) -> nat {
    field(w, 6, 2)
}

// ----- extraction -----

/// The general-purpose register named by the five bits `w[hi:hi-4]`.
pub fn reg_at(w: u32, hi: u32) -> (r: Reg)
    requires
        4 <= hi <= 31,
    ensures
        r.id() == field(w, hi as nat, (hi - 4) as nat),
{
    Reg::from_u5(bits5_of(w, hi))
}

/// The floating-point register named by the five bits `w[hi:hi-4]`.
pub fn freg_at(w: u32, hi: u32) -> (r: FReg)
    requires
        4 <= hi <= 31,
    ensures
        r.id() == field(w, hi as nat, (hi - 4) as nat),
{
    FReg::from_u5(bits5_of(w, hi))
}

/// The register `x8..x15` named by the three bits `w[hi:hi-2]`.
pub fn creg_at(w: u32, hi: u32) -> (r: Reg)
    requires
        2 <= hi <= 31,
    ensures
        r.id() == creg_of(w, hi as nat),
{
    proof {
        lemma2_to64();
    }
    let v = bits_of(w, hi, hi - 2);
    Reg::from_u5(8 + v)
}

/// The CSR number `w[31:20]`.
pub fn csr_at(w: u32) -> (r: u32)
    ensures
        r == field(w, 31, 20),
        r < 4096,
{
    proof {
        lemma2_to64();
    }
    bits_of(w, 31, 20)
}

/// A six-bit shift amount `w[25:20]` (RV64).
pub fn shamt6_at(w: u32) -> (r: u32)
    ensures
        r == field(w, 25, 20),
        r < 64,
{
    proof {
        lemma2_to64();
    }
    bits_of(w, 25, 20)
}

pub fn i_imm_of(w: u32) -> (r: i32)
    ensures
        r as int == i_imm(w),
{
    sign_extend(bits_of(w, 31, 20), 12)
}

pub fn s_imm_of(w: u32) -> (r: i32)
    ensures
        r as int == s_imm(w),
{
    proof {
        lemma2_to64();
    }
    let v = bits_of(w, 31, 25) * 32 + bits_of(w, 11, 7);
    sign_extend(v, 12)
}

pub fn b_imm_of(w: u32) -> (r: i32)
    ensures
        r as int == b_imm(w),
{
    proof {
        lemma2_to64();
    }
    let v = bits_of(w, 31, 31) * 4096 + bits_of(w, 7, 7) * 2048 + bits_of(w, 30, 25) * 32 + bits_of(
        w,
        11,
        8,
    ) * 2;
    sign_extend(v, 13)
}

pub fn u_imm_of(w: u32) -> (r: i32)
    ensures
        r as int == u_imm(w),
{
    proof {
        lemma2_to64();
    }
    let v = bits_of(w, 31, 12) * 4096;
    to_signed(v)
}

pub fn j_imm_of(w: u32) -> (r: i32)
    ensures
        r as int == j_imm(w),
{
    proof {
        lemma2_to64();
    }
    let v = bits_of(w, 31, 31) * 0x10_0000 + bits_of(w, 19, 12) * 4096 + bits_of(w, 20, 20) * 2048
        + bits_of(w, 30, 21) * 2;
    sign_extend(v, 21)
}

pub fn ciw_imm_of(w: u32) -> (r: u32)
    ensures
        r == ciw_imm(w),
{
    proof {
        lemma2_to64();
    }
    bits_of(w, 12, 11) * 16 + bits_of(w, 10, 7) * 64 + bits_of(w, 6, 6) * 4 + bits_of(w, 5, 5) * 8
}

pub fn cl_imm_of(w: u32) -> (r: u32)
    ensures
        r == cl_imm(w),
{
    proof {
        lemma2_to64();
    }
    bits_of(w, 12, 10) * 8 + bits_of(w, 6, 6) * 4 + bits_of(w, 5, 5) * 64
}

pub fn ci_imm_of(w: u32) -> (r: i32)
    ensures
        r as int == ci_imm(w),
{
    proof {
        lemma2_to64();
    }
    sign_extend(bits_of(w, 12, 12) * 32 + bits_of(w, 6, 2), 6)
}

pub fn ci16sp_imm_of(w: u32) -> (r: i32)
    ensures
        r as int == ci16sp_imm(w),
{
    proof {
        lemma2_to64();
    }
    let v = bits_of(w, 12, 12) * 512 + bits_of(w, 6, 6) * 16 + bits_of(w, 5, 5) * 64 + bits_of(w, 4, 3)
        * 128 + bits_of(w, 2, 2) * 32;
    sign_extend(v, 10)
}

pub fn clui_imm_of(w: u32) -> (r: i32)
    ensures
        r as int == clui_imm(w),
{
    proof {
        lemma2_to64();
    }
    sign_extend(bits_of(w, 12, 12) * 0x2_0000 + bits_of(w, 6, 2) * 4096, 18)
}

pub fn cj_imm_of(w: u32) -> (r: i32)
    ensures
        r as int == cj_imm(w),
{
    proof {
        lemma2_to64();
    }
    let v = bits_of(w, 12, 12) * 2048 + bits_of(w, 11, 11) * 16 + bits_of(w, 10, 9) * 256 + bits_of(
        w,
        8,
        8,
    ) * 1024 + bits_of(w, 7, 7) * 64 + bits_of(w, 6, 6) * 128 + bits_of(w, 5, 3) * 2 + bits_of(
        w,
        2,
        2,
    ) * 32;
    sign_extend(v, 12)
}

pub fn cb_imm_of(w: u32) -> (r: i32)
    ensures
        r as int == cb_imm(w),
{
    proof {
        lemma2_to64();
    }
    let v = bits_of(w, 12, 12) * 256 + bits_of(w, 11, 10) * 8 + bits_of(w, 6, 5) * 64 + bits_of(
        w,
        4,
        3,
    ) * 2 + bits_of(w, 2, 2) * 32;
    sign_extend(v, 9)
}

pub fn clwsp_imm_of(w: u32) -> (r: u32)
    ensures
        r == clwsp_imm(w),
{
    proof {
        lemma2_to64();
    }
    bits_of(w, 12, 12) * 32 + bits_of(w, 6, 4) * 4 + bits_of(w, 3, 2) * 64
}

pub fn cswsp_imm_of(w: u32) -> (r: u32)
    ensures
        r == cswsp_imm(w),
{
    proof {
        lemma2_to64();
    }
    bits_of(w, 12, 9) * 4 + bits_of(w, 8, 7) * 64
}

} // verus!
