//! General properties of the instruction semantics.
use crate::bits::wrap;
use crate::formats::i_imm;
use crate::hart::fetched;
use crate::memory::{in_bounds, read_u32};
use crate::semantics::step_outcome;
use vstd::arithmetic::div_mod::{lemma_fundamental_div_mod_converse, lemma_small_mod};
use crate::formats::{rd_of, rs1_of, rs2_of};
use crate::memory::write_u32;
use crate::rv32::Rv32;
use crate::rv32a::{LrW, Rv32a, ScW};
use crate::semantics::{
    execute, execute_c, execute_i, read_reg, redirects,
    shift_amount, sra, HartState, Outcome,
};
use vstd::arithmetic::power2::lemma2_to64;
use vstd::prelude::*;

verus! {

/// The state an instruction retires with, when it retires.
pub open spec fn retired_state(o: Outcome) -> HartState {
    o->Retired_0
}

/// The memory an instruction retires with, when it retires.
pub open spec fn retired_mem(o: Outcome) -> Seq<u8> {
    o->Retired_1
}

/// Writes to `x0` are discarded: whatever instruction retires from a
/// well-formed state, `x0` still reads zero afterwards and the register
/// file and CSR bank keep their sizes.
pub proof fn lemma_x0_stays_zero(s: HartState, m: Seq<u8>, op: Rv32)
    requires
        s.wf(),
        execute(s, m, op) is Retired,
    ensures
        retired_state(execute(s, m, op)).wf(),
{
    lemma2_to64();
    match op {
        Rv32::Rv32i(i) => lemma_x0_i(s, m, i),
        Rv32::Rv32c(i) => lemma_x0_c(s, m, i),
        _ => {},
    }
}

#[verifier::spinoff_prover]
#[verifier::rlimit(100)]
proof fn lemma_x0_i(s: HartState, m: Seq<u8>, i: crate::rv32i::Rv32i)
    requires
        s.wf(),
        execute_i(s, m, i) is Retired,
    ensures
        retired_state(execute_i(s, m, i)).wf(),
{
    lemma2_to64();
}

#[verifier::spinoff_prover]
#[verifier::rlimit(100)]
proof fn lemma_x0_c(s: HartState, m: Seq<u8>, i: crate::rv32c::Rv32c)
    requires
        s.wf(),
        execute_c(s, m, i) is Retired,
    ensures
        retired_state(execute_c(s, m, i)).wf(),
{
    lemma2_to64();
}

/// Every instruction that retires counts one more retired instruction, and
/// one that takes no jump or branch moves the pc to the instruction after
/// it: 4 bytes on for a 32-bit instruction, 2 for a compressed one.
pub proof fn lemma_sequential_pc(s: HartState, m: Seq<u8>, op: Rv32)
    requires
        s.inst_count < u64::MAX,
        execute(s, m, op) is Retired,
    ensures
        retired_state(execute(s, m, op)).inst_count == s.inst_count + 1,
        !redirects(s, op) ==> retired_state(execute(s, m, op)).pc == wrap(s.pc + op.len()),
{
    match op {
        Rv32::Rv32i(i) => lemma_sequential_i(s, m, i),
        Rv32::Rv32c(i) => lemma_sequential_c(s, m, i),
        _ => {},
    }
}

#[verifier::spinoff_prover]
#[verifier::rlimit(100)]
proof fn lemma_sequential_i(s: HartState, m: Seq<u8>, i: crate::rv32i::Rv32i)
    requires
        s.inst_count < u64::MAX,
        execute_i(s, m, i) is Retired,
    ensures
        retired_state(execute_i(s, m, i)).inst_count == s.inst_count + 1,
        !redirects(s, Rv32::Rv32i(i)) ==> retired_state(execute_i(s, m, i)).pc == wrap(s.pc + 4),
{
}

#[verifier::spinoff_prover]
#[verifier::rlimit(100)]
proof fn lemma_sequential_c(s: HartState, m: Seq<u8>, i: crate::rv32c::Rv32c)
    requires
        s.inst_count < u64::MAX,
        execute_c(s, m, i) is Retired,
    ensures
        retired_state(execute_c(s, m, i)).inst_count == s.inst_count + 1,
        !redirects(s, Rv32::Rv32c(i)) ==> retired_state(execute_c(s, m, i)).pc == wrap(s.pc + 2),
{
}

/// `SC.W` right after an `LR.W` of the same aligned address succeeds: it
/// stores `rs2`, writes 0 to `rd` and clears the reservation.
pub proof fn lemma_sc_after_lr(s: HartState, m: Seq<u8>, lr: LrW, sc: ScW)
    requires
        s.wf(),
        LrW::is_encoding(lr.0),
        ScW::is_encoding(sc.0),
        execute(s, m, Rv32::Rv32a(Rv32a::LrW(lr))) is Retired,
        read_reg(retired_state(execute(s, m, Rv32::Rv32a(Rv32a::LrW(lr)))).regs, rs1_of(sc.0))
            == read_reg(s.regs, rs1_of(lr.0)),
    ensures
        ({
            let s1 = retired_state(execute(s, m, Rv32::Rv32a(Rv32a::LrW(lr))));
            let m1 = retired_mem(execute(s, m, Rv32::Rv32a(Rv32a::LrW(lr))));
            let o = execute(s1, m1, Rv32::Rv32a(Rv32a::ScW(sc)));
            let addr = read_reg(s.regs, rs1_of(lr.0));
            &&& o is Retired
            &&& read_reg(retired_state(o).regs, rd_of(sc.0)) == 0
            &&& retired_mem(o) == write_u32(m1, addr as int, read_reg(s1.regs, rs2_of(sc.0)))
            &&& retired_state(o).amo_rsv is None
        }),
{
    lemma2_to64();
}

/// `SC.W` to an aligned address that is not reserved fails: it writes 1 to
/// `rd`, stores nothing and clears the reservation.
pub proof fn lemma_sc_without_reservation(s: HartState, m: Seq<u8>, sc: ScW)
    requires
        s.wf(),
        ScW::is_encoding(sc.0),
        rd_of(sc.0) != 0,
        read_reg(s.regs, rs1_of(sc.0)) % 4 == 0,
        s.amo_rsv != Some(read_reg(s.regs, rs1_of(sc.0))),
    ensures
        ({
            let o = execute(s, m, Rv32::Rv32a(Rv32a::ScW(sc)));
            &&& o is Retired
            &&& read_reg(retired_state(o).regs, rd_of(sc.0)) == 1
            &&& retired_mem(o) == m
            &&& retired_state(o).amo_rsv is None
        }),
{
    lemma2_to64();
}

/// Register shifts use only the low five bits of `rs2`: `SLL`, `SRL` and
/// `SRA` by `v` shift by `v & 0x1f`.
pub proof fn lemma_shift_masking(a: u32, v: u32)
    ensures
        a << shift_amount(v) == a << (v & 0x1f),
        a >> shift_amount(v) == a >> (v & 0x1f),
        sra(a, shift_amount(v)) == sra(a, v & 0x1f),
{
    assert(v % 32 == v & 0x1f) by (bit_vector);
}

/// Over a whole step: a step that retires counts one more instruction, and
/// one whose instruction takes no jump or branch moves the pc 4 bytes on for
/// a 32-bit instruction and 2 for a compressed one.
pub proof fn lemma_step_sequential_pc(s: HartState, m: Seq<u8>)
    requires
        s.inst_count < u64::MAX,
        step_outcome(s, m) is Retired,
    ensures
        retired_state(step_outcome(s, m)).inst_count == s.inst_count + 1,
        !redirects(s, fetched(s, m)) ==> retired_state(step_outcome(s, m)).pc == wrap(
            s.pc + fetched(s, m).len(),
        ),
{
    reveal(step_outcome);
    lemma_sequential_pc(s, m, fetched(s, m));
}

/// Over a whole step: `SC.W` at a 2-byte-aligned pc, to an aligned address in
/// memory that is reserved, stores `rs2`, writes 0 to `rd` and clears the
/// reservation; to one that is not reserved it writes 1 to `rd`, stores
/// nothing and clears the reservation.
pub proof fn lemma_step_sc(s: HartState, m: Seq<u8>, sc: ScW)
    requires
        s.wf(),
        s.pc % 2 == 0,
        in_bounds(m, s.pc, 4),
        Rv32::decoding(read_u32(m, s.pc as int)) == Some(Rv32::Rv32a(Rv32a::ScW(sc))),
        read_reg(s.regs, rs1_of(sc.0)) % 4 == 0,
        in_bounds(m, read_reg(s.regs, rs1_of(sc.0)), 4),
        rd_of(sc.0) != 0,
    ensures
        ({
            let a = read_reg(s.regs, rs1_of(sc.0));
            let o = step_outcome(s, m);
            &&& o is Retired
            &&& retired_state(o).amo_rsv is None
            &&& s.amo_rsv == Some(a) ==> {
                &&& read_reg(retired_state(o).regs, rd_of(sc.0)) == 0
                &&& retired_mem(o) == write_u32(m, a as int, read_reg(s.regs, rs2_of(sc.0)))
            }
            &&& s.amo_rsv != Some(a) ==> {
                &&& read_reg(retired_state(o).regs, rd_of(sc.0)) == 1
                &&& retired_mem(o) == m
            }
        }),
{
    reveal(step_outcome);
    lemma2_to64();
}

/// Over two steps: an `LR.W` that retires, followed by an `SC.W` at the next
/// pc to the same address, makes the `SC.W` succeed: it stores `rs2`, writes 0
/// to `rd` and clears the reservation.
pub proof fn lemma_step_lr_then_sc(s: HartState, m: Seq<u8>, lr: LrW, sc: ScW)
    requires
        s.wf(),
        Rv32::decoding(read_u32(m, s.pc as int)) == Some(Rv32::Rv32a(Rv32a::LrW(lr))),
        step_outcome(s, m) is Retired,
        ({
            let s1 = retired_state(step_outcome(s, m));
            let m1 = retired_mem(step_outcome(s, m));
            &&& s1.pc % 2 == 0
            &&& in_bounds(m1, s1.pc, 4)
            &&& Rv32::decoding(read_u32(m1, s1.pc as int)) == Some(Rv32::Rv32a(Rv32a::ScW(sc)))
            &&& read_reg(s1.regs, rs1_of(sc.0)) == read_reg(s.regs, rs1_of(lr.0))
        }),
    ensures
        ({
            let s1 = retired_state(step_outcome(s, m));
            let m1 = retired_mem(step_outcome(s, m));
            let o = step_outcome(s1, m1);
            &&& o is Retired
            &&& read_reg(retired_state(o).regs, rd_of(sc.0)) == 0
            &&& retired_mem(o) == write_u32(
                m1,
                read_reg(s.regs, rs1_of(lr.0)) as int,
                read_reg(s1.regs, rs2_of(sc.0)),
            )
            &&& retired_state(o).amo_rsv is None
        }),
{
    reveal(step_outcome);
    crate::rv32::lemma_decode_round_trip(Rv32::Rv32a(Rv32a::LrW(lr)));
    crate::rv32::lemma_decode_round_trip(Rv32::Rv32a(Rv32a::ScW(sc)));
    lemma_sc_after_lr(s, m, lr, sc);
}

/// I-type immediates read back what was encoded: an immediate `k` in
/// `-2048..=2047` stored as 12 bits in `w[31:20]`, whatever the low bits,
/// decodes to `k`.
pub proof fn lemma_i_imm_round_trip(k: int, low: u32)
    requires
        -2048 <= k <= 2047,
        low < 0x10_0000,
    ensures
        i_imm(((if k < 0 { k + 4096 } else { k }) * 0x10_0000 + low) as u32) == k,
{
    lemma2_to64();
    let a: int = if k < 0 { k + 4096 } else { k };
    let x: int = a * 0x10_0000 + low;
    let w = x as u32;
    assert(w as int == x);
    lemma_fundamental_div_mod_converse(x, 0x10_0000, a, low as int);
    lemma_small_mod(a as nat, 4096);
}

} // verus!
