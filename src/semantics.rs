//! What one instruction does to the hart and to memory, stated over the
//! hart's abstract state.
use crate::arith::{
    div_spec, divu_spec, mul_spec, mulh_spec, mulhsu_spec, mulhu_spec, rem_spec, remu_spec,
};
use crate::bits::{field, sext, signed, wrap};
use crate::error::{HartError, MemoryAccess, MemoryError};
use crate::formats::{
    b_imm, cb_imm, ci16sp_imm, ci_imm, cj_imm, cl_imm, clui_imm, clwsp_imm, creg_of, cshamt,
    cswsp_imm, ciw_imm, i_imm, j_imm, rd_of, rs1_of, rs2_of, s_imm, u_imm,
};
use crate::memory::{in_bounds, out_of_bounds, read_u16, read_u32, write_u16, write_u32};
use crate::rv32::Rv32;
use crate::rv32a::Rv32a;
use crate::rv32c::Rv32c;
use crate::rv32i::Rv32i;
use crate::rv32m::Rv32m;
use crate::rv32s::Rv32s;
use vstd::prelude::*;

verus! {

/// The architectural state of a hart.
pub struct HartState {
    /// The 32 general registers; `regs[0]` reads as zero.
    pub regs: Seq<u32>,
    /// The 4096 control and status registers.
    pub csrs: Seq<u32>,
    pub pc: u32,
    pub inst_count: u64,
    /// The address reserved by the last `LR.W`, if any.
    pub amo_rsv: Option<u32>,
}

impl HartState {
    /// The register file has its 32 slots with `x0` zero, and the CSR bank
    /// its 4096.
    pub open spec fn wf(self) -> bool {
        &&& self.regs.len() == 32
        &&& self.regs[0] == 0
        &&& self.csrs.len() == 4096
    }
}

/// How one instruction ends.
pub enum Outcome {
    /// It retired, leaving this hart state and memory.
    Retired(HartState, Seq<u8>),
    /// It failed in the hart; nothing changed.
    HartFault(HartError),
    /// It failed on a memory access; nothing changed.
    MemoryFault(MemoryError),
    /// `ECALL`: the kernel services it.
    Syscall,
    /// `EBREAK`: the kernel services it.
    Breakpoint,
}

/// Register `r`, with `x0` reading as zero.
pub open spec fn read_reg(regs: Seq<u32>, r: nat) -> u32 {
    if r == 0 {
        0
    } else {
        regs[r as int]
    }
}

/// The register file after writing `v` to `r`; writes to `x0` are dropped.
pub open spec fn write_reg(regs: Seq<u32>, r: nat, v: u32) -> Seq<u32> {
    if r == 0 {
        regs
    } else {
        regs.update(r as int, v)
    }
}

/// The address of the instruction after `op`.
pub open spec fn next_pc(s: HartState, op: Rv32) -> u32 {
    wrap(s.pc + op.len())
}

/// Retirement with registers `regs`, reservation `rsv`, memory `m`, and the
/// next instruction at `next`.
pub open spec fn retire_with(
    s: HartState,
    regs: Seq<u32>,
    rsv: Option<u32>,
    m: Seq<u8>,
    next: u32,
) -> Outcome {
    Outcome::Retired(
        HartState {
            regs,
            csrs: s.csrs,
            pc: next,
            inst_count: (s.inst_count + 1) as u64,
            amo_rsv: rsv,
        },
        m,
    )
}

pub open spec fn retire(s: HartState, regs: Seq<u32>, m: Seq<u8>, next: u32) -> Outcome {
    retire_with(s, regs, s.amo_rsv, m, next)
}

/// Writes `v` to `rd` and falls through.
pub open spec fn write_rd(s: HartState, m: Seq<u8>, op: Rv32, rd: nat, v: u32) -> Outcome {
    retire(s, write_reg(s.regs, rd, v), m, next_pc(s, op))
}

/// Links the fall-through address into `rd` and jumps to `target`.
pub open spec fn jump(s: HartState, m: Seq<u8>, op: Rv32, rd: nat, target: u32) -> Outcome {
    retire(s, write_reg(s.regs, rd, next_pc(s, op)), m, target)
}

/// Branches by `offset` when `taken`, else falls through.
pub open spec fn branch(s: HartState, m: Seq<u8>, op: Rv32, taken: bool, offset: int) -> Outcome {
    retire(
        s,
        s.regs,
        m,
        if taken {
            wrap(s.pc + offset)
        } else {
            next_pc(s, op)
        },
    )
}

/// Loads `v`, the `n`-byte value at `addr`, into `rd`.
pub open spec fn load(s: HartState, m: Seq<u8>, op: Rv32, rd: nat, addr: u32, n: u32, v: u32) -> Outcome {
    if in_bounds(m, addr, n as nat) {
        write_rd(s, m, op, rd, v)
    } else {
        Outcome::MemoryFault(out_of_bounds(addr, n))
    }
}

/// Stores `n` bytes at `addr`, leaving memory `m2`.
pub open spec fn store(s: HartState, m: Seq<u8>, op: Rv32, addr: u32, n: u32, m2: Seq<u8>) -> Outcome {
    if in_bounds(m, addr, n as nat) {
        retire(s, s.regs, m2, next_pc(s, op))
    } else {
        Outcome::MemoryFault(out_of_bounds(addr, n))
    }
}

/// 1 when `c` holds, else 0.
pub open spec fn flag(c: bool) -> u32 {
    if c {
        1
    } else {
        0
    }
}

/// The shift amount of a register-register shift: the low five bits.
pub open spec fn shift_amount(v: u32) -> u32 {
    v % 32
}

/// Arithmetic right shift.
pub open spec fn sra(v: u32, sh: u32) -> u32 {
    ((v as i32) >> sh) as u32
}

/// `t` with its lowest bit cleared.
pub open spec fn clear_low_bit(t: u32) -> u32 {
    (t - t % 2) as u32
}

pub open spec fn execute_i(s: HartState, m: Seq<u8>, i: Rv32i) -> Outcome {
    let op = Rv32::Rv32i(i);
    let w = i.raw();
    let x1 = read_reg(s.regs, rs1_of(w));
    let x2 = read_reg(s.regs, rs2_of(w));
    let rd = rd_of(w);
    let la = wrap(x1 + i_imm(w));
    let sa = wrap(x1 + s_imm(w));
    let shamt = field(w, 24, 20) as u32;
    match i {
        Rv32i::Lui(_) => write_rd(s, m, op, rd, wrap(u_imm(w))),
        Rv32i::Auipc(_) => write_rd(s, m, op, rd, wrap(s.pc + u_imm(w))),
        Rv32i::Jal(_) => jump(s, m, op, rd, wrap(s.pc + j_imm(w))),
        Rv32i::Jalr(_) => jump(s, m, op, rd, clear_low_bit(wrap(x1 + i_imm(w)))),
        Rv32i::Beq(_) => branch(s, m, op, x1 == x2, b_imm(w)),
        Rv32i::Bne(_) => branch(s, m, op, x1 != x2, b_imm(w)),
        Rv32i::Blt(_) => branch(s, m, op, signed(x1) < signed(x2), b_imm(w)),
        Rv32i::Bge(_) => branch(s, m, op, signed(x1) >= signed(x2), b_imm(w)),
        Rv32i::Bltu(_) => branch(s, m, op, x1 < x2, b_imm(w)),
        Rv32i::Bgeu(_) => branch(s, m, op, x1 >= x2, b_imm(w)),
        Rv32i::Lb(_) => load(s, m, op, rd, la, 1, wrap(sext(m[la as int] as nat, 8))),
        Rv32i::Lh(_) => load(s, m, op, rd, la, 2, wrap(sext(read_u16(m, la as int) as nat, 16))),
        Rv32i::Lw(_) => load(s, m, op, rd, la, 4, read_u32(m, la as int)),
        Rv32i::Lbu(_) => load(s, m, op, rd, la, 1, m[la as int] as u32),
        Rv32i::Lhu(_) => load(s, m, op, rd, la, 2, read_u16(m, la as int) as u32),
        Rv32i::Sb(_) => store(s, m, op, sa, 1, m.update(sa as int, (x2 % 256) as u8)),
        Rv32i::Sh(_) => store(s, m, op, sa, 2, write_u16(m, sa as int, (x2 % 0x1_0000) as u16)),
        Rv32i::Sw(_) => store(s, m, op, sa, 4, write_u32(m, sa as int, x2)),
        Rv32i::Addi(_) => write_rd(s, m, op, rd, wrap(x1 + i_imm(w))),
        Rv32i::Slti(_) => write_rd(s, m, op, rd, flag(signed(x1) < i_imm(w))),
        Rv32i::Sltiu(_) => write_rd(s, m, op, rd, flag(x1 < wrap(i_imm(w)))),
        Rv32i::Xori(_) => write_rd(s, m, op, rd, x1 ^ wrap(i_imm(w))),
        Rv32i::Ori(_) => write_rd(s, m, op, rd, x1 | wrap(i_imm(w))),
        Rv32i::Andi(_) => write_rd(s, m, op, rd, x1 & wrap(i_imm(w))),
        Rv32i::Slli(_) => write_rd(s, m, op, rd, x1 << shamt),
        Rv32i::Srli(_) => write_rd(s, m, op, rd, x1 >> shamt),
        Rv32i::Srai(_) => write_rd(s, m, op, rd, sra(x1, shamt)),
        Rv32i::Add(_) => write_rd(s, m, op, rd, wrap(x1 + x2)),
        Rv32i::Sub(_) => write_rd(s, m, op, rd, wrap(x1 - x2)),
        Rv32i::Sll(_) => write_rd(s, m, op, rd, x1 << shift_amount(x2)),
        Rv32i::Slt(_) => write_rd(s, m, op, rd, flag(signed(x1) < signed(x2))),
        Rv32i::Sltu(_) => write_rd(s, m, op, rd, flag(x1 < x2)),
        Rv32i::Xor(_) => write_rd(s, m, op, rd, x1 ^ x2),
        Rv32i::Srl(_) => write_rd(s, m, op, rd, x1 >> shift_amount(x2)),
        Rv32i::Sra(_) => write_rd(s, m, op, rd, sra(x1, shift_amount(x2))),
        Rv32i::Or(_) => write_rd(s, m, op, rd, x1 | x2),
        Rv32i::And(_) => write_rd(s, m, op, rd, x1 & x2),
        Rv32i::Fence(_) => retire(s, s.regs, m, next_pc(s, op)),
        Rv32i::FenceI(_) => retire(s, s.regs, m, next_pc(s, op)),
        Rv32i::Ecall(_) => Outcome::Syscall,
        Rv32i::Ebreak(_) => Outcome::Breakpoint,
        Rv32i::Unimp(_) => Outcome::HartFault(HartError::IllegalInstruction { addr: s.pc, op }),
    }
}

pub open spec fn execute_m(s: HartState, m: Seq<u8>, i: Rv32m) -> Outcome {
    let op = Rv32::Rv32m(i);
    let w = i.raw();
    let x1 = read_reg(s.regs, rs1_of(w));
    let x2 = read_reg(s.regs, rs2_of(w));
    let v = match i {
        Rv32m::Mul(_) => mul_spec(x1, x2),
        Rv32m::Mulh(_) => mulh_spec(x1, x2),
        Rv32m::Mulhsu(_) => mulhsu_spec(x1, x2),
        Rv32m::Mulhu(_) => mulhu_spec(x1, x2),
        Rv32m::Div(_) => div_spec(x1, x2),
        Rv32m::Divu(_) => divu_spec(x1, x2),
        Rv32m::Rem(_) => rem_spec(x1, x2),
        Rv32m::Remu(_) => remu_spec(x1, x2),
    };
    write_rd(s, m, op, rd_of(w), v)
}

/// The value an atomic read-modify-write stores, from the prev memory word
/// and `rs2`.
pub open spec fn amo_value(i: Rv32a, prev: u32, v: u32) -> u32 {
    match i {
        Rv32a::AmoswapW(_) => v,
        Rv32a::AmoaddW(_) => wrap(prev + v),
        Rv32a::AmoxorW(_) => prev ^ v,
        Rv32a::AmoandW(_) => prev & v,
        Rv32a::AmoorW(_) => prev | v,
        Rv32a::AmominW(_) => if signed(prev) <= signed(v) {
            prev
        } else {
            v
        },
        Rv32a::AmomaxW(_) => if signed(prev) >= signed(v) {
            prev
        } else {
            v
        },
        Rv32a::AmominuW(_) => if prev <= v {
            prev
        } else {
            v
        },
        Rv32a::AmomaxuW(_) => if prev >= v {
            prev
        } else {
            v
        },
        _ => v,
    }
}

pub open spec fn unaligned(access: MemoryAccess, addr: u32) -> MemoryError {
    MemoryError::UnalignedMemoryAccess { access, addr, required: 4 }
}

pub open spec fn execute_a(s: HartState, m: Seq<u8>, i: Rv32a) -> Outcome {
    let op = Rv32::Rv32a(i);
    let w = i.raw();
    let addr = read_reg(s.regs, rs1_of(w));
    let x2 = read_reg(s.regs, rs2_of(w));
    let rd = rd_of(w);
    match i {
        Rv32a::LrW(_) => if addr % 4 != 0 {
            Outcome::MemoryFault(unaligned(MemoryAccess::Load, addr))
        } else if !in_bounds(m, addr, 4) {
            Outcome::MemoryFault(out_of_bounds(addr, 4))
        } else {
            retire_with(
                s,
                write_reg(s.regs, rd, read_u32(m, addr as int)),
                Some(addr),
                m,
                next_pc(s, op),
            )
        },
        Rv32a::ScW(_) => if addr % 4 != 0 {
            Outcome::MemoryFault(unaligned(MemoryAccess::Store, addr))
        } else if s.amo_rsv == Some(addr) {
            if !in_bounds(m, addr, 4) {
                Outcome::MemoryFault(out_of_bounds(addr, 4))
            } else {
                retire_with(
                    s,
                    write_reg(s.regs, rd, 0),
                    None,
                    write_u32(m, addr as int, x2),
                    next_pc(s, op),
                )
            }
        } else {
            retire_with(s, write_reg(s.regs, rd, 1), None, m, next_pc(s, op))
        },
        _ => if addr % 4 != 0 {
            Outcome::MemoryFault(unaligned(MemoryAccess::Swap, addr))
        } else if !in_bounds(m, addr, 4) {
            Outcome::MemoryFault(out_of_bounds(addr, 4))
        } else {
            let prev = read_u32(m, addr as int);
            retire(
                s,
                write_reg(s.regs, rd, prev),
                write_u32(m, addr as int, amo_value(i, prev, x2)),
                next_pc(s, op),
            )
        },
    }
}

/// Reads CSR `c` into `rd` and replaces it with `new`.
pub open spec fn csr_write(s: HartState, m: Seq<u8>, op: Rv32, rd: nat, c: nat, new: u32) -> Outcome {
    Outcome::Retired(
        HartState {
            regs: write_reg(s.regs, rd, s.csrs[c as int]),
            csrs: s.csrs.update(c as int, new),
            pc: next_pc(s, op),
            inst_count: (s.inst_count + 1) as u64,
            amo_rsv: s.amo_rsv,
        },
        m,
    )
}

pub open spec fn execute_s(s: HartState, m: Seq<u8>, i: Rv32s) -> Outcome {
    let op = Rv32::Rv32s(i);
    let w = i.raw();
    let x1 = read_reg(s.regs, rs1_of(w));
    let rd = rd_of(w);
    let c = field(w, 31, 20);
    let prev = s.csrs[c as int];
    let zimm = field(w, 19, 15) as u32;
    match i {
        Rv32s::Mret(_) => retire(s, s.regs, m, next_pc(s, op)),
        Rv32s::Csrrw(_) => csr_write(s, m, op, rd, c, x1),
        Rv32s::Csrrs(_) => csr_write(s, m, op, rd, c, prev | x1),
        Rv32s::Csrrc(_) => csr_write(s, m, op, rd, c, prev & !x1),
        Rv32s::Csrrwi(_) => csr_write(s, m, op, rd, c, zimm),
        Rv32s::Csrrsi(_) => csr_write(s, m, op, rd, c, prev | zimm),
        Rv32s::Csrrci(_) => csr_write(s, m, op, rd, c, prev & !zimm),
        _ => Outcome::HartFault(HartError::UnimplementedInstruction { addr: s.pc, op }),
    }
}

pub open spec fn execute_c(s: HartState, m: Seq<u8>, i: Rv32c) -> Outcome {
    let op = Rv32::Rv32c(i);
    let w = i.raw();
    let sp = read_reg(s.regs, 2);
    let r = rd_of(w);
    let xr = read_reg(s.regs, r);
    let x2 = read_reg(s.regs, field(w, 6, 2));
    let rp = creg_of(w, 9);
    let xp = read_reg(s.regs, rp);
    let xq = read_reg(s.regs, creg_of(w, 4));
    let sh = cshamt(w) as u32;
    match i {
        Rv32c::CAddi4spn(_) => write_rd(s, m, op, creg_of(w, 4), wrap(sp + ciw_imm(w))),
        Rv32c::CLw(_) => {
            let a = wrap(xp + cl_imm(w));
            load(s, m, op, creg_of(w, 4), a, 4, read_u32(m, a as int))
        },
        Rv32c::CSw(_) => {
            let a = wrap(xp + cl_imm(w));
            store(s, m, op, a, 4, write_u32(m, a as int, xq))
        },
        Rv32c::CAddi(_) => write_rd(s, m, op, r, wrap(xr + ci_imm(w))),
        Rv32c::CAddi16sp(_) => write_rd(s, m, op, r, wrap(sp + ci16sp_imm(w))),
        Rv32c::CLwsp(_) => {
            let a = wrap(sp + clwsp_imm(w));
            load(s, m, op, r, a, 4, read_u32(m, a as int))
        },
        Rv32c::CSwsp(_) => {
            let a = wrap(sp + cswsp_imm(w));
            store(s, m, op, a, 4, write_u32(m, a as int, x2))
        },
        Rv32c::CNop(_) => retire(s, s.regs, m, next_pc(s, op)),
        Rv32c::CJal(_) => jump(s, m, op, 1, wrap(s.pc + cj_imm(w))),
        Rv32c::CLi(_) => write_rd(s, m, op, r, wrap(ci_imm(w))),
        Rv32c::CLui(_) => write_rd(s, m, op, r, wrap(clui_imm(w))),
        Rv32c::CSrli(_) => write_rd(s, m, op, rp, xp >> sh),
        Rv32c::CSrai(_) => write_rd(s, m, op, rp, sra(xp, sh)),
        Rv32c::CAndi(_) => write_rd(s, m, op, rp, xp & wrap(ci_imm(w))),
        Rv32c::CSub(_) => write_rd(s, m, op, rp, wrap(xp - xq)),
        Rv32c::CXor(_) => write_rd(s, m, op, rp, xp ^ xq),
        Rv32c::COr(_) => write_rd(s, m, op, rp, xp | xq),
        Rv32c::CAnd(_) => write_rd(s, m, op, rp, xp & xq),
        Rv32c::CJ(_) => retire(s, s.regs, m, wrap(s.pc + cj_imm(w))),
        Rv32c::CBeqz(_) => branch(s, m, op, xp == 0, cb_imm(w)),
        Rv32c::CBnez(_) => branch(s, m, op, xp != 0, cb_imm(w)),
        Rv32c::CSlli(_) => write_rd(s, m, op, r, xr << sh),
        Rv32c::CJr(_) => retire(s, s.regs, m, xr),
        Rv32c::CMv(_) => write_rd(s, m, op, r, x2),
        Rv32c::CEbreak(_) => Outcome::Breakpoint,
        Rv32c::CJalr(_) => jump(s, m, op, 1, xr),
        Rv32c::CAdd(_) => write_rd(s, m, op, r, wrap(xr + x2)),
        Rv32c::CUnimp(_) => Outcome::HartFault(HartError::IllegalInstruction { addr: s.pc, op }),
    }
}

/// What executing `op` at `s.pc` does. Floating-point instructions are
/// decoded but not modelled.
pub open spec fn execute(s: HartState, m: Seq<u8>, op: Rv32) -> Outcome {
    match op {
        Rv32::Rv32i(i) => execute_i(s, m, i),
        Rv32::Rv32m(i) => execute_m(s, m, i),
        Rv32::Rv32a(i) => execute_a(s, m, i),
        Rv32::Rv32s(i) => execute_s(s, m, i),
        Rv32::Rv32c(i) => execute_c(s, m, i),
        Rv32::Rv32d(_) => Outcome::HartFault(HartError::UnimplementedInstruction { addr: s.pc, op }),
    }
}

/// One step: fetch the word at `pc`, which must be 2-byte aligned, decode
/// it, execute it.
#[verifier::opaque]
pub open spec fn step_outcome(s: HartState, m: Seq<u8>) -> Outcome {
    if s.pc % 2 != 0 {
        Outcome::MemoryFault(
            MemoryError::UnalignedMemoryAccess { access: MemoryAccess::Load, addr: s.pc, required: 2 },
        )
    } else if !in_bounds(m, s.pc, 4) {
        Outcome::MemoryFault(out_of_bounds(s.pc, 4))
    } else {
        let w = read_u32(m, s.pc as int);
        match Rv32::decoding(w) {
            None => Outcome::HartFault(HartError::InvalidInstruction { addr: s.pc, inst: w }),
            Some(op) => execute(s, m, op),
        }
    }
}

/// `op` takes a jump, or a branch whose condition holds in `s`.
pub open spec fn redirects(s: HartState, op: Rv32) -> bool {
    let w = op.raw();
    let x1 = read_reg(s.regs, rs1_of(w));
    let x2 = read_reg(s.regs, rs2_of(w));
    let xp = read_reg(s.regs, creg_of(w, 9));
    match op {
        Rv32::Rv32i(i) => match i {
            Rv32i::Jal(_) | Rv32i::Jalr(_) => true,
            Rv32i::Beq(_) => x1 == x2,
            Rv32i::Bne(_) => x1 != x2,
            Rv32i::Blt(_) => signed(x1) < signed(x2),
            Rv32i::Bge(_) => signed(x1) >= signed(x2),
            Rv32i::Bltu(_) => x1 < x2,
            Rv32i::Bgeu(_) => x1 >= x2,
            _ => false,
        },
        Rv32::Rv32c(c) => match c {
            Rv32c::CJal(_) | Rv32c::CJ(_) | Rv32c::CJr(_) | Rv32c::CJalr(_) => true,
            Rv32c::CBeqz(_) => xp == 0,
            Rv32c::CBnez(_) => xp != 0,
            _ => false,
        },
        _ => false,
    }
}

} // verus!
