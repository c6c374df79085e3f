//! The interpreter hart: register file, CSR bank, program counter,
//! retired-instruction counter and LR/SC reservation, advanced one
//! instruction at a time.
use crate::arith::{div, divu, mul_low, mulh, mulhsu, mulhu, rem, remu};
use crate::bits::{sign_extend, to_signed, wrap, wrap_signed};
use crate::error::{HartError, MachineError, MemoryAccess, MemoryError};
use crate::formats::reg_at;
use crate::machine::{Kernel, StepResult};
use crate::memory::{read_u32, Memory};
use crate::reg::Reg;
use crate::rv32::Rv32;
use crate::rv32a::Rv32a;
use crate::rv32c::Rv32c;
use crate::rv32i::Rv32i;
use crate::rv32m::Rv32m;
use crate::rv32s::Rv32s;
use crate::semantics::{
    amo_value, execute_a, execute_c, execute_i, execute_m, execute_s, read_reg,
    step_outcome, write_reg, HartState, Outcome,
};
use vstd::arithmetic::power2::lemma2_to64;
use vstd::prelude::*;

verus! {

/// A single RV32 hardware thread.
pub struct Hart32 {
    regs: Vec<u32>,
    csrs: Vec<u32>,
    pub pc: u32,
    pub inst_count: u64,
    /// The LR/SC reservation: the address reserved by the last `LR.W`.
    pub amo_rsv: Option<u32>,
}

impl View for Hart32 {
    type V = HartState;

    closed spec fn view(&self) -> HartState {
        HartState {
            regs: self.regs@,
            csrs: self.csrs@,
            pc: self.pc,
            inst_count: self.inst_count,
            amo_rsv: self.amo_rsv,
        }
    }
}

/// `a + b` modulo 2^32.
fn add32(a: u32, b: u32) -> (r: u32)
    ensures
        r == wrap(a + b),
{
    a.wrapping_add(b)
}

/// `a + b` modulo 2^32, for a signed `b`.
fn add_signed(a: u32, b: i32) -> (r: u32)
    ensures
        r == wrap(a + b),
{
    a.wrapping_add_signed(b)
}

/// `a - b` modulo 2^32.
fn sub32(a: u32, b: u32) -> (r: u32)
    ensures
        r == wrap(a - b),
{
    a.wrapping_sub(b)
}

/// Arithmetic right shift.
fn shift_right_arith(v: u32, sh: u32) -> (r: u32)
    requires
        sh < 32,
    ensures
        r == crate::semantics::sra(v, sh),
{
    ((v as i32) >> sh) as u32
}

fn zeros(n: usize) -> (v: Vec<u32>)
    ensures
        v@ == Seq::new(n as nat, |i: int| 0u32),
{
    let mut v: Vec<u32> = Vec::new();
    let mut i: usize = 0;
    while i < n
        invariant
            i <= n,
            v@ == Seq::new(i as nat, |j: int| 0u32),
        decreases n - i,
    {
        v.push(0);
        i = i + 1;
        assert(v@ =~= Seq::new(i as nat, |j: int| 0u32));
    }
    v
}

/// How a subset executor's result matches the instruction's outcome: on
/// retirement it returns the next pc and has done everything but move the
/// pc and count the instruction; on a fault nothing changed.
pub open spec fn executed<E>(
    s: HartState,
    m: Seq<u8>,
    s2: HartState,
    m2: Seq<u8>,
    o: Outcome,
    r: Result<u32, MachineError<E>>,
) -> bool {
    match o {
        Outcome::Retired(t, tm) => {
            &&& r == Ok::<u32, MachineError<E>>(t.pc)
            &&& m2 == tm
            &&& s2 == HartState { pc: s.pc, inst_count: s.inst_count, ..t }
        },
        Outcome::HartFault(e) => {
            &&& r == Err::<u32, MachineError<E>>(MachineError::Hart(e))
            &&& s2 == s
            &&& m2 == m
        },
        Outcome::MemoryFault(e) => {
            &&& r == Err::<u32, MachineError<E>>(MachineError::Memory(e))
            &&& s2 == s
            &&& m2 == m
        },
        _ => false,
    }
}

/// The instruction a step at `s` fetches, when the fetch and decode succeed.
pub open spec fn fetched(s: HartState, m: Seq<u8>) -> Rv32 {
    Rv32::decoding(read_u32(m, s.pc as int))->Some_0
}

impl Hart32 {
    #[verifier::type_invariant]
    spec fn inv(self) -> bool {
        &&& self.regs@.len() == 32
        &&& self.regs@[0] == 0
        &&& self.csrs@.len() == 4096
    }

    /// A hart with every register, CSR, the pc and the counter zero, and no
    /// reservation.
    pub fn new() -> (h: Hart32)
        ensures
            h@ == (HartState {
                regs: Seq::new(32, |i: int| 0u32),
                csrs: Seq::new(4096, |i: int| 0u32),
                pc: 0,
                inst_count: 0,
                amo_rsv: None,
            }),
    {
        Hart32 { regs: zeros(32), csrs: zeros(4096), pc: 0, inst_count: 0, amo_rsv: None }
    }

    /// The number of instructions retired so far.
    pub fn retired(&self) -> (r: u64)
        ensures
            r == self@.inst_count,
            self@.wf(),
    {
        proof {
            use_type_invariant(self);
        }
        self.inst_count
    }

    /// The program counter.
    pub fn get_pc(&self) -> (r: u32)
        ensures
            r == self@.pc,
    {
        self.pc
    }

    /// Moves the program counter to `pc`.
    pub fn set_pc(&mut self, pc: u32)
        ensures
            final(self)@ == (HartState { pc, ..old(self)@ }),
            final(self)@.wf(),
    {
        proof {
            use_type_invariant(&*self);
        }
        self.pc = pc;
    }

    /// The address reserved by the last `LR.W`, if any.
    pub fn reservation(&self) -> (r: Option<u32>)
        ensures
            r == self@.amo_rsv,
    {
        self.amo_rsv
    }

    /// Replaces the reservation.
    pub fn set_reservation(&mut self, rsv: Option<u32>)
        ensures
            final(self)@ == (HartState { amo_rsv: rsv, ..old(self)@ }),
            final(self)@.wf(),
    {
        proof {
            use_type_invariant(&*self);
        }
        self.amo_rsv = rsv;
    }

    /// The value of register `r`; `x0` always reads zero.
    pub fn get_reg(&self, r: Reg) -> (v: u32)
        ensures
            v == read_reg(self@.regs, r.id()),
            self@.wf(),
    {
        proof {
            use_type_invariant(self);
        }
        let i = r.index();
        if i == 0 {
            0
        } else {
            self.regs[i]
        }
    }

    /// Writes `val` to register `r`; a write to `x0` is dropped.
    pub fn set_reg(&mut self, r: Reg, val: u32)
        ensures
            final(self)@ == (HartState { regs: write_reg(old(self)@.regs, r.id(), val), ..old(self)@ }),
            final(self)@.wf(),
    {
        proof {
            use_type_invariant(&*self);
        }
        let i = r.index();
        if i != 0 {
            self.regs[i] = val;
        }
    }

    /// The 32 registers, `x0` first.
    pub fn regs(&self) -> (r: Vec<u32>)
        ensures
            r@ == self@.regs,
    {
        proof {
            use_type_invariant(self);
            assert(self@.regs.subrange(0, 32) =~= self@.regs);
        }
        self.regs_range(Reg::Zero, Reg::T6)
    }

    /// The registers `start` through `end`, in order.
    pub fn regs_range(&self, start: Reg, end: Reg) -> (r: Vec<u32>)
        ensures
            start.id() <= end.id() ==> r@ == self@.regs.subrange(start.id() as int, (end.id() + 1) as int),
            start.id() > end.id() ==> r@.len() == 0,
    {
        proof {
            use_type_invariant(self);
        }
        let mut out: Vec<u32> = Vec::new();
        let first = start.index();
        let last = end.index();
        if first > last {
            return out;
        }
        let mut i = first;
        while i <= last
            invariant
                first <= i <= last + 1,
                last < 32,
                self.regs@.len() == 32,
                out@ == self.regs@.subrange(first as int, i as int),
            decreases last + 1 - i,
        {
            out.push(self.regs[i]);
            i = i + 1;
            assert(out@ =~= self.regs@.subrange(first as int, i as int));
        }
        out
    }

    /// The control and status register `csr`.
    pub fn get_csr(&self, csr: u32) -> (v: u32)
        requires
            csr < 4096,
        ensures
            v == self@.csrs[csr as int],
    {
        proof {
            use_type_invariant(self);
        }
        self.csrs[csr as usize]
    }

    fn set_csr(&mut self, csr: u32, v: u32)
        requires
            csr < 4096,
        ensures
            final(self)@ == (HartState {
                csrs: old(self)@.csrs.update(csr as int, v),
                ..old(self)@
            }),
    {
        proof {
            use_type_invariant(&*self);
        }
        self.csrs[csr as usize] = v;
    }

    /// Reads CSR `csr` into `rd`, then replaces it with `new`.
    fn csr_swap(&mut self, rd: Reg, csr: u32, new: u32)
        requires
            csr < 4096,
        ensures
            final(self)@ == (HartState {
                regs: write_reg(old(self)@.regs, rd.id(), old(self)@.csrs[csr as int]),
                csrs: old(self)@.csrs.update(csr as int, new),
                ..old(self)@
            }),
    {
        let prev = self.get_csr(csr);
        self.set_reg(rd, prev);
        self.set_csr(csr, new);
    }

    /// Executes a base-integer instruction other than the two traps.
    #[verifier::spinoff_prover]
    #[verifier::rlimit(100)]
    fn exec_i<E>(&mut self, mem: &mut Memory, i: Rv32i) -> (r: Result<u32, MachineError<E>>)
        requires
            !(i is Ecall),
            !(i is Ebreak),
        ensures
            executed(
                old(self)@,
                old(mem)@,
                final(self)@,
                final(mem)@,
                execute_i(old(self)@, old(mem)@, i),
                r,
            ),
    {
        let pc = self.pc;
        let next = add32(pc, 4);
        match i {
            Rv32i::Lui(x) => {
                self.set_reg(x.rd(), wrap_signed(x.imm()));
                Ok(next)
            },
            Rv32i::Auipc(x) => {
                self.set_reg(x.rd(), add_signed(pc, x.imm()));
                Ok(next)
            },
            Rv32i::Jal(x) => {
                let target = add_signed(pc, x.imm());
                self.set_reg(x.rd(), next);
                Ok(target)
            },
            Rv32i::Jalr(x) => {
                let t = add_signed(self.get_reg(x.rs1()), x.imm());
                self.set_reg(x.rd(), next);
                Ok(t - t % 2)
            },
            Rv32i::Beq(x) => {
                let taken = self.get_reg(x.rs1()) == self.get_reg(x.rs2());
                Ok(if taken { add_signed(pc, x.imm()) } else { next })
            },
            Rv32i::Bne(x) => {
                let taken = self.get_reg(x.rs1()) != self.get_reg(x.rs2());
                Ok(if taken { add_signed(pc, x.imm()) } else { next })
            },
            Rv32i::Blt(x) => {
                let taken = to_signed(self.get_reg(x.rs1())) < to_signed(self.get_reg(x.rs2()));
                Ok(if taken { add_signed(pc, x.imm()) } else { next })
            },
            Rv32i::Bge(x) => {
                let taken = to_signed(self.get_reg(x.rs1())) >= to_signed(self.get_reg(x.rs2()));
                Ok(if taken { add_signed(pc, x.imm()) } else { next })
            },
            Rv32i::Bltu(x) => {
                let taken = self.get_reg(x.rs1()) < self.get_reg(x.rs2());
                Ok(if taken { add_signed(pc, x.imm()) } else { next })
            },
            Rv32i::Bgeu(x) => {
                let taken = self.get_reg(x.rs1()) >= self.get_reg(x.rs2());
                Ok(if taken { add_signed(pc, x.imm()) } else { next })
            },
            Rv32i::Lb(x) => {
                let a = add_signed(self.get_reg(x.rs1()), x.imm());
                match mem.load_u8(a) {
                    Ok(b) => {
                        self.set_reg(x.rd(), wrap_signed(sign_extend(b as u32, 8)));
                        Ok(next)
                    },
                    Err(e) => Err(MachineError::Memory(e)),
                }
            },
            Rv32i::Lh(x) => {
                let a = add_signed(self.get_reg(x.rs1()), x.imm());
                match mem.load_u16(a) {
                    Ok(h) => {
                        self.set_reg(x.rd(), wrap_signed(sign_extend(h as u32, 16)));
                        Ok(next)
                    },
                    Err(e) => Err(MachineError::Memory(e)),
                }
            },
            Rv32i::Lw(x) => {
                let a = add_signed(self.get_reg(x.rs1()), x.imm());
                match mem.load_u32(a) {
                    Ok(v) => {
                        self.set_reg(x.rd(), v);
                        Ok(next)
                    },
                    Err(e) => Err(MachineError::Memory(e)),
                }
            },
            Rv32i::Lbu(x) => {
                let a = add_signed(self.get_reg(x.rs1()), x.imm());
                match mem.load_u8(a) {
                    Ok(b) => {
                        self.set_reg(x.rd(), b as u32);
                        Ok(next)
                    },
                    Err(e) => Err(MachineError::Memory(e)),
                }
            },
            Rv32i::Lhu(x) => {
                let a = add_signed(self.get_reg(x.rs1()), x.imm());
                match mem.load_u16(a) {
                    Ok(h) => {
                        self.set_reg(x.rd(), h as u32);
                        Ok(next)
                    },
                    Err(e) => Err(MachineError::Memory(e)),
                }
            },
            Rv32i::Sb(x) => {
                let a = add_signed(self.get_reg(x.rs1()), x.imm());
                match mem.store_u8(a, (self.get_reg(x.rs2()) % 256) as u8) {
                    Ok(()) => Ok(next),
                    Err(e) => Err(MachineError::Memory(e)),
                }
            },
            Rv32i::Sh(x) => {
                let a = add_signed(self.get_reg(x.rs1()), x.imm());
                match mem.store_u16(a, (self.get_reg(x.rs2()) % 0x1_0000) as u16) {
                    Ok(()) => Ok(next),
                    Err(e) => Err(MachineError::Memory(e)),
                }
            },
            Rv32i::Sw(x) => {
                let a = add_signed(self.get_reg(x.rs1()), x.imm());
                match mem.store_u32(a, self.get_reg(x.rs2())) {
                    Ok(()) => Ok(next),
                    Err(e) => Err(MachineError::Memory(e)),
                }
            },
            _ => self.exec_alu(mem, i),
        }
    }

    /// Executes the register and immediate arithmetic of the base set, the
    /// fences and the illegal instruction.
    #[verifier::spinoff_prover]
    #[verifier::rlimit(100)]
    fn exec_alu<E>(&mut self, mem: &Memory, i: Rv32i) -> (r: Result<u32, MachineError<E>>)
        requires
            !(i is Ecall),
            !(i is Ebreak),
            !(i is Lui),
            !(i is Auipc),
            !(i is Jal),
            !(i is Jalr),
            !(i is Beq),
            !(i is Bne),
            !(i is Blt),
            !(i is Bge),
            !(i is Bltu),
            !(i is Bgeu),
            !(i is Lb),
            !(i is Lh),
            !(i is Lw),
            !(i is Lbu),
            !(i is Lhu),
            !(i is Sb),
            !(i is Sh),
            !(i is Sw),
        ensures
            executed(old(self)@, mem@, final(self)@, mem@, execute_i(old(self)@, mem@, i), r),
    {
        let pc = self.pc;
        let next = add32(pc, 4);
        match i {
            Rv32i::Addi(x) => {
                let v = add_signed(self.get_reg(x.rs1()), x.imm());
                self.set_reg(x.rd(), v);
            },
            Rv32i::Slti(x) => {
                let v = if to_signed(self.get_reg(x.rs1())) < x.imm() {
                    1
                } else {
                    0
                };
                self.set_reg(x.rd(), v);
            },
            Rv32i::Sltiu(x) => {
                let v = if self.get_reg(x.rs1()) < wrap_signed(x.imm()) {
                    1
                } else {
                    0
                };
                self.set_reg(x.rd(), v);
            },
            Rv32i::Xori(x) => {
                let v = self.get_reg(x.rs1()) ^ wrap_signed(x.imm());
                self.set_reg(x.rd(), v);
            },
            Rv32i::Ori(x) => {
                let v = self.get_reg(x.rs1()) | wrap_signed(x.imm());
                self.set_reg(x.rd(), v);
            },
            Rv32i::Andi(x) => {
                let v = self.get_reg(x.rs1()) & wrap_signed(x.imm());
                self.set_reg(x.rd(), v);
            },
            Rv32i::Slli(x) => {
                let v = self.get_reg(x.rs1()) << x.shamt();
                self.set_reg(x.rd(), v);
            },
            Rv32i::Srli(x) => {
                let v = self.get_reg(x.rs1()) >> x.shamt();
                self.set_reg(x.rd(), v);
            },
            Rv32i::Srai(x) => {
                let v = shift_right_arith(self.get_reg(x.rs1()), x.shamt());
                self.set_reg(x.rd(), v);
            },
            Rv32i::Add(x) => {
                let v = add32(self.get_reg(x.rs1()), self.get_reg(x.rs2()));
                self.set_reg(x.rd(), v);
            },
            Rv32i::Sub(x) => {
                let v = sub32(self.get_reg(x.rs1()), self.get_reg(x.rs2()));
                self.set_reg(x.rd(), v);
            },
            Rv32i::Sll(x) => {
                let v = self.get_reg(x.rs1()) << (self.get_reg(x.rs2()) % 32);
                self.set_reg(x.rd(), v);
            },
            Rv32i::Slt(x) => {
                let v = if to_signed(self.get_reg(x.rs1())) < to_signed(self.get_reg(x.rs2())) {
                    1
                } else {
                    0
                };
                self.set_reg(x.rd(), v);
            },
            Rv32i::Sltu(x) => {
                let v = if self.get_reg(x.rs1()) < self.get_reg(x.rs2()) {
                    1
                } else {
                    0
                };
                self.set_reg(x.rd(), v);
            },
            Rv32i::Xor(x) => {
                let v = self.get_reg(x.rs1()) ^ self.get_reg(x.rs2());
                self.set_reg(x.rd(), v);
            },
            Rv32i::Srl(x) => {
                let v = self.get_reg(x.rs1()) >> (self.get_reg(x.rs2()) % 32);
                self.set_reg(x.rd(), v);
            },
            Rv32i::Sra(x) => {
                let v = shift_right_arith(self.get_reg(x.rs1()), self.get_reg(x.rs2()) % 32);
                self.set_reg(x.rd(), v);
            },
            Rv32i::Or(x) => {
                let v = self.get_reg(x.rs1()) | self.get_reg(x.rs2());
                self.set_reg(x.rd(), v);
            },
            Rv32i::And(x) => {
                let v = self.get_reg(x.rs1()) & self.get_reg(x.rs2());
                self.set_reg(x.rd(), v);
            },
            _ => {},
        }
        if matches!(i, Rv32i::Unimp(_)) {
            Err(MachineError::Hart(HartError::IllegalInstruction { addr: pc, op: Rv32::Rv32i(i) }))
        } else {
            Ok(next)
        }
    }

    /// Executes a multiply or divide instruction.
    #[verifier::spinoff_prover]
    fn exec_m<E>(&mut self, mem: &Memory, i: Rv32m) -> (r: Result<u32, MachineError<E>>)
        ensures
            executed(old(self)@, mem@, final(self)@, mem@, execute_m(old(self)@, mem@, i), r),
    {
        let next = add32(self.pc, 4);
        let w = m_word(i);
        let rd = reg_at(w, 11);
        let x1 = self.get_reg(reg_at(w, 19));
        let x2 = self.get_reg(reg_at(w, 24));
        let v = match i {
            Rv32m::Mul(_) => mul_low(x1, x2),
            Rv32m::Mulh(_) => mulh(x1, x2),
            Rv32m::Mulhsu(_) => mulhsu(x1, x2),
            Rv32m::Mulhu(_) => mulhu(x1, x2),
            Rv32m::Div(_) => div(x1, x2),
            Rv32m::Divu(_) => divu(x1, x2),
            Rv32m::Rem(_) => rem(x1, x2),
            Rv32m::Remu(_) => remu(x1, x2),
        };
        self.set_reg(rd, v);
        Ok(next)
    }

    /// Executes an atomic memory instruction.
    #[verifier::spinoff_prover]
    #[verifier::rlimit(100)]
    fn exec_a<E>(&mut self, mem: &mut Memory, i: Rv32a) -> (r: Result<u32, MachineError<E>>)
        ensures
            executed(
                old(self)@,
                old(mem)@,
                final(self)@,
                final(mem)@,
                execute_a(old(self)@, old(mem)@, i),
                r,
            ),
    {
        let next = add32(self.pc, 4);
        let w = a_word(i);
        let rd = reg_at(w, 11);
        let rs2 = reg_at(w, 24);
        let addr = self.get_reg(reg_at(w, 19));
        let x2 = self.get_reg(rs2);
        if addr % 4 != 0 {
            let access = match i {
                Rv32a::LrW(_) => MemoryAccess::Load,
                Rv32a::ScW(_) => MemoryAccess::Store,
                _ => MemoryAccess::Swap,
            };
            Err(MachineError::Memory(MemoryError::UnalignedMemoryAccess { access, addr, required: 4 }))
        } else if matches!(i, Rv32a::LrW(_)) {
            match mem.load_u32(addr) {
                Ok(v) => {
                    self.set_reg(rd, v);
                    self.set_reservation(Some(addr));
                    Ok(next)
                },
                Err(e) => Err(MachineError::Memory(e)),
            }
        } else if matches!(i, Rv32a::ScW(_)) {
            let rsv = self.reservation();
            let reserved = match rsv {
                Some(a) => a == addr,
                None => false,
            };
            if reserved {
                match mem.store_u32(addr, x2) {
                    Ok(()) => {
                        self.set_reg(rd, 0);
                        self.set_reservation(None);
                        Ok(next)
                    },
                    Err(e) => Err(MachineError::Memory(e)),
                }
            } else {
                self.set_reg(rd, 1);
                self.set_reservation(None);
                Ok(next)
            }
        } else {
            match mem.load_u32(addr) {
                Ok(prev) => match mem.store_u32(addr, amo_apply(i, prev, x2)) {
                    Ok(()) => {
                        self.set_reg(rd, prev);
                        Ok(next)
                    },
                    Err(e) => Err(MachineError::Memory(e)),
                },
                Err(e) => Err(MachineError::Memory(e)),
            }
        }
    }

    /// Executes a privileged instruction.
    #[verifier::spinoff_prover]
    #[verifier::rlimit(100)]
    fn exec_s<E>(&mut self, mem: &Memory, i: Rv32s) -> (r: Result<u32, MachineError<E>>)
        ensures
            executed(old(self)@, mem@, final(self)@, mem@, execute_s(old(self)@, mem@, i), r),
    {
        proof {
            lemma2_to64();
        }
        let pc = self.pc;
        let next = add32(pc, 4);
        match i {
            Rv32s::Mret(_) => Ok(next),
            Rv32s::Csrrw(x) => {
                let v = self.get_reg(x.rs1());
                self.csr_swap(x.rd(), x.csr12(), v);
                Ok(next)
            },
            Rv32s::Csrrs(x) => {
                let v = self.get_csr(x.csr12()) | self.get_reg(x.rs1());
                self.csr_swap(x.rd(), x.csr12(), v);
                Ok(next)
            },
            Rv32s::Csrrc(x) => {
                let v = self.get_csr(x.csr12()) & !self.get_reg(x.rs1());
                self.csr_swap(x.rd(), x.csr12(), v);
                Ok(next)
            },
            Rv32s::Csrrwi(x) => {
                self.csr_swap(x.rd(), x.csr12(), x.imm());
                Ok(next)
            },
            Rv32s::Csrrsi(x) => {
                let v = self.get_csr(x.csr12()) | x.imm();
                self.csr_swap(x.rd(), x.csr12(), v);
                Ok(next)
            },
            Rv32s::Csrrci(x) => {
                let v = self.get_csr(x.csr12()) & !x.imm();
                self.csr_swap(x.rd(), x.csr12(), v);
                Ok(next)
            },
            _ => Err(
                MachineError::Hart(
                    HartError::UnimplementedInstruction { addr: pc, op: Rv32::Rv32s(i) },
                ),
            ),
        }
    }

    /// Executes a compressed instruction other than `c.ebreak`.
    #[verifier::spinoff_prover]
    #[verifier::rlimit(100)]
    fn exec_c<E>(&mut self, mem: &mut Memory, i: Rv32c) -> (r: Result<u32, MachineError<E>>)
        requires
            !(i is CEbreak),
        ensures
            executed(
                old(self)@,
                old(mem)@,
                final(self)@,
                final(mem)@,
                execute_c(old(self)@, old(mem)@, i),
                r,
            ),
    {
        let pc = self.pc;
        let next = add32(pc, 2);
        match i {
            Rv32c::CAddi4spn(x) => {
                let v = add32(self.get_reg(Reg::Sp), x.imm());
                self.set_reg(x.rd(), v);
                Ok(next)
            },
            Rv32c::CLw(x) => {
                let a = add32(self.get_reg(x.rs1()), x.imm());
                match mem.load_u32(a) {
                    Ok(v) => {
                        self.set_reg(x.rd(), v);
                        Ok(next)
                    },
                    Err(e) => Err(MachineError::Memory(e)),
                }
            },
            Rv32c::CSw(x) => {
                let a = add32(self.get_reg(x.rs1()), x.imm());
                match mem.store_u32(a, self.get_reg(x.rs2())) {
                    Ok(()) => Ok(next),
                    Err(e) => Err(MachineError::Memory(e)),
                }
            },
            Rv32c::CAddi16sp(x) => {
                let v = add_signed(self.get_reg(Reg::Sp), x.imm());
                self.set_reg(x.rs1rd(), v);
                Ok(next)
            },
            Rv32c::CLwsp(x) => {
                let a = add32(self.get_reg(Reg::Sp), x.imm());
                match mem.load_u32(a) {
                    Ok(v) => {
                        self.set_reg(x.rd(), v);
                        Ok(next)
                    },
                    Err(e) => Err(MachineError::Memory(e)),
                }
            },
            Rv32c::CSwsp(x) => {
                let a = add32(self.get_reg(Reg::Sp), x.imm());
                match mem.store_u32(a, self.get_reg(x.rs2())) {
                    Ok(()) => Ok(next),
                    Err(e) => Err(MachineError::Memory(e)),
                }
            },
            Rv32c::CJal(x) => {
                self.set_reg(Reg::Ra, next);
                Ok(add_signed(pc, x.imm()))
            },
            Rv32c::CJ(x) => Ok(add_signed(pc, x.imm())),
            Rv32c::CBeqz(x) => Ok(
                if self.get_reg(x.rs1()) == 0 {
                    add_signed(pc, x.imm())
                } else {
                    next
                },
            ),
            Rv32c::CBnez(x) => Ok(
                if self.get_reg(x.rs1()) != 0 {
                    add_signed(pc, x.imm())
                } else {
                    next
                },
            ),
            Rv32c::CJr(x) => Ok(self.get_reg(x.rs1())),
            Rv32c::CJalr(x) => {
                let target = self.get_reg(x.rs1());
                self.set_reg(Reg::Ra, next);
                Ok(target)
            },
            _ => self.exec_c_alu(mem, i),
        }
    }

    /// Executes the compressed register arithmetic, `c.nop` and `c.unimp`.
    #[verifier::spinoff_prover]
    #[verifier::rlimit(100)]
    fn exec_c_alu<E>(&mut self, mem: &Memory, i: Rv32c) -> (r: Result<u32, MachineError<E>>)
        requires
            !(i is CAddi4spn),
            !(i is CLw),
            !(i is CSw),
            !(i is CAddi16sp),
            !(i is CLwsp),
            !(i is CSwsp),
            !(i is CJal),
            !(i is CJ),
            !(i is CBeqz),
            !(i is CBnez),
            !(i is CJr),
            !(i is CJalr),
            !(i is CEbreak),
        ensures
            executed(old(self)@, mem@, final(self)@, mem@, execute_c(old(self)@, mem@, i), r),
    {
        let pc = self.pc;
        let next = add32(pc, 2);
        match i {
            Rv32c::CAddi(x) => {
                let v = add_signed(self.get_reg(x.rs1rd()), x.imm());
                self.set_reg(x.rs1rd(), v);
                Ok(next)
            },
            Rv32c::CNop(_) => Ok(next),
            Rv32c::CLi(x) => {
                self.set_reg(x.rs1rd(), wrap_signed(x.imm()));
                Ok(next)
            },
            Rv32c::CLui(x) => {
                self.set_reg(x.rd(), wrap_signed(x.imm()));
                Ok(next)
            },
            Rv32c::CSrli(x) => {
                let v = self.get_reg(x.rs1rd()) >> x.shamt();
                self.set_reg(x.rs1rd(), v);
                Ok(next)
            },
            Rv32c::CSrai(x) => {
                let v = shift_right_arith(self.get_reg(x.rs1rd()), x.shamt());
                self.set_reg(x.rs1rd(), v);
                Ok(next)
            },
            Rv32c::CAndi(x) => {
                let v = self.get_reg(x.rs1rd()) & wrap_signed(x.imm());
                self.set_reg(x.rs1rd(), v);
                Ok(next)
            },
            Rv32c::CSub(x) => {
                let v = sub32(self.get_reg(x.rs1rd()), self.get_reg(x.rs2()));
                self.set_reg(x.rs1rd(), v);
                Ok(next)
            },
            Rv32c::CXor(x) => {
                let v = self.get_reg(x.rs1rd()) ^ self.get_reg(x.rs2());
                self.set_reg(x.rs1rd(), v);
                Ok(next)
            },
            Rv32c::COr(x) => {
                let v = self.get_reg(x.rs1rd()) | self.get_reg(x.rs2());
                self.set_reg(x.rs1rd(), v);
                Ok(next)
            },
            Rv32c::CAnd(x) => {
                let v = self.get_reg(x.rs1rd()) & self.get_reg(x.rs2());
                self.set_reg(x.rs1rd(), v);
                Ok(next)
            },
            Rv32c::CSlli(x) => {
                let v = self.get_reg(x.rs1rd()) << x.shamt();
                self.set_reg(x.rs1rd(), v);
                Ok(next)
            },
            Rv32c::CMv(x) => {
                let v = self.get_reg(x.rs2());
                self.set_reg(x.rd(), v);
                Ok(next)
            },
            Rv32c::CAdd(x) => {
                let v = add32(self.get_reg(x.rs1rd()), self.get_reg(x.rs2()));
                self.set_reg(x.rs1rd(), v);
                Ok(next)
            },
            Rv32c::CUnimp(_) => Err(
                MachineError::Hart(HartError::IllegalInstruction { addr: pc, op: Rv32::Rv32c(i) }),
            ),
            _ => Ok(next),
        }
    }

    /// Fetches, decodes and executes one instruction. `ECALL` and `EBREAK`
    /// are handed to `kernel`; when it answers `StepResult::Continue` the step
    /// completes as for any other instruction, and any other answer or an
    /// error is returned as it is.
    pub fn step<K: Kernel>(&mut self, mem: &mut Memory, kernel: &mut K) -> (r: Result<
        StepResult,
        MachineError<K::Error>,
    >)
        requires
            old(self)@.inst_count < u64::MAX,
        ensures
            match step_outcome(old(self)@, old(mem)@) {
                Outcome::Retired(s2, m2) => {
                    &&& r == Ok::<StepResult, MachineError<K::Error>>(StepResult::Continue)
                    &&& final(self)@ == s2
                    &&& final(mem)@ == m2
                },
                Outcome::HartFault(e) => {
                    &&& r == Err::<StepResult, MachineError<K::Error>>(MachineError::Hart(e))
                    &&& final(self)@ == old(self)@
                    &&& final(mem)@ == old(mem)@
                },
                Outcome::MemoryFault(e) => {
                    &&& r == Err::<StepResult, MachineError<K::Error>>(MachineError::Memory(e))
                    &&& final(self)@ == old(self)@
                    &&& final(mem)@ == old(mem)@
                },
                _ => {
                    &&& r is Err ==> r->Err_0 is Kernel
                    &&& r == Ok::<StepResult, MachineError<K::Error>>(StepResult::Continue) ==> {
                        &&& final(self)@.pc == wrap(old(self)@.pc + fetched(old(self)@, old(mem)@).len())
                        &&& final(self)@.inst_count == old(self)@.inst_count + 1
                    }
                },
            },
            final(self)@.wf(),
            r == Ok::<StepResult, MachineError<K::Error>>(StepResult::Continue) ==> final(self)@.inst_count
                == old(self)@.inst_count + 1,
    {
        proof {
            reveal(step_outcome);
        }
        let pc = self.pc;
        if pc % 2 != 0 {
            proof {
                use_type_invariant(&*self);
            }
            return Err(
                MachineError::Memory(
                    MemoryError::UnalignedMemoryAccess {
                        access: MemoryAccess::Load,
                        addr: pc,
                        required: 2,
                    },
                ),
            );
        }
        let inst = match mem.load_u32(pc) {
            Ok(w) => w,
            Err(e) => {
                proof {
                    use_type_invariant(&*self);
                }
                return Err(MachineError::Memory(e));
            },
        };
        let op = match Rv32::parse(inst) {
            Some(op) => op,
            None => {
                proof {
                    use_type_invariant(&*self);
                }
                return Err(MachineError::Hart(HartError::InvalidInstruction { addr: pc, inst }));
            },
        };
        let next = add32(pc, op.length());
        let count = self.inst_count;
        let trap: u8 = match op {
            Rv32::Rv32i(Rv32i::Ecall(_)) => 1,
            Rv32::Rv32i(Rv32i::Ebreak(_)) => 2,
            Rv32::Rv32c(Rv32c::CEbreak(_)) => 2,
            _ => 0,
        };
        if trap != 0 {
            let res = if trap == 1 {
                kernel.syscall(self, mem)
            } else {
                kernel.ebreak(self, mem)
            };
            proof {
                use_type_invariant(&*self);
            }
            match res {
                Ok(StepResult::Continue) => {
                    self.inst_count = count + 1;
                    self.pc = next;
                    return Ok(StepResult::Continue);
                },
                Ok(other) => {
                    return Ok(other);
                },
                Err(e) => {
                    return Err(MachineError::Kernel(e));
                },
            }
        }
        let res = match op {
            Rv32::Rv32i(i) => self.exec_i(mem, i),
            Rv32::Rv32m(i) => self.exec_m(mem, i),
            Rv32::Rv32a(i) => self.exec_a(mem, i),
            Rv32::Rv32s(i) => self.exec_s(mem, i),
            Rv32::Rv32c(i) => self.exec_c(mem, i),
            Rv32::Rv32d(_) => Err(
                MachineError::Hart(HartError::UnimplementedInstruction { addr: pc, op }),
            ),
        };
        proof {
            use_type_invariant(&*self);
        }
        match res {
            Ok(target) => {
                self.pc = target;
                self.inst_count = count + 1;
                Ok(StepResult::Continue)
            },
            Err(e) => Err(e),
        }
    }
}

/// The instruction word of a multiply or divide instruction.
fn m_word(i: Rv32m) -> (w: u32)
    ensures
        w == i.raw(),
{
    match i {
        Rv32m::Mul(x) => x.0,
        Rv32m::Mulh(x) => x.0,
        Rv32m::Mulhsu(x) => x.0,
        Rv32m::Mulhu(x) => x.0,
        Rv32m::Div(x) => x.0,
        Rv32m::Divu(x) => x.0,
        Rv32m::Rem(x) => x.0,
        Rv32m::Remu(x) => x.0,
    }
}

/// The instruction word of an atomic instruction.
fn a_word(i: Rv32a) -> (w: u32)
    ensures
        w == i.raw(),
{
    match i {
        Rv32a::LrW(x) => x.0,
        Rv32a::ScW(x) => x.0,
        Rv32a::AmoswapW(x) => x.0,
        Rv32a::AmoaddW(x) => x.0,
        Rv32a::AmoxorW(x) => x.0,
        Rv32a::AmoandW(x) => x.0,
        Rv32a::AmoorW(x) => x.0,
        Rv32a::AmominW(x) => x.0,
        Rv32a::AmomaxW(x) => x.0,
        Rv32a::AmominuW(x) => x.0,
        Rv32a::AmomaxuW(x) => x.0,
    }
}

impl Default for Hart32 {
    fn default() -> (h: Hart32)
        ensures
            h@ == (HartState {
                regs: Seq::new(32, |i: int| 0u32),
                csrs: Seq::new(4096, |i: int| 0u32),
                pc: 0,
                inst_count: 0,
                amo_rsv: None,
            }),
    {
        Hart32::new()
    }
}

/// The value an atomic read-modify-write stores.
fn amo_apply(i: Rv32a, prev: u32, v: u32) -> (r: u32)
    ensures
        r == amo_value(i, prev, v),
{
    match i {
        Rv32a::AmoswapW(_) => v,
        Rv32a::AmoaddW(_) => add32(prev, v),
        Rv32a::AmoxorW(_) => prev ^ v,
        Rv32a::AmoandW(_) => prev & v,
        Rv32a::AmoorW(_) => prev | v,
        Rv32a::AmominW(_) => if to_signed(prev) <= to_signed(v) {
            prev
        } else {
            v
        },
        Rv32a::AmomaxW(_) => if to_signed(prev) >= to_signed(v) {
            prev
        } else {
            v
        },
        Rv32a::AmominuW(_) => if prev <= v {
            prev
        } else {
            v
        },
        Rv32a::AmomaxuW(_) => if prev >= v {
            prev
        } else {
            v
        },
        _ => v,
    }
}

} // verus!
