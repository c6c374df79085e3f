//! The base integer instructions (RV32I), with the system-call and
//! breakpoint traps and the canonical illegal instruction.
use crate::bits::{bits5_of, bits_of, field};
use crate::encoding::{OPC_AUIPC, OPC_BRANCH, OPC_JAL, OPC_JALR, OPC_LOAD, OPC_LUI, OPC_MISC_MEM, OPC_OP, OPC_OP_IMM, OPC_STORE, OPC_SYSTEM, funct3, funct7, is_full, is_unimp, major};
use crate::formats::{b_imm, b_imm_of, i_imm, i_imm_of, j_imm, j_imm_of, rd_of, reg_at, rs1_of, rs2_of, s_imm, s_imm_of, u_imm, u_imm_of};
use crate::reg::Reg;
use vstd::prelude::*;

verus! {

/// A decoded instruction of this subset; each variant wraps the raw word.
#[derive(Clone, Copy, Debug, PartialEq, Eq, Structural)]
pub enum Rv32i {
    Lui(Lui),
    Auipc(Auipc),
    Jal(Jal),
    Jalr(Jalr),
    Beq(Beq),
    Bne(Bne),
    Blt(Blt),
    Bge(Bge),
    Bltu(Bltu),
    Bgeu(Bgeu),
    Lb(Lb),
    Lh(Lh),
    Lw(Lw),
    Lbu(Lbu),
    Lhu(Lhu),
    Sb(Sb),
    Sh(Sh),
    Sw(Sw),
    Addi(Addi),
    Slti(Slti),
    Sltiu(Sltiu),
    Xori(Xori),
    Ori(Ori),
    Andi(Andi),
    Slli(Slli),
    Srli(Srli),
    Srai(Srai),
    Add(Add),
    Sub(Sub),
    Sll(Sll),
    Slt(Slt),
    Sltu(Sltu),
    Xor(Xor),
    Srl(Srl),
    Sra(Sra),
    Or(Or),
    And(And),
    Fence(Fence),
    FenceI(FenceI),
    Ecall(Ecall),
    Ebreak(Ebreak),
    Unimp(Unimp),
}

impl Rv32i {
    /// The instruction word this value was decoded from.
    pub open spec fn raw(self) -> u32 {
        match self {
            Rv32i::Lui(x) => x.0,
            Rv32i::Auipc(x) => x.0,
            Rv32i::Jal(x) => x.0,
            Rv32i::Jalr(x) => x.0,
            Rv32i::Beq(x) => x.0,
            Rv32i::Bne(x) => x.0,
            Rv32i::Blt(x) => x.0,
            Rv32i::Bge(x) => x.0,
            Rv32i::Bltu(x) => x.0,
            Rv32i::Bgeu(x) => x.0,
            Rv32i::Lb(x) => x.0,
            Rv32i::Lh(x) => x.0,
            Rv32i::Lw(x) => x.0,
            Rv32i::Lbu(x) => x.0,
            Rv32i::Lhu(x) => x.0,
            Rv32i::Sb(x) => x.0,
            Rv32i::Sh(x) => x.0,
            Rv32i::Sw(x) => x.0,
            Rv32i::Addi(x) => x.0,
            Rv32i::Slti(x) => x.0,
            Rv32i::Sltiu(x) => x.0,
            Rv32i::Xori(x) => x.0,
            Rv32i::Ori(x) => x.0,
            Rv32i::Andi(x) => x.0,
            Rv32i::Slli(x) => x.0,
            Rv32i::Srli(x) => x.0,
            Rv32i::Srai(x) => x.0,
            Rv32i::Add(x) => x.0,
            Rv32i::Sub(x) => x.0,
            Rv32i::Sll(x) => x.0,
            Rv32i::Slt(x) => x.0,
            Rv32i::Sltu(x) => x.0,
            Rv32i::Xor(x) => x.0,
            Rv32i::Srl(x) => x.0,
            Rv32i::Sra(x) => x.0,
            Rv32i::Or(x) => x.0,
            Rv32i::And(x) => x.0,
            Rv32i::Fence(x) => x.0,
            Rv32i::FenceI(x) => x.0,
            Rv32i::Ecall(x) => x.0,
            Rv32i::Ebreak(x) => x.0,
            Rv32i::Unimp(x) => x.0,
        }
    }

    /// The wrapped word is an encoding of the variant's mnemonic.
    pub open spec fn valid(self) -> bool {
        match self {
            Rv32i::Lui(x) => Lui::is_encoding(x.0),
            Rv32i::Auipc(x) => Auipc::is_encoding(x.0),
            Rv32i::Jal(x) => Jal::is_encoding(x.0),
            Rv32i::Jalr(x) => Jalr::is_encoding(x.0),
            Rv32i::Beq(x) => Beq::is_encoding(x.0),
            Rv32i::Bne(x) => Bne::is_encoding(x.0),
            Rv32i::Blt(x) => Blt::is_encoding(x.0),
            Rv32i::Bge(x) => Bge::is_encoding(x.0),
            Rv32i::Bltu(x) => Bltu::is_encoding(x.0),
            Rv32i::Bgeu(x) => Bgeu::is_encoding(x.0),
            Rv32i::Lb(x) => Lb::is_encoding(x.0),
            Rv32i::Lh(x) => Lh::is_encoding(x.0),
            Rv32i::Lw(x) => Lw::is_encoding(x.0),
            Rv32i::Lbu(x) => Lbu::is_encoding(x.0),
            Rv32i::Lhu(x) => Lhu::is_encoding(x.0),
            Rv32i::Sb(x) => Sb::is_encoding(x.0),
            Rv32i::Sh(x) => Sh::is_encoding(x.0),
            Rv32i::Sw(x) => Sw::is_encoding(x.0),
            Rv32i::Addi(x) => Addi::is_encoding(x.0),
            Rv32i::Slti(x) => Slti::is_encoding(x.0),
            Rv32i::Sltiu(x) => Sltiu::is_encoding(x.0),
            Rv32i::Xori(x) => Xori::is_encoding(x.0),
            Rv32i::Ori(x) => Ori::is_encoding(x.0),
            Rv32i::Andi(x) => Andi::is_encoding(x.0),
            Rv32i::Slli(x) => Slli::is_encoding(x.0),
            Rv32i::Srli(x) => Srli::is_encoding(x.0),
            Rv32i::Srai(x) => Srai::is_encoding(x.0),
            Rv32i::Add(x) => Add::is_encoding(x.0),
            Rv32i::Sub(x) => Sub::is_encoding(x.0),
            Rv32i::Sll(x) => Sll::is_encoding(x.0),
            Rv32i::Slt(x) => Slt::is_encoding(x.0),
            Rv32i::Sltu(x) => Sltu::is_encoding(x.0),
            Rv32i::Xor(x) => Xor::is_encoding(x.0),
            Rv32i::Srl(x) => Srl::is_encoding(x.0),
            Rv32i::Sra(x) => Sra::is_encoding(x.0),
            Rv32i::Or(x) => Or::is_encoding(x.0),
            Rv32i::And(x) => And::is_encoding(x.0),
            Rv32i::Fence(x) => Fence::is_encoding(x.0),
            Rv32i::FenceI(x) => FenceI::is_encoding(x.0),
            Rv32i::Ecall(x) => Ecall::is_encoding(x.0),
            Rv32i::Ebreak(x) => Ebreak::is_encoding(x.0),
            Rv32i::Unimp(x) => Unimp::is_encoding(x.0),
        }
    }
}

/// `lui rd, imm`.
#[derive(Clone, Copy, Debug, PartialEq, Eq, Structural)]
pub struct Lui(pub u32);

impl Lui {
    /// `w` encodes `lui`.
    pub open spec fn is_encoding(w: u32) -> bool {
        is_full(w)
        && major(w) == OPC_LUI
    }

    pub fn rd(&self) -> (r: Reg)
        ensures
            r.id() == rd_of(self.0),
    {
        reg_at(self.0, 11)
    }

    pub fn imm(&self) -> (r: i32)
        ensures
            r as int == u_imm(self.0),
    {
        u_imm_of(self.0)
    }
}

/// `auipc rd, imm`.
#[derive(Clone, Copy, Debug, PartialEq, Eq, Structural)]
pub struct Auipc(pub u32);

impl Auipc {
    /// `w` encodes `auipc`.
    pub open spec fn is_encoding(w: u32) -> bool {
        is_full(w)
        && major(w) == OPC_AUIPC
    }

    pub fn rd(&self) -> (r: Reg)
        ensures
            r.id() == rd_of(self.0),
    {
        reg_at(self.0, 11)
    }

    pub fn imm(&self) -> (r: i32)
        ensures
            r as int == u_imm(self.0),
    {
        u_imm_of(self.0)
    }
}

/// `jal rd, offset`.
#[derive(Clone, Copy, Debug, PartialEq, Eq, Structural)]
pub struct Jal(pub u32);

impl Jal {
    /// `w` encodes `jal`.
    pub open spec fn is_encoding(w: u32) -> bool {
        is_full(w)
        && major(w) == OPC_JAL
    }

    pub fn rd(&self) -> (r: Reg)
        ensures
            r.id() == rd_of(self.0),
    {
        reg_at(self.0, 11)
    }

    pub fn imm(&self) -> (r: i32)
        ensures
            r as int == j_imm(self.0),
    {
        j_imm_of(self.0)
    }
}

/// `jalr rd, offset(rs1)`.
#[derive(Clone, Copy, Debug, PartialEq, Eq, Structural)]
pub struct Jalr(pub u32);

impl Jalr {
    /// `w` encodes `jalr`.
    pub open spec fn is_encoding(w: u32) -> bool {
        is_full(w)
        && major(w) == OPC_JALR
        && funct3(w) == 0
    }

    pub fn rd(&self) -> (r: Reg)
        ensures
            r.id() == rd_of(self.0),
    {
        reg_at(self.0, 11)
    }

    pub fn rs1(&self) -> (r: Reg)
        ensures
            r.id() == rs1_of(self.0),
    {
        reg_at(self.0, 19)
    }

    pub fn imm(&self) -> (r: i32)
        ensures
            r as int == i_imm(self.0),
    {
        i_imm_of(self.0)
    }
}

/// `beq rs1, rs2, offset`.
#[derive(Clone, Copy, Debug, PartialEq, Eq, Structural)]
pub struct Beq(pub u32);

impl Beq {
    /// `w` encodes `beq`.
    pub open spec fn is_encoding(w: u32) -> bool {
        is_full(w)
        && major(w) == OPC_BRANCH
        && funct3(w) == 0
    }

    pub fn rs1(&self) -> (r: Reg)
        ensures
            r.id() == rs1_of(self.0),
    {
        reg_at(self.0, 19)
    }

    pub fn rs2(&self) -> (r: Reg)
        ensures
            r.id() == rs2_of(self.0),
    {
        reg_at(self.0, 24)
    }

    pub fn imm(&self) -> (r: i32)
        ensures
            r as int == b_imm(self.0),
    {
        b_imm_of(self.0)
    }
}

/// `bne rs1, rs2, offset`.
#[derive(Clone, Copy, Debug, PartialEq, Eq, Structural)]
pub struct Bne(pub u32);

impl Bne {
    /// `w` encodes `bne`.
    pub open spec fn is_encoding(w: u32) -> bool {
        is_full(w)
        && major(w) == OPC_BRANCH
        && funct3(w) == 1
    }

    pub fn rs1(&self) -> (r: Reg)
        ensures
            r.id() == rs1_of(self.0),
    {
        reg_at(self.0, 19)
    }

    pub fn rs2(&self) -> (r: Reg)
        ensures
            r.id() == rs2_of(self.0),
    {
        reg_at(self.0, 24)
    }

    pub fn imm(&self) -> (r: i32)
        ensures
            r as int == b_imm(self.0),
    {
        b_imm_of(self.0)
    }
}

/// `blt rs1, rs2, offset`.
#[derive(Clone, Copy, Debug, PartialEq, Eq, Structural)]
pub struct Blt(pub u32);

impl Blt {
    /// `w` encodes `blt`.
    pub open spec fn is_encoding(w: u32) -> bool {
        is_full(w)
        && major(w) == OPC_BRANCH
        && funct3(w) == 4
    }

    pub fn rs1(&self) -> (r: Reg)
        ensures
            r.id() == rs1_of(self.0),
    {
        reg_at(self.0, 19)
    }

    pub fn rs2(&self) -> (r: Reg)
        ensures
            r.id() == rs2_of(self.0),
    {
        reg_at(self.0, 24)
    }

    pub fn imm(&self) -> (r: i32)
        ensures
            r as int == b_imm(self.0),
    {
        b_imm_of(self.0)
    }
}

/// `bge rs1, rs2, offset`.
#[derive(Clone, Copy, Debug, PartialEq, Eq, Structural)]
pub struct Bge(pub u32);

impl Bge {
    /// `w` encodes `bge`.
    pub open spec fn is_encoding(w: u32) -> bool {
        is_full(w)
        && major(w) == OPC_BRANCH
        && funct3(w) == 5
    }

    pub fn rs1(&self) -> (r: Reg)
        ensures
            r.id() == rs1_of(self.0),
    {
        reg_at(self.0, 19)
    }

    pub fn rs2(&self) -> (r: Reg)
        ensures
            r.id() == rs2_of(self.0),
    {
        reg_at(self.0, 24)
    }

    pub fn imm(&self) -> (r: i32)
        ensures
            r as int == b_imm(self.0),
    {
        b_imm_of(self.0)
    }
}

/// `bltu rs1, rs2, offset`.
#[derive(Clone, Copy, Debug, PartialEq, Eq, Structural)]
pub struct Bltu(pub u32);

impl Bltu {
    /// `w` encodes `bltu`.
    pub open spec fn is_encoding(w: u32) -> bool {
        is_full(w)
        && major(w) == OPC_BRANCH
        && funct3(w) == 6
    }

    pub fn rs1(&self) -> (r: Reg)
        ensures
            r.id() == rs1_of(self.0),
    {
        reg_at(self.0, 19)
    }

    pub fn rs2(&self) -> (r: Reg)
        ensures
            r.id() == rs2_of(self.0),
    {
        reg_at(self.0, 24)
    }

    pub fn imm(&self) -> (r: i32)
        ensures
            r as int == b_imm(self.0),
    {
        b_imm_of(self.0)
    }
}

/// `bgeu rs1, rs2, offset`.
#[derive(Clone, Copy, Debug, PartialEq, Eq, Structural)]
pub struct Bgeu(pub u32);

impl Bgeu {
    /// `w` encodes `bgeu`.
    pub open spec fn is_encoding(w: u32) -> bool {
        is_full(w)
        && major(w) == OPC_BRANCH
        && funct3(w) == 7
    }

    pub fn rs1(&self) -> (r: Reg)
        ensures
            r.id() == rs1_of(self.0),
    {
        reg_at(self.0, 19)
    }

    pub fn rs2(&self) -> (r: Reg)
        ensures
            r.id() == rs2_of(self.0),
    {
        reg_at(self.0, 24)
    }

    pub fn imm(&self) -> (r: i32)
        ensures
            r as int == b_imm(self.0),
    {
        b_imm_of(self.0)
    }
}

/// `lb rd, offset(rs1)`.
#[derive(Clone, Copy, Debug, PartialEq, Eq, Structural)]
pub struct Lb(pub u32);

impl Lb {
    /// `w` encodes `lb`.
    pub open spec fn is_encoding(w: u32) -> bool {
        is_full(w)
        && major(w) == OPC_LOAD
        && funct3(w) == 0
    }

    pub fn rd(&self) -> (r: Reg)
        ensures
            r.id() == rd_of(self.0),
    {
        reg_at(self.0, 11)
    }

    pub fn rs1(&self) -> (r: Reg)
        ensures
            r.id() == rs1_of(self.0),
    {
        reg_at(self.0, 19)
    }

    pub fn imm(&self) -> (r: i32)
        ensures
            r as int == i_imm(self.0),
    {
        i_imm_of(self.0)
    }
}

/// `lh rd, offset(rs1)`.
#[derive(Clone, Copy, Debug, PartialEq, Eq, Structural)]
pub struct Lh(pub u32);

impl Lh {
    /// `w` encodes `lh`.
    pub open spec fn is_encoding(w: u32) -> bool {
        is_full(w)
        && major(w) == OPC_LOAD
        && funct3(w) == 1
    }

    pub fn rd(&self) -> (r: Reg)
        ensures
            r.id() == rd_of(self.0),
    {
        reg_at(self.0, 11)
    }

    pub fn rs1(&self) -> (r: Reg)
        ensures
            r.id() == rs1_of(self.0),
    {
        reg_at(self.0, 19)
    }

    pub fn imm(&self) -> (r: i32)
        ensures
            r as int == i_imm(self.0),
    {
        i_imm_of(self.0)
    }
}

/// `lw rd, offset(rs1)`.
#[derive(Clone, Copy, Debug, PartialEq, Eq, Structural)]
pub struct Lw(pub u32);

impl Lw {
    /// `w` encodes `lw`.
    pub open spec fn is_encoding(w: u32) -> bool {
        is_full(w)
        && major(w) == OPC_LOAD
        && funct3(w) == 2
    }

    pub fn rd(&self) -> (r: Reg)
        ensures
            r.id() == rd_of(self.0),
    {
        reg_at(self.0, 11)
    }

    pub fn rs1(&self) -> (r: Reg)
        ensures
            r.id() == rs1_of(self.0),
    {
        reg_at(self.0, 19)
    }

    pub fn imm(&self) -> (r: i32)
        ensures
            r as int == i_imm(self.0),
    {
        i_imm_of(self.0)
    }
}

/// `lbu rd, offset(rs1)`.
#[derive(Clone, Copy, Debug, PartialEq, Eq, Structural)]
pub struct Lbu(pub u32);

impl Lbu {
    /// `w` encodes `lbu`.
    pub open spec fn is_encoding(w: u32) -> bool {
        is_full(w)
        && major(w) == OPC_LOAD
        && funct3(w) == 4
    }

    pub fn rd(&self) -> (r: Reg)
        ensures
            r.id() == rd_of(self.0),
    {
        reg_at(self.0, 11)
    }

    pub fn rs1(&self) -> (r: Reg)
        ensures
            r.id() == rs1_of(self.0),
    {
        reg_at(self.0, 19)
    }

    pub fn imm(&self) -> (r: i32)
        ensures
            r as int == i_imm(self.0),
    {
        i_imm_of(self.0)
    }
}

/// `lhu rd, offset(rs1)`.
#[derive(Clone, Copy, Debug, PartialEq, Eq, Structural)]
pub struct Lhu(pub u32);

impl Lhu {
    /// `w` encodes `lhu`.
    pub open spec fn is_encoding(w: u32) -> bool {
        is_full(w)
        && major(w) == OPC_LOAD
        && funct3(w) == 5
    }

    pub fn rd(&self) -> (r: Reg)
        ensures
            r.id() == rd_of(self.0),
    {
        reg_at(self.0, 11)
    }

    pub fn rs1(&self) -> (r: Reg)
        ensures
            r.id() == rs1_of(self.0),
    {
        reg_at(self.0, 19)
    }

    pub fn imm(&self) -> (r: i32)
        ensures
            r as int == i_imm(self.0),
    {
        i_imm_of(self.0)
    }
}

/// `sb rs2, offset(rs1)`.
#[derive(Clone, Copy, Debug, PartialEq, Eq, Structural)]
pub struct Sb(pub u32);

impl Sb {
    /// `w` encodes `sb`.
    pub open spec fn is_encoding(w: u32) -> bool {
        is_full(w)
        && major(w) == OPC_STORE
        && funct3(w) == 0
    }

    pub fn rs1(&self) -> (r: Reg)
        ensures
            r.id() == rs1_of(self.0),
    {
        reg_at(self.0, 19)
    }

    pub fn rs2(&self) -> (r: Reg)
        ensures
            r.id() == rs2_of(self.0),
    {
        reg_at(self.0, 24)
    }

    pub fn imm(&self) -> (r: i32)
        ensures
            r as int == s_imm(self.0),
    {
        s_imm_of(self.0)
    }
}

/// `sh rs2, offset(rs1)`.
#[derive(Clone, Copy, Debug, PartialEq, Eq, Structural)]
pub struct Sh(pub u32);

impl Sh {
    /// `w` encodes `sh`.
    pub open spec fn is_encoding(w: u32) -> bool {
        is_full(w)
        && major(w) == OPC_STORE
        && funct3(w) == 1
    }

    pub fn rs1(&self) -> (r: Reg)
        ensures
            r.id() == rs1_of(self.0),
    {
        reg_at(self.0, 19)
    }

    pub fn rs2(&self) -> (r: Reg)
        ensures
            r.id() == rs2_of(self.0),
    {
        reg_at(self.0, 24)
    }

    pub fn imm(&self) -> (r: i32)
        ensures
            r as int == s_imm(self.0),
    {
        s_imm_of(self.0)
    }
}

/// `sw rs2, offset(rs1)`.
#[derive(Clone, Copy, Debug, PartialEq, Eq, Structural)]
pub struct Sw(pub u32);

impl Sw {
    /// `w` encodes `sw`.
    pub open spec fn is_encoding(w: u32) -> bool {
        is_full(w)
        && major(w) == OPC_STORE
        && funct3(w) == 2
    }

    pub fn rs1(&self) -> (r: Reg)
        ensures
            r.id() == rs1_of(self.0),
    {
        reg_at(self.0, 19)
    }

    pub fn rs2(&self) -> (r: Reg)
        ensures
            r.id() == rs2_of(self.0),
    {
        reg_at(self.0, 24)
    }

    pub fn imm(&self) -> (r: i32)
        ensures
            r as int == s_imm(self.0),
    {
        s_imm_of(self.0)
    }
}

/// `addi rd, rs1, imm`.
#[derive(Clone, Copy, Debug, PartialEq, Eq, Structural)]
pub struct Addi(pub u32);

impl Addi {
    /// `w` encodes `addi`.
    pub open spec fn is_encoding(w: u32) -> bool {
        is_full(w)
        && major(w) == OPC_OP_IMM
        && funct3(w) == 0
    }

    pub fn rd(&self) -> (r: Reg)
        ensures
            r.id() == rd_of(self.0),
    {
        reg_at(self.0, 11)
    }

    pub fn rs1(&self) -> (r: Reg)
        ensures
            r.id() == rs1_of(self.0),
    {
        reg_at(self.0, 19)
    }

    pub fn imm(&self) -> (r: i32)
        ensures
            r as int == i_imm(self.0),
    {
        i_imm_of(self.0)
    }
}

/// `slti rd, rs1, imm`.
#[derive(Clone, Copy, Debug, PartialEq, Eq, Structural)]
pub struct Slti(pub u32);

impl Slti {
    /// `w` encodes `slti`.
    pub open spec fn is_encoding(w: u32) -> bool {
        is_full(w)
        && major(w) == OPC_OP_IMM
        && funct3(w) == 2
    }

    pub fn rd(&self) -> (r: Reg)
        ensures
            r.id() == rd_of(self.0),
    {
        reg_at(self.0, 11)
    }

    pub fn rs1(&self) -> (r: Reg)
        ensures
            r.id() == rs1_of(self.0),
    {
        reg_at(self.0, 19)
    }

    pub fn imm(&self) -> (r: i32)
        ensures
            r as int == i_imm(self.0),
    {
        i_imm_of(self.0)
    }
}

/// `sltiu rd, rs1, imm`.
#[derive(Clone, Copy, Debug, PartialEq, Eq, Structural)]
pub struct Sltiu(pub u32);

impl Sltiu {
    /// `w` encodes `sltiu`.
    pub open spec fn is_encoding(w: u32) -> bool {
        is_full(w)
        && major(w) == OPC_OP_IMM
        && funct3(w) == 3
    }

    pub fn rd(&self) -> (r: Reg)
        ensures
            r.id() == rd_of(self.0),
    {
        reg_at(self.0, 11)
    }

    pub fn rs1(&self) -> (r: Reg)
        ensures
            r.id() == rs1_of(self.0),
    {
        reg_at(self.0, 19)
    }

    pub fn imm(&self) -> (r: i32)
        ensures
            r as int == i_imm(self.0),
    {
        i_imm_of(self.0)
    }
}

/// `xori rd, rs1, imm`.
#[derive(Clone, Copy, Debug, PartialEq, Eq, Structural)]
pub struct Xori(pub u32);

impl Xori {
    /// `w` encodes `xori`.
    pub open spec fn is_encoding(w: u32) -> bool {
        is_full(w)
        && major(w) == OPC_OP_IMM
        && funct3(w) == 4
    }

    pub fn rd(&self) -> (r: Reg)
        ensures
            r.id() == rd_of(self.0),
    {
        reg_at(self.0, 11)
    }

    pub fn rs1(&self) -> (r: Reg)
        ensures
            r.id() == rs1_of(self.0),
    {
        reg_at(self.0, 19)
    }

    pub fn imm(&self) -> (r: i32)
        ensures
            r as int == i_imm(self.0),
    {
        i_imm_of(self.0)
    }
}

/// `ori rd, rs1, imm`.
#[derive(Clone, Copy, Debug, PartialEq, Eq, Structural)]
pub struct Ori(pub u32);

impl Ori {
    /// `w` encodes `ori`.
    pub open spec fn is_encoding(w: u32) -> bool {
        is_full(w)
        && major(w) == OPC_OP_IMM
        && funct3(w) == 6
    }

    pub fn rd(&self) -> (r: Reg)
        ensures
            r.id() == rd_of(self.0),
    {
        reg_at(self.0, 11)
    }

    pub fn rs1(&self) -> (r: Reg)
        ensures
            r.id() == rs1_of(self.0),
    {
        reg_at(self.0, 19)
    }

    pub fn imm(&self) -> (r: i32)
        ensures
            r as int == i_imm(self.0),
    {
        i_imm_of(self.0)
    }
}

/// `andi rd, rs1, imm`.
#[derive(Clone, Copy, Debug, PartialEq, Eq, Structural)]
pub struct Andi(pub u32);

impl Andi {
    /// `w` encodes `andi`.
    pub open spec fn is_encoding(w: u32) -> bool {
        is_full(w)
        && major(w) == OPC_OP_IMM
        && funct3(w) == 7
    }

    pub fn rd(&self) -> (r: Reg)
        ensures
            r.id() == rd_of(self.0),
    {
        reg_at(self.0, 11)
    }

    pub fn rs1(&self) -> (r: Reg)
        ensures
            r.id() == rs1_of(self.0),
    {
        reg_at(self.0, 19)
    }

    pub fn imm(&self) -> (r: i32)
        ensures
            r as int == i_imm(self.0),
    {
        i_imm_of(self.0)
    }
}

/// `slli rd, rs1, shamt`.
#[derive(Clone, Copy, Debug, PartialEq, Eq, Structural)]
pub struct Slli(pub u32);

impl Slli {
    /// `w` encodes `slli`.
    pub open spec fn is_encoding(w: u32) -> bool {
        is_full(w)
        && major(w) == OPC_OP_IMM
        && funct3(w) == 1
        && funct7(w) == 0x0
    }

    pub fn rd(&self) -> (r: Reg)
        ensures
            r.id() == rd_of(self.0),
    {
        reg_at(self.0, 11)
    }

    pub fn rs1(&self) -> (r: Reg)
        ensures
            r.id() == rs1_of(self.0),
    {
        reg_at(self.0, 19)
    }

    pub fn shamt(&self) -> (r: u32)
        ensures
            r == field(self.0, 24, 20),
            r < 32,
    {
        bits5_of(self.0, 24)
    }
}

/// `srli rd, rs1, shamt`.
#[derive(Clone, Copy, Debug, PartialEq, Eq, Structural)]
pub struct Srli(pub u32);

impl Srli {
    /// `w` encodes `srli`.
    pub open spec fn is_encoding(w: u32) -> bool {
        is_full(w)
        && major(w) == OPC_OP_IMM
        && funct3(w) == 5
        && funct7(w) == 0x0
    }

    pub fn rd(&self) -> (r: Reg)
        ensures
            r.id() == rd_of(self.0),
    {
        reg_at(self.0, 11)
    }

    pub fn rs1(&self) -> (r: Reg)
        ensures
            r.id() == rs1_of(self.0),
    {
        reg_at(self.0, 19)
    }

    pub fn shamt(&self) -> (r: u32)
        ensures
            r == field(self.0, 24, 20),
            r < 32,
    {
        bits5_of(self.0, 24)
    }
}

/// `srai rd, rs1, shamt`.
#[derive(Clone, Copy, Debug, PartialEq, Eq, Structural)]
pub struct Srai(pub u32);

impl Srai {
    /// `w` encodes `srai`.
    pub open spec fn is_encoding(w: u32) -> bool {
        is_full(w)
        && major(w) == OPC_OP_IMM
        && funct3(w) == 5
        && funct7(w) == 0x20
    }

    pub fn rd(&self) -> (r: Reg)
        ensures
            r.id() == rd_of(self.0),
    {
        reg_at(self.0, 11)
    }

    pub fn rs1(&self) -> (r: Reg)
        ensures
            r.id() == rs1_of(self.0),
    {
        reg_at(self.0, 19)
    }

    pub fn shamt(&self) -> (r: u32)
        ensures
            r == field(self.0, 24, 20),
            r < 32,
    {
        bits5_of(self.0, 24)
    }
}

/// `add rd, rs1, rs2`.
#[derive(Clone, Copy, Debug, PartialEq, Eq, Structural)]
pub struct Add(pub u32);

impl Add {
    /// `w` encodes `add`.
    pub open spec fn is_encoding(w: u32) -> bool {
        is_full(w)
        && major(w) == OPC_OP
        && funct3(w) == 0
        && funct7(w) == 0x0
    }

    pub fn rd(&self) -> (r: Reg)
        ensures
            r.id() == rd_of(self.0),
    {
        reg_at(self.0, 11)
    }

    pub fn rs1(&self) -> (r: Reg)
        ensures
            r.id() == rs1_of(self.0),
    {
        reg_at(self.0, 19)
    }

    pub fn rs2(&self) -> (r: Reg)
        ensures
            r.id() == rs2_of(self.0),
    {
        reg_at(self.0, 24)
    }
}

/// `sub rd, rs1, rs2`.
#[derive(Clone, Copy, Debug, PartialEq, Eq, Structural)]
pub struct Sub(pub u32);

impl Sub {
    /// `w` encodes `sub`.
    pub open spec fn is_encoding(w: u32) -> bool {
        is_full(w)
        && major(w) == OPC_OP
        && funct3(w) == 0
        && funct7(w) == 0x20
    }

    pub fn rd(&self) -> (r: Reg)
        ensures
            r.id() == rd_of(self.0),
    {
        reg_at(self.0, 11)
    }

    pub fn rs1(&self) -> (r: Reg)
        ensures
            r.id() == rs1_of(self.0),
    {
        reg_at(self.0, 19)
    }

    pub fn rs2(&self) -> (r: Reg)
        ensures
            r.id() == rs2_of(self.0),
    {
        reg_at(self.0, 24)
    }
}

/// `sll rd, rs1, rs2`.
#[derive(Clone, Copy, Debug, PartialEq, Eq, Structural)]
pub struct Sll(pub u32);

impl Sll {
    /// `w` encodes `sll`.
    pub open spec fn is_encoding(w: u32) -> bool {
        is_full(w)
        && major(w) == OPC_OP
        && funct3(w) == 1
        && funct7(w) == 0x0
    }

    pub fn rd(&self) -> (r: Reg)
        ensures
            r.id() == rd_of(self.0),
    {
        reg_at(self.0, 11)
    }

    pub fn rs1(&self) -> (r: Reg)
        ensures
            r.id() == rs1_of(self.0),
    {
        reg_at(self.0, 19)
    }

    pub fn rs2(&self) -> (r: Reg)
        ensures
            r.id() == rs2_of(self.0),
    {
        reg_at(self.0, 24)
    }
}

/// `slt rd, rs1, rs2`.
#[derive(Clone, Copy, Debug, PartialEq, Eq, Structural)]
pub struct Slt(pub u32);

impl Slt {
    /// `w` encodes `slt`.
    pub open spec fn is_encoding(w: u32) -> bool {
        is_full(w)
        && major(w) == OPC_OP
        && funct3(w) == 2
        && funct7(w) == 0x0
    }

    pub fn rd(&self) -> (r: Reg)
        ensures
            r.id() == rd_of(self.0),
    {
        reg_at(self.0, 11)
    }

    pub fn rs1(&self) -> (r: Reg)
        ensures
            r.id() == rs1_of(self.0),
    {
        reg_at(self.0, 19)
    }

    pub fn rs2(&self) -> (r: Reg)
        ensures
            r.id() == rs2_of(self.0),
    {
        reg_at(self.0, 24)
    }
}

/// `sltu rd, rs1, rs2`.
#[derive(Clone, Copy, Debug, PartialEq, Eq, Structural)]
pub struct Sltu(pub u32);

impl Sltu {
    /// `w` encodes `sltu`.
    pub open spec fn is_encoding(w: u32) -> bool {
        is_full(w)
        && major(w) == OPC_OP
        && funct3(w) == 3
        && funct7(w) == 0x0
    }

    pub fn rd(&self) -> (r: Reg)
        ensures
            r.id() == rd_of(self.0),
    {
        reg_at(self.0, 11)
    }

    pub fn rs1(&self) -> (r: Reg)
        ensures
            r.id() == rs1_of(self.0),
    {
        reg_at(self.0, 19)
    }

    pub fn rs2(&self) -> (r: Reg)
        ensures
            r.id() == rs2_of(self.0),
    {
        reg_at(self.0, 24)
    }
}

/// `xor rd, rs1, rs2`.
#[derive(Clone, Copy, Debug, PartialEq, Eq, Structural)]
pub struct Xor(pub u32);

impl Xor {
    /// `w` encodes `xor`.
    pub open spec fn is_encoding(w: u32) -> bool {
        is_full(w)
        && major(w) == OPC_OP
        && funct3(w) == 4
        && funct7(w) == 0x0
    }

    pub fn rd(&self) -> (r: Reg)
        ensures
            r.id() == rd_of(self.0),
    {
        reg_at(self.0, 11)
    }

    pub fn rs1(&self) -> (r: Reg)
        ensures
            r.id() == rs1_of(self.0),
    {
        reg_at(self.0, 19)
    }

    pub fn rs2(&self) -> (r: Reg)
        ensures
            r.id() == rs2_of(self.0),
    {
        reg_at(self.0, 24)
    }
}

/// `srl rd, rs1, rs2`.
#[derive(Clone, Copy, Debug, PartialEq, Eq, Structural)]
pub struct Srl(pub u32);

impl Srl {
    /// `w` encodes `srl`.
    pub open spec fn is_encoding(w: u32) -> bool {
        is_full(w)
        && major(w) == OPC_OP
        && funct3(w) == 5
        && funct7(w) == 0x0
    }

    pub fn rd(&self) -> (r: Reg)
        ensures
            r.id() == rd_of(self.0),
    {
        reg_at(self.0, 11)
    }

    pub fn rs1(&self) -> (r: Reg)
        ensures
            r.id() == rs1_of(self.0),
    {
        reg_at(self.0, 19)
    }

    pub fn rs2(&self) -> (r: Reg)
        ensures
            r.id() == rs2_of(self.0),
    {
        reg_at(self.0, 24)
    }
}

/// `sra rd, rs1, rs2`.
#[derive(Clone, Copy, Debug, PartialEq, Eq, Structural)]
pub struct Sra(pub u32);

impl Sra {
    /// `w` encodes `sra`.
    pub open spec fn is_encoding(w: u32) -> bool {
        is_full(w)
        && major(w) == OPC_OP
        && funct3(w) == 5
        && funct7(w) == 0x20
    }

    pub fn rd(&self) -> (r: Reg)
        ensures
            r.id() == rd_of(self.0),
    {
        reg_at(self.0, 11)
    }

    pub fn rs1(&self) -> (r: Reg)
        ensures
            r.id() == rs1_of(self.0),
    {
        reg_at(self.0, 19)
    }

    pub fn rs2(&self) -> (r: Reg)
        ensures
            r.id() == rs2_of(self.0),
    {
        reg_at(self.0, 24)
    }
}

/// `or rd, rs1, rs2`.
#[derive(Clone, Copy, Debug, PartialEq, Eq, Structural)]
pub struct Or(pub u32);

impl Or {
    /// `w` encodes `or`.
    pub open spec fn is_encoding(w: u32) -> bool {
        is_full(w)
        && major(w) == OPC_OP
        && funct3(w) == 6
        && funct7(w) == 0x0
    }

    pub fn rd(&self) -> (r: Reg)
        ensures
            r.id() == rd_of(self.0),
    {
        reg_at(self.0, 11)
    }

    pub fn rs1(&self) -> (r: Reg)
        ensures
            r.id() == rs1_of(self.0),
    {
        reg_at(self.0, 19)
    }

    pub fn rs2(&self) -> (r: Reg)
        ensures
            r.id() == rs2_of(self.0),
    {
        reg_at(self.0, 24)
    }
}

/// `and rd, rs1, rs2`.
#[derive(Clone, Copy, Debug, PartialEq, Eq, Structural)]
pub struct And(pub u32);

impl And {
    /// `w` encodes `and`.
    pub open spec fn is_encoding(w: u32) -> bool {
        is_full(w)
        && major(w) == OPC_OP
        && funct3(w) == 7
        && funct7(w) == 0x0
    }

    pub fn rd(&self) -> (r: Reg)
        ensures
            r.id() == rd_of(self.0),
    {
        reg_at(self.0, 11)
    }

    pub fn rs1(&self) -> (r: Reg)
        ensures
            r.id() == rs1_of(self.0),
    {
        reg_at(self.0, 19)
    }

    pub fn rs2(&self) -> (r: Reg)
        ensures
            r.id() == rs2_of(self.0),
    {
        reg_at(self.0, 24)
    }
}

/// `fence pred, succ`.
#[derive(Clone, Copy, Debug, PartialEq, Eq, Structural)]
pub struct Fence(pub u32);

impl Fence {
    /// `w` encodes `fence`.
    pub open spec fn is_encoding(w: u32) -> bool {
        is_full(w)
        && major(w) == OPC_MISC_MEM
        && funct3(w) == 0
    }

    pub fn pred(&self) -> (r: u32)
        ensures
            r == field(self.0, 27, 24),
    {
        bits_of(self.0, 27, 24)
    }

    pub fn succ(&self) -> (r: u32)
        ensures
            r == field(self.0, 23, 20),
    {
        bits_of(self.0, 23, 20)
    }
}

/// `fence.i`.
#[derive(Clone, Copy, Debug, PartialEq, Eq, Structural)]
pub struct FenceI(pub u32);

impl FenceI {
    /// `w` encodes `fence.i`.
    pub open spec fn is_encoding(w: u32) -> bool {
        is_full(w)
        && major(w) == OPC_MISC_MEM
        && funct3(w) == 1
    }
}

/// `ecall`.
#[derive(Clone, Copy, Debug, PartialEq, Eq, Structural)]
pub struct Ecall(pub u32);

impl Ecall {
    /// `w` encodes `ecall`.
    pub open spec fn is_encoding(w: u32) -> bool {
        is_full(w)
        && major(w) == OPC_SYSTEM
        && funct3(w) == 0
        && rd_of(w) == 0
        && rs1_of(w) == 0
        && funct7(w) == 0
        && rs2_of(w) == 0
    }
}

/// `ebreak`.
#[derive(Clone, Copy, Debug, PartialEq, Eq, Structural)]
pub struct Ebreak(pub u32);

impl Ebreak {
    /// `w` encodes `ebreak`.
    pub open spec fn is_encoding(w: u32) -> bool {
        is_full(w)
        && major(w) == OPC_SYSTEM
        && funct3(w) == 0
        && rd_of(w) == 0
        && rs1_of(w) == 0
        && funct7(w) == 0
        && rs2_of(w) == 1
    }
}

/// `unimp (csrrw x0, cycle, x0)`.
#[derive(Clone, Copy, Debug, PartialEq, Eq, Structural)]
pub struct Unimp(pub u32);

impl Unimp {
    /// `w` encodes `unimp`.
    pub open spec fn is_encoding(w: u32) -> bool {
        is_unimp(w)
    }
}

} // verus!
