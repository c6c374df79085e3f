//! The 64-bit base integer instructions (RV64I): the RV32I set with 6-bit
//! shift amounts, plus the doubleword loads and stores and the word-sized
//! arithmetic. Their encodings and operand fields only; the hart runs RV32.
use crate::bits::{bits5_of, bits_of, field};
use crate::encoding::{OPC_AUIPC, OPC_BRANCH, OPC_JAL, OPC_JALR, OPC_LOAD, OPC_LUI, OPC_MISC_MEM, OPC_OP, OPC_OP_32, OPC_OP_IMM, OPC_OP_IMM_32, OPC_STORE, funct3, funct6, funct7, is_full, major};
use crate::formats::{b_imm, b_imm_of, i_imm, i_imm_of, j_imm, j_imm_of, rd_of, reg_at, rs1_of, rs2_of, s_imm, s_imm_of, shamt6_at, u_imm, u_imm_of};
use crate::reg::Reg;
use vstd::prelude::*;

verus! {

/// A decoded instruction of this subset; each variant wraps the raw word.
#[derive(Clone, Copy, Debug, PartialEq, Eq, Structural)]
pub enum Rv64i {
    Lui(Lui),
    Auipc(Auipc),
    Jal(Jal),
    Jalr(Jalr),
    Beq(Beq),
    Bne(Bne),
    Blt(Blt),
    Bge(Bge),
    Bltu(Bltu),
    Bgeu(Bgeu),
    Lb(Lb),
    Lh(Lh),
    Lw(Lw),
    Lbu(Lbu),
    Lhu(Lhu),
    Sb(Sb),
    Sh(Sh),
    Sw(Sw),
    Addi(Addi),
    Slti(Slti),
    Sltiu(Sltiu),
    Xori(Xori),
    Ori(Ori),
    Andi(Andi),
    Add(Add),
    Sub(Sub),
    Sll(Sll),
    Slt(Slt),
    Sltu(Sltu),
    Xor(Xor),
    Srl(Srl),
    Sra(Sra),
    Or(Or),
    And(And),
    Fence(Fence),
    FenceI(FenceI),
    Lwu(Lwu),
    Ld(Ld),
    Sd(Sd),
    Slli(Slli),
    Srli(Srli),
    Srai(Srai),
    Addiw(Addiw),
    Slliw(Slliw),
    Srliw(Srliw),
    Sraiw(Sraiw),
    Addw(Addw),
    Subw(Subw),
    Sllw(Sllw),
    Srlw(Srlw),
    Sraw(Sraw),
}

impl Rv64i {
    /// The instruction word this value was decoded from.
    pub open spec fn raw(self) -> u32 {
        match self {
            Rv64i::Lui(x) => x.0,
            Rv64i::Auipc(x) => x.0,
            Rv64i::Jal(x) => x.0,
            Rv64i::Jalr(x) => x.0,
            Rv64i::Beq(x) => x.0,
            Rv64i::Bne(x) => x.0,
            Rv64i::Blt(x) => x.0,
            Rv64i::Bge(x) => x.0,
            Rv64i::Bltu(x) => x.0,
            Rv64i::Bgeu(x) => x.0,
            Rv64i::Lb(x) => x.0,
            Rv64i::Lh(x) => x.0,
            Rv64i::Lw(x) => x.0,
            Rv64i::Lbu(x) => x.0,
            Rv64i::Lhu(x) => x.0,
            Rv64i::Sb(x) => x.0,
            Rv64i::Sh(x) => x.0,
            Rv64i::Sw(x) => x.0,
            Rv64i::Addi(x) => x.0,
            Rv64i::Slti(x) => x.0,
            Rv64i::Sltiu(x) => x.0,
            Rv64i::Xori(x) => x.0,
            Rv64i::Ori(x) => x.0,
            Rv64i::Andi(x) => x.0,
            Rv64i::Add(x) => x.0,
            Rv64i::Sub(x) => x.0,
            Rv64i::Sll(x) => x.0,
            Rv64i::Slt(x) => x.0,
            Rv64i::Sltu(x) => x.0,
            Rv64i::Xor(x) => x.0,
            Rv64i::Srl(x) => x.0,
            Rv64i::Sra(x) => x.0,
            Rv64i::Or(x) => x.0,
            Rv64i::And(x) => x.0,
            Rv64i::Fence(x) => x.0,
            Rv64i::FenceI(x) => x.0,
            Rv64i::Lwu(x) => x.0,
            Rv64i::Ld(x) => x.0,
            Rv64i::Sd(x) => x.0,
            Rv64i::Slli(x) => x.0,
            Rv64i::Srli(x) => x.0,
            Rv64i::Srai(x) => x.0,
            Rv64i::Addiw(x) => x.0,
            Rv64i::Slliw(x) => x.0,
            Rv64i::Srliw(x) => x.0,
            Rv64i::Sraiw(x) => x.0,
            Rv64i::Addw(x) => x.0,
            Rv64i::Subw(x) => x.0,
            Rv64i::Sllw(x) => x.0,
            Rv64i::Srlw(x) => x.0,
            Rv64i::Sraw(x) => x.0,
        }
    }

    /// The wrapped word is an encoding of the variant's mnemonic.
    pub open spec fn valid(self) -> bool {
        match self {
            Rv64i::Lui(x) => Lui::is_encoding(x.0),
            Rv64i::Auipc(x) => Auipc::is_encoding(x.0),
            Rv64i::Jal(x) => Jal::is_encoding(x.0),
            Rv64i::Jalr(x) => Jalr::is_encoding(x.0),
            Rv64i::Beq(x) => Beq::is_encoding(x.0),
            Rv64i::Bne(x) => Bne::is_encoding(x.0),
            Rv64i::Blt(x) => Blt::is_encoding(x.0),
            Rv64i::Bge(x) => Bge::is_encoding(x.0),
            Rv64i::Bltu(x) => Bltu::is_encoding(x.0),
            Rv64i::Bgeu(x) => Bgeu::is_encoding(x.0),
            Rv64i::Lb(x) => Lb::is_encoding(x.0),
            Rv64i::Lh(x) => Lh::is_encoding(x.0),
            Rv64i::Lw(x) => Lw::is_encoding(x.0),
            Rv64i::Lbu(x) => Lbu::is_encoding(x.0),
            Rv64i::Lhu(x) => Lhu::is_encoding(x.0),
            Rv64i::Sb(x) => Sb::is_encoding(x.0),
            Rv64i::Sh(x) => Sh::is_encoding(x.0),
            Rv64i::Sw(x) => Sw::is_encoding(x.0),
            Rv64i::Addi(x) => Addi::is_encoding(x.0),
            Rv64i::Slti(x) => Slti::is_encoding(x.0),
            Rv64i::Sltiu(x) => Sltiu::is_encoding(x.0),
            Rv64i::Xori(x) => Xori::is_encoding(x.0),
            Rv64i::Ori(x) => Ori::is_encoding(x.0),
            Rv64i::Andi(x) => Andi::is_encoding(x.0),
            Rv64i::Add(x) => Add::is_encoding(x.0),
            Rv64i::Sub(x) => Sub::is_encoding(x.0),
            Rv64i::Sll(x) => Sll::is_encoding(x.0),
            Rv64i::Slt(x) => Slt::is_encoding(x.0),
            Rv64i::Sltu(x) => Sltu::is_encoding(x.0),
            Rv64i::Xor(x) => Xor::is_encoding(x.0),
            Rv64i::Srl(x) => Srl::is_encoding(x.0),
            Rv64i::Sra(x) => Sra::is_encoding(x.0),
            Rv64i::Or(x) => Or::is_encoding(x.0),
            Rv64i::And(x) => And::is_encoding(x.0),
            Rv64i::Fence(x) => Fence::is_encoding(x.0),
            Rv64i::FenceI(x) => FenceI::is_encoding(x.0),
            Rv64i::Lwu(x) => Lwu::is_encoding(x.0),
            Rv64i::Ld(x) => Ld::is_encoding(x.0),
            Rv64i::Sd(x) => Sd::is_encoding(x.0),
            Rv64i::Slli(x) => Slli::is_encoding(x.0),
            Rv64i::Srli(x) => Srli::is_encoding(x.0),
            Rv64i::Srai(x) => Srai::is_encoding(x.0),
            Rv64i::Addiw(x) => Addiw::is_encoding(x.0),
            Rv64i::Slliw(x) => Slliw::is_encoding(x.0),
            Rv64i::Srliw(x) => Srliw::is_encoding(x.0),
            Rv64i::Sraiw(x) => Sraiw::is_encoding(x.0),
            Rv64i::Addw(x) => Addw::is_encoding(x.0),
            Rv64i::Subw(x) => Subw::is_encoding(x.0),
            Rv64i::Sllw(x) => Sllw::is_encoding(x.0),
            Rv64i::Srlw(x) => Srlw::is_encoding(x.0),
            Rv64i::Sraw(x) => Sraw::is_encoding(x.0),
        }
    }
}

/// `lui rd, imm`.
#[derive(Clone, Copy, Debug, PartialEq, Eq, Structural)]
pub struct Lui(pub u32);

impl Lui {
    /// `w` encodes `lui`.
    pub open spec fn is_encoding(w: u32) -> bool {
        is_full(w)
        && major(w) == OPC_LUI
    }

    pub fn rd(&self) -> (r: Reg)
        ensures
            r.id() == rd_of(self.0),
    {
        reg_at(self.0, 11)
    }

    pub fn imm(&self) -> (r: i32)
        ensures
            r as int == u_imm(self.0),
    {
        u_imm_of(self.0)
    }
}

/// `auipc rd, imm`.
#[derive(Clone, Copy, Debug, PartialEq, Eq, Structural)]
pub struct Auipc(pub u32);

impl Auipc {
    /// `w` encodes `auipc`.
    pub open spec fn is_encoding(w: u32) -> bool {
        is_full(w)
        && major(w) == OPC_AUIPC
    }

    pub fn rd(&self) -> (r: Reg)
        ensures
            r.id() == rd_of(self.0),
    {
        reg_at(self.0, 11)
    }

    pub fn imm(&self) -> (r: i32)
        ensures
            r as int == u_imm(self.0),
    {
        u_imm_of(self.0)
    }
}

/// `jal rd, offset`.
#[derive(Clone, Copy, Debug, PartialEq, Eq, Structural)]
pub struct Jal(pub u32);

impl Jal {
    /// `w` encodes `jal`.
    pub open spec fn is_encoding(w: u32) -> bool {
        is_full(w)
        && major(w) == OPC_JAL
    }

    pub fn rd(&self) -> (r: Reg)
        ensures
            r.id() == rd_of(self.0),
    {
        reg_at(self.0, 11)
    }

    pub fn imm(&self) -> (r: i32)
        ensures
            r as int == j_imm(self.0),
    {
        j_imm_of(self.0)
    }
}

/// `jalr rd, offset(rs1)`.
#[derive(Clone, Copy, Debug, PartialEq, Eq, Structural)]
pub struct Jalr(pub u32);

impl Jalr {
    /// `w` encodes `jalr`.
    pub open spec fn is_encoding(w: u32) -> bool {
        is_full(w)
        && major(w) == OPC_JALR
        && funct3(w) == 0
    }

    pub fn rd(&self) -> (r: Reg)
        ensures
            r.id() == rd_of(self.0),
    {
        reg_at(self.0, 11)
    }

    pub fn rs1(&self) -> (r: Reg)
        ensures
            r.id() == rs1_of(self.0),
    {
        reg_at(self.0, 19)
    }

    pub fn imm(&self) -> (r: i32)
        ensures
            r as int == i_imm(self.0),
    {
        i_imm_of(self.0)
    }
}

/// `beq rs1, rs2, offset`.
#[derive(Clone, Copy, Debug, PartialEq, Eq, Structural)]
pub struct Beq(pub u32);

impl Beq {
    /// `w` encodes `beq`.
    pub open spec fn is_encoding(w: u32) -> bool {
        is_full(w)
        && major(w) == OPC_BRANCH
        && funct3(w) == 0
    }

    pub fn rs1(&self) -> (r: Reg)
        ensures
            r.id() == rs1_of(self.0),
    {
        reg_at(self.0, 19)
    }

    pub fn rs2(&self) -> (r: Reg)
        ensures
            r.id() == rs2_of(self.0),
    {
        reg_at(self.0, 24)
    }

    pub fn imm(&self) -> (r: i32)
        ensures
            r as int == b_imm(self.0),
    {
        b_imm_of(self.0)
    }
}

/// `bne rs1, rs2, offset`.
#[derive(Clone, Copy, Debug, PartialEq, Eq, Structural)]
pub struct Bne(pub u32);

impl Bne {
    /// `w` encodes `bne`.
    pub open spec fn is_encoding(w: u32) -> bool {
        is_full(w)
        && major(w) == OPC_BRANCH
        && funct3(w) == 1
    }

    pub fn rs1(&self) -> (r: Reg)
        ensures
            r.id() == rs1_of(self.0),
    {
        reg_at(self.0, 19)
    }

    pub fn rs2(&self) -> (r: Reg)
        ensures
            r.id() == rs2_of(self.0),
    {
        reg_at(self.0, 24)
    }

    pub fn imm(&self) -> (r: i32)
        ensures
            r as int == b_imm(self.0),
    {
        b_imm_of(self.0)
    }
}

/// `blt rs1, rs2, offset`.
#[derive(Clone, Copy, Debug, PartialEq, Eq, Structural)]
pub struct Blt(pub u32);

impl Blt {
    /// `w` encodes `blt`.
    pub open spec fn is_encoding(w: u32) -> bool {
        is_full(w)
        && major(w) == OPC_BRANCH
        && funct3(w) == 4
    }

    pub fn rs1(&self) -> (r: Reg)
        ensures
            r.id() == rs1_of(self.0),
    {
        reg_at(self.0, 19)
    }

    pub fn rs2(&self) -> (r: Reg)
        ensures
            r.id() == rs2_of(self.0),
    {
        reg_at(self.0, 24)
    }

    pub fn imm(&self) -> (r: i32)
        ensures
            r as int == b_imm(self.0),
    {
        b_imm_of(self.0)
    }
}

/// `bge rs1, rs2, offset`.
#[derive(Clone, Copy, Debug, PartialEq, Eq, Structural)]
pub struct Bge(pub u32);

impl Bge {
    /// `w` encodes `bge`.
    pub open spec fn is_encoding(w: u32) -> bool {
        is_full(w)
        && major(w) == OPC_BRANCH
        && funct3(w) == 5
    }

    pub fn rs1(&self) -> (r: Reg)
        ensures
            r.id() == rs1_of(self.0),
    {
        reg_at(self.0, 19)
    }

    pub fn rs2(&self) -> (r: Reg)
        ensures
            r.id() == rs2_of(self.0),
    {
        reg_at(self.0, 24)
    }

    pub fn imm(&self) -> (r: i32)
        ensures
            r as int == b_imm(self.0),
    {
        b_imm_of(self.0)
    }
}

/// `bltu rs1, rs2, offset`.
#[derive(Clone, Copy, Debug, PartialEq, Eq, Structural)]
pub struct Bltu(pub u32);

impl Bltu {
    /// `w` encodes `bltu`.
    pub open spec fn is_encoding(w: u32) -> bool {
        is_full(w)
        && major(w) == OPC_BRANCH
        && funct3(w) == 6
    }

    pub fn rs1(&self) -> (r: Reg)
        ensures
            r.id() == rs1_of(self.0),
    {
        reg_at(self.0, 19)
    }

    pub fn rs2(&self) -> (r: Reg)
        ensures
            r.id() == rs2_of(self.0),
    {
        reg_at(self.0, 24)
    }

    pub fn imm(&self) -> (r: i32)
        ensures
            r as int == b_imm(self.0),
    {
        b_imm_of(self.0)
    }
}

/// `bgeu rs1, rs2, offset`.
#[derive(Clone, Copy, Debug, PartialEq, Eq, Structural)]
pub struct Bgeu(pub u32);

impl Bgeu {
    /// `w` encodes `bgeu`.
    pub open spec fn is_encoding(w: u32) -> bool {
        is_full(w)
        && major(w) == OPC_BRANCH
        && funct3(w) == 7
    }

    pub fn rs1(&self) -> (r: Reg)
        ensures
            r.id() == rs1_of(self.0),
    {
        reg_at(self.0, 19)
    }

    pub fn rs2(&self) -> (r: Reg)
        ensures
            r.id() == rs2_of(self.0),
    {
        reg_at(self.0, 24)
    }

    pub fn imm(&self) -> (r: i32)
        ensures
            r as int == b_imm(self.0),
    {
        b_imm_of(self.0)
    }
}

/// `lb rd, offset(rs1)`.
#[derive(Clone, Copy, Debug, PartialEq, Eq, Structural)]
pub struct Lb(pub u32);

impl Lb {
    /// `w` encodes `lb`.
    pub open spec fn is_encoding(w: u32) -> bool {
        is_full(w)
        && major(w) == OPC_LOAD
        && funct3(w) == 0
    }

    pub fn rd(&self) -> (r: Reg)
        ensures
            r.id() == rd_of(self.0),
    {
        reg_at(self.0, 11)
    }

    pub fn rs1(&self) -> (r: Reg)
        ensures
            r.id() == rs1_of(self.0),
    {
        reg_at(self.0, 19)
    }

    pub fn imm(&self) -> (r: i32)
        ensures
            r as int == i_imm(self.0),
    {
        i_imm_of(self.0)
    }
}

/// `lh rd, offset(rs1)`.
#[derive(Clone, Copy, Debug, PartialEq, Eq, Structural)]
pub struct Lh(pub u32);

impl Lh {
    /// `w` encodes `lh`.
    pub open spec fn is_encoding(w: u32) -> bool {
        is_full(w)
        && major(w) == OPC_LOAD
        && funct3(w) == 1
    }

    pub fn rd(&self) -> (r: Reg)
        ensures
            r.id() == rd_of(self.0),
    {
        reg_at(self.0, 11)
    }

    pub fn rs1(&self) -> (r: Reg)
        ensures
            r.id() == rs1_of(self.0),
    {
        reg_at(self.0, 19)
    }

    pub fn imm(&self) -> (r: i32)
        ensures
            r as int == i_imm(self.0),
    {
        i_imm_of(self.0)
    }
}

/// `lw rd, offset(rs1)`.
#[derive(Clone, Copy, Debug, PartialEq, Eq, Structural)]
pub struct Lw(pub u32);

impl Lw {
    /// `w` encodes `lw`.
    pub open spec fn is_encoding(w: u32) -> bool {
        is_full(w)
        && major(w) == OPC_LOAD
        && funct3(w) == 2
    }

    pub fn rd(&self) -> (r: Reg)
        ensures
            r.id() == rd_of(self.0),
    {
        reg_at(self.0, 11)
    }

    pub fn rs1(&self) -> (r: Reg)
        ensures
            r.id() == rs1_of(self.0),
    {
        reg_at(self.0, 19)
    }

    pub fn imm(&self) -> (r: i32)
        ensures
            r as int == i_imm(self.0),
    {
        i_imm_of(self.0)
    }
}

/// `lbu rd, offset(rs1)`.
#[derive(Clone, Copy, Debug, PartialEq, Eq, Structural)]
pub struct Lbu(pub u32);

impl Lbu {
    /// `w` encodes `lbu`.
    pub open spec fn is_encoding(w: u32) -> bool {
        is_full(w)
        && major(w) == OPC_LOAD
        && funct3(w) == 4
    }

    pub fn rd(&self) -> (r: Reg)
        ensures
            r.id() == rd_of(self.0),
    {
        reg_at(self.0, 11)
    }

    pub fn rs1(&self) -> (r: Reg)
        ensures
            r.id() == rs1_of(self.0),
    {
        reg_at(self.0, 19)
    }

    pub fn imm(&self) -> (r: i32)
        ensures
            r as int == i_imm(self.0),
    {
        i_imm_of(self.0)
    }
}

/// `lhu rd, offset(rs1)`.
#[derive(Clone, Copy, Debug, PartialEq, Eq, Structural)]
pub struct Lhu(pub u32);

impl Lhu {
    /// `w` encodes `lhu`.
    pub open spec fn is_encoding(w: u32) -> bool {
        is_full(w)
        && major(w) == OPC_LOAD
        && funct3(w) == 5
    }

    pub fn rd(&self) -> (r: Reg)
        ensures
            r.id() == rd_of(self.0),
    {
        reg_at(self.0, 11)
    }

    pub fn rs1(&self) -> (r: Reg)
        ensures
            r.id() == rs1_of(self.0),
    {
        reg_at(self.0, 19)
    }

    pub fn imm(&self) -> (r: i32)
        ensures
            r as int == i_imm(self.0),
    {
        i_imm_of(self.0)
    }
}

/// `sb rs2, offset(rs1)`.
#[derive(Clone, Copy, Debug, PartialEq, Eq, Structural)]
pub struct Sb(pub u32);

impl Sb {
    /// `w` encodes `sb`.
    pub open spec fn is_encoding(w: u32) -> bool {
        is_full(w)
        && major(w) == OPC_STORE
        && funct3(w) == 0
    }

    pub fn rs1(&self) -> (r: Reg)
        ensures
            r.id() == rs1_of(self.0),
    {
        reg_at(self.0, 19)
    }

    pub fn rs2(&self) -> (r: Reg)
        ensures
            r.id() == rs2_of(self.0),
    {
        reg_at(self.0, 24)
    }

    pub fn imm(&self) -> (r: i32)
        ensures
            r as int == s_imm(self.0),
    {
        s_imm_of(self.0)
    }
}

/// `sh rs2, offset(rs1)`.
#[derive(Clone, Copy, Debug, PartialEq, Eq, Structural)]
pub struct Sh(pub u32);

impl Sh {
    /// `w` encodes `sh`.
    pub open spec fn is_encoding(w: u32) -> bool {
        is_full(w)
        && major(w) == OPC_STORE
        && funct3(w) == 1
    }

    pub fn rs1(&self) -> (r: Reg)
        ensures
            r.id() == rs1_of(self.0),
    {
        reg_at(self.0, 19)
    }

    pub fn rs2(&self) -> (r: Reg)
        ensures
            r.id() == rs2_of(self.0),
    {
        reg_at(self.0, 24)
    }

    pub fn imm(&self) -> (r: i32)
        ensures
            r as int == s_imm(self.0),
    {
        s_imm_of(self.0)
    }
}

/// `sw rs2, offset(rs1)`.
#[derive(Clone, Copy, Debug, PartialEq, Eq, Structural)]
pub struct Sw(pub u32);

impl Sw {
    /// `w` encodes `sw`.
    pub open spec fn is_encoding(w: u32) -> bool {
        is_full(w)
        && major(w) == OPC_STORE
        && funct3(w) == 2
    }

    pub fn rs1(&self) -> (r: Reg)
        ensures
            r.id() == rs1_of(self.0),
    {
        reg_at(self.0, 19)
    }

    pub fn rs2(&self) -> (r: Reg)
        ensures
            r.id() == rs2_of(self.0),
    {
        reg_at(self.0, 24)
    }

    pub fn imm(&self) -> (r: i32)
        ensures
            r as int == s_imm(self.0),
    {
        s_imm_of(self.0)
    }
}

/// `addi rd, rs1, imm`.
#[derive(Clone, Copy, Debug, PartialEq, Eq, Structural)]
pub struct Addi(pub u32);

impl Addi {
    /// `w` encodes `addi`.
    pub open spec fn is_encoding(w: u32) -> bool {
        is_full(w)
        && major(w) == OPC_OP_IMM
        && funct3(w) == 0
    }

    pub fn rd(&self) -> (r: Reg)
        ensures
            r.id() == rd_of(self.0),
    {
        reg_at(self.0, 11)
    }

    pub fn rs1(&self) -> (r: Reg)
        ensures
            r.id() == rs1_of(self.0),
    {
        reg_at(self.0, 19)
    }

    pub fn imm(&self) -> (r: i32)
        ensures
            r as int == i_imm(self.0),
    {
        i_imm_of(self.0)
    }
}

/// `slti rd, rs1, imm`.
#[derive(Clone, Copy, Debug, PartialEq, Eq, Structural)]
pub struct Slti(pub u32);

impl Slti {
    /// `w` encodes `slti`.
    pub open spec fn is_encoding(w: u32) -> bool {
        is_full(w)
        && major(w) == OPC_OP_IMM
        && funct3(w) == 2
    }

    pub fn rd(&self) -> (r: Reg)
        ensures
            r.id() == rd_of(self.0),
    {
        reg_at(self.0, 11)
    }

    pub fn rs1(&self) -> (r: Reg)
        ensures
            r.id() == rs1_of(self.0),
    {
        reg_at(self.0, 19)
    }

    pub fn imm(&self) -> (r: i32)
        ensures
            r as int == i_imm(self.0),
    {
        i_imm_of(self.0)
    }
}

/// `sltiu rd, rs1, imm`.
#[derive(Clone, Copy, Debug, PartialEq, Eq, Structural)]
pub struct Sltiu(pub u32);

impl Sltiu {
    /// `w` encodes `sltiu`.
    pub open spec fn is_encoding(w: u32) -> bool {
        is_full(w)
        && major(w) == OPC_OP_IMM
        && funct3(w) == 3
    }

    pub fn rd(&self) -> (r: Reg)
        ensures
            r.id() == rd_of(self.0),
    {
        reg_at(self.0, 11)
    }

    pub fn rs1(&self) -> (r: Reg)
        ensures
            r.id() == rs1_of(self.0),
    {
        reg_at(self.0, 19)
    }

    pub fn imm(&self) -> (r: i32)
        ensures
            r as int == i_imm(self.0),
    {
        i_imm_of(self.0)
    }
}

/// `xori rd, rs1, imm`.
#[derive(Clone, Copy, Debug, PartialEq, Eq, Structural)]
pub struct Xori(pub u32);

impl Xori {
    /// `w` encodes `xori`.
    pub open spec fn is_encoding(w: u32) -> bool {
        is_full(w)
        && major(w) == OPC_OP_IMM
        && funct3(w) == 4
    }

    pub fn rd(&self) -> (r: Reg)
        ensures
            r.id() == rd_of(self.0),
    {
        reg_at(self.0, 11)
    }

    pub fn rs1(&self) -> (r: Reg)
        ensures
            r.id() == rs1_of(self.0),
    {
        reg_at(self.0, 19)
    }

    pub fn imm(&self) -> (r: i32)
        ensures
            r as int == i_imm(self.0),
    {
        i_imm_of(self.0)
    }
}

/// `ori rd, rs1, imm`.
#[derive(Clone, Copy, Debug, PartialEq, Eq, Structural)]
pub struct Ori(pub u32);

impl Ori {
    /// `w` encodes `ori`.
    pub open spec fn is_encoding(w: u32) -> bool {
        is_full(w)
        && major(w) == OPC_OP_IMM
        && funct3(w) == 6
    }

    pub fn rd(&self) -> (r: Reg)
        ensures
            r.id() == rd_of(self.0),
    {
        reg_at(self.0, 11)
    }

    pub fn rs1(&self) -> (r: Reg)
        ensures
            r.id() == rs1_of(self.0),
    {
        reg_at(self.0, 19)
    }

    pub fn imm(&self) -> (r: i32)
        ensures
            r as int == i_imm(self.0),
    {
        i_imm_of(self.0)
    }
}

/// `andi rd, rs1, imm`.
#[derive(Clone, Copy, Debug, PartialEq, Eq, Structural)]
pub struct Andi(pub u32);

impl Andi {
    /// `w` encodes `andi`.
    pub open spec fn is_encoding(w: u32) -> bool {
        is_full(w)
        && major(w) == OPC_OP_IMM
        && funct3(w) == 7
    }

    pub fn rd(&self) -> (r: Reg)
        ensures
            r.id() == rd_of(self.0),
    {
        reg_at(self.0, 11)
    }

    pub fn rs1(&self) -> (r: Reg)
        ensures
            r.id() == rs1_of(self.0),
    {
        reg_at(self.0, 19)
    }

    pub fn imm(&self) -> (r: i32)
        ensures
            r as int == i_imm(self.0),
    {
        i_imm_of(self.0)
    }
}

/// `add rd, rs1, rs2`.
#[derive(Clone, Copy, Debug, PartialEq, Eq, Structural)]
pub struct Add(pub u32);

impl Add {
    /// `w` encodes `add`.
    pub open spec fn is_encoding(w: u32) -> bool {
        is_full(w)
        && major(w) == OPC_OP
        && funct3(w) == 0
        && funct7(w) == 0x0
    }

    pub fn rd(&self) -> (r: Reg)
        ensures
            r.id() == rd_of(self.0),
    {
        reg_at(self.0, 11)
    }

    pub fn rs1(&self) -> (r: Reg)
        ensures
            r.id() == rs1_of(self.0),
    {
        reg_at(self.0, 19)
    }

    pub fn rs2(&self) -> (r: Reg)
        ensures
            r.id() == rs2_of(self.0),
    {
        reg_at(self.0, 24)
    }
}

/// `sub rd, rs1, rs2`.
#[derive(Clone, Copy, Debug, PartialEq, Eq, Structural)]
pub struct Sub(pub u32);

impl Sub {
    /// `w` encodes `sub`.
    pub open spec fn is_encoding(w: u32) -> bool {
        is_full(w)
        && major(w) == OPC_OP
        && funct3(w) == 0
        && funct7(w) == 0x20
    }

    pub fn rd(&self) -> (r: Reg)
        ensures
            r.id() == rd_of(self.0),
    {
        reg_at(self.0, 11)
    }

    pub fn rs1(&self) -> (r: Reg)
        ensures
            r.id() == rs1_of(self.0),
    {
        reg_at(self.0, 19)
    }

    pub fn rs2(&self) -> (r: Reg)
        ensures
            r.id() == rs2_of(self.0),
    {
        reg_at(self.0, 24)
    }
}

/// `sll rd, rs1, rs2`.
#[derive(Clone, Copy, Debug, PartialEq, Eq, Structural)]
pub struct Sll(pub u32);

impl Sll {
    /// `w` encodes `sll`.
    pub open spec fn is_encoding(w: u32) -> bool {
        is_full(w)
        && major(w) == OPC_OP
        && funct3(w) == 1
        && funct7(w) == 0x0
    }

    pub fn rd(&self) -> (r: Reg)
        ensures
            r.id() == rd_of(self.0),
    {
        reg_at(self.0, 11)
    }

    pub fn rs1(&self) -> (r: Reg)
        ensures
            r.id() == rs1_of(self.0),
    {
        reg_at(self.0, 19)
    }

    pub fn rs2(&self) -> (r: Reg)
        ensures
            r.id() == rs2_of(self.0),
    {
        reg_at(self.0, 24)
    }
}

/// `slt rd, rs1, rs2`.
#[derive(Clone, Copy, Debug, PartialEq, Eq, Structural)]
pub struct Slt(pub u32);

impl Slt {
    /// `w` encodes `slt`.
    pub open spec fn is_encoding(w: u32) -> bool {
        is_full(w)
        && major(w) == OPC_OP
        && funct3(w) == 2
        && funct7(w) == 0x0
    }

    pub fn rd(&self) -> (r: Reg)
        ensures
            r.id() == rd_of(self.0),
    {
        reg_at(self.0, 11)
    }

    pub fn rs1(&self) -> (r: Reg)
        ensures
            r.id() == rs1_of(self.0),
    {
        reg_at(self.0, 19)
    }

    pub fn rs2(&self) -> (r: Reg)
        ensures
            r.id() == rs2_of(self.0),
    {
        reg_at(self.0, 24)
    }
}

/// `sltu rd, rs1, rs2`.
#[derive(Clone, Copy, Debug, PartialEq, Eq, Structural)]
pub struct Sltu(pub u32);

impl Sltu {
    /// `w` encodes `sltu`.
    pub open spec fn is_encoding(w: u32) -> bool {
        is_full(w)
        && major(w) == OPC_OP
        && funct3(w) == 3
        && funct7(w) == 0x0
    }

    pub fn rd(&self) -> (r: Reg)
        ensures
            r.id() == rd_of(self.0),
    {
        reg_at(self.0, 11)
    }

    pub fn rs1(&self) -> (r: Reg)
        ensures
            r.id() == rs1_of(self.0),
    {
        reg_at(self.0, 19)
    }

    pub fn rs2(&self) -> (r: Reg)
        ensures
            r.id() == rs2_of(self.0),
    {
        reg_at(self.0, 24)
    }
}

/// `xor rd, rs1, rs2`.
#[derive(Clone, Copy, Debug, PartialEq, Eq, Structural)]
pub struct Xor(pub u32);

impl Xor {
    /// `w` encodes `xor`.
    pub open spec fn is_encoding(w: u32) -> bool {
        is_full(w)
        && major(w) == OPC_OP
        && funct3(w) == 4
        && funct7(w) == 0x0
    }

    pub fn rd(&self) -> (r: Reg)
        ensures
            r.id() == rd_of(self.0),
    {
        reg_at(self.0, 11)
    }

    pub fn rs1(&self) -> (r: Reg)
        ensures
            r.id() == rs1_of(self.0),
    {
        reg_at(self.0, 19)
    }

    pub fn rs2(&self) -> (r: Reg)
        ensures
            r.id() == rs2_of(self.0),
    {
        reg_at(self.0, 24)
    }
}

/// `srl rd, rs1, rs2`.
#[derive(Clone, Copy, Debug, PartialEq, Eq, Structural)]
pub struct Srl(pub u32);

impl Srl {
    /// `w` encodes `srl`.
    pub open spec fn is_encoding(w: u32) -> bool {
        is_full(w)
        && major(w) == OPC_OP
        && funct3(w) == 5
        && funct7(w) == 0x0
    }

    pub fn rd(&self) -> (r: Reg)
        ensures
            r.id() == rd_of(self.0),
    {
        reg_at(self.0, 11)
    }

    pub fn rs1(&self) -> (r: Reg)
        ensures
            r.id() == rs1_of(self.0),
    {
        reg_at(self.0, 19)
    }

    pub fn rs2(&self) -> (r: Reg)
        ensures
            r.id() == rs2_of(self.0),
    {
        reg_at(self.0, 24)
    }
}

/// `sra rd, rs1, rs2`.
#[derive(Clone, Copy, Debug, PartialEq, Eq, Structural)]
pub struct Sra(pub u32);

impl Sra {
    /// `w` encodes `sra`.
    pub open spec fn is_encoding(w: u32) -> bool {
        is_full(w)
        && major(w) == OPC_OP
        && funct3(w) == 5
        && funct7(w) == 0x20
    }

    pub fn rd(&self) -> (r: Reg)
        ensures
            r.id() == rd_of(self.0),
    {
        reg_at(self.0, 11)
    }

    pub fn rs1(&self) -> (r: Reg)
        ensures
            r.id() == rs1_of(self.0),
    {
        reg_at(self.0, 19)
    }

    pub fn rs2(&self) -> (r: Reg)
        ensures
            r.id() == rs2_of(self.0),
    {
        reg_at(self.0, 24)
    }
}

/// `or rd, rs1, rs2`.
#[derive(Clone, Copy, Debug, PartialEq, Eq, Structural)]
pub struct Or(pub u32);

impl Or {
    /// `w` encodes `or`.
    pub open spec fn is_encoding(w: u32) -> bool {
        is_full(w)
        && major(w) == OPC_OP
        && funct3(w) == 6
        && funct7(w) == 0x0
    }

    pub fn rd(&self) -> (r: Reg)
        ensures
            r.id() == rd_of(self.0),
    {
        reg_at(self.0, 11)
    }

    pub fn rs1(&self) -> (r: Reg)
        ensures
            r.id() == rs1_of(self.0),
    {
        reg_at(self.0, 19)
    }

    pub fn rs2(&self) -> (r: Reg)
        ensures
            r.id() == rs2_of(self.0),
    {
        reg_at(self.0, 24)
    }
}

/// `and rd, rs1, rs2`.
#[derive(Clone, Copy, Debug, PartialEq, Eq, Structural)]
pub struct And(pub u32);

impl And {
    /// `w` encodes `and`.
    pub open spec fn is_encoding(w: u32) -> bool {
        is_full(w)
        && major(w) == OPC_OP
        && funct3(w) == 7
        && funct7(w) == 0x0
    }

    pub fn rd(&self) -> (r: Reg)
        ensures
            r.id() == rd_of(self.0),
    {
        reg_at(self.0, 11)
    }

    pub fn rs1(&self) -> (r: Reg)
        ensures
            r.id() == rs1_of(self.0),
    {
        reg_at(self.0, 19)
    }

    pub fn rs2(&self) -> (r: Reg)
        ensures
            r.id() == rs2_of(self.0),
    {
        reg_at(self.0, 24)
    }
}

/// `fence pred, succ`.
#[derive(Clone, Copy, Debug, PartialEq, Eq, Structural)]
pub struct Fence(pub u32);

impl Fence {
    /// `w` encodes `fence`.
    pub open spec fn is_encoding(w: u32) -> bool {
        is_full(w)
        && major(w) == OPC_MISC_MEM
        && funct3(w) == 0
    }

    pub fn pred(&self) -> (r: u32)
        ensures
            r == field(self.0, 27, 24),
    {
        bits_of(self.0, 27, 24)
    }

    pub fn succ(&self) -> (r: u32)
        ensures
            r == field(self.0, 23, 20),
    {
        bits_of(self.0, 23, 20)
    }
}

/// `fence.i`.
#[derive(Clone, Copy, Debug, PartialEq, Eq, Structural)]
pub struct FenceI(pub u32);

impl FenceI {
    /// `w` encodes `fence.i`.
    pub open spec fn is_encoding(w: u32) -> bool {
        is_full(w)
        && major(w) == OPC_MISC_MEM
        && funct3(w) == 1
    }
}

/// `lwu rd, offset(rs1)`.
#[derive(Clone, Copy, Debug, PartialEq, Eq, Structural)]
pub struct Lwu(pub u32);

impl Lwu {
    /// `w` encodes `lwu`.
    pub open spec fn is_encoding(w: u32) -> bool {
        is_full(w)
        && major(w) == OPC_LOAD
        && funct3(w) == 6
    }

    pub fn rd(&self) -> (r: Reg)
        ensures
            r.id() == rd_of(self.0),
    {
        reg_at(self.0, 11)
    }

    pub fn rs1(&self) -> (r: Reg)
        ensures
            r.id() == rs1_of(self.0),
    {
        reg_at(self.0, 19)
    }

    pub fn imm(&self) -> (r: i32)
        ensures
            r as int == i_imm(self.0),
    {
        i_imm_of(self.0)
    }
}

/// `ld rd, offset(rs1)`.
#[derive(Clone, Copy, Debug, PartialEq, Eq, Structural)]
pub struct Ld(pub u32);

impl Ld {
    /// `w` encodes `ld`.
    pub open spec fn is_encoding(w: u32) -> bool {
        is_full(w)
        && major(w) == OPC_LOAD
        && funct3(w) == 3
    }

    pub fn rd(&self) -> (r: Reg)
        ensures
            r.id() == rd_of(self.0),
    {
        reg_at(self.0, 11)
    }

    pub fn rs1(&self) -> (r: Reg)
        ensures
            r.id() == rs1_of(self.0),
    {
        reg_at(self.0, 19)
    }

    pub fn imm(&self) -> (r: i32)
        ensures
            r as int == i_imm(self.0),
    {
        i_imm_of(self.0)
    }
}

/// `sd rs2, offset(rs1)`.
#[derive(Clone, Copy, Debug, PartialEq, Eq, Structural)]
pub struct Sd(pub u32);

impl Sd {
    /// `w` encodes `sd`.
    pub open spec fn is_encoding(w: u32) -> bool {
        is_full(w)
        && major(w) == OPC_STORE
        && funct3(w) == 3
    }

    pub fn rs1(&self) -> (r: Reg)
        ensures
            r.id() == rs1_of(self.0),
    {
        reg_at(self.0, 19)
    }

    pub fn rs2(&self) -> (r: Reg)
        ensures
            r.id() == rs2_of(self.0),
    {
        reg_at(self.0, 24)
    }

    pub fn imm(&self) -> (r: i32)
        ensures
            r as int == s_imm(self.0),
    {
        s_imm_of(self.0)
    }
}

/// `slli rd, rs1, shamt`.
#[derive(Clone, Copy, Debug, PartialEq, Eq, Structural)]
pub struct Slli(pub u32);

impl Slli {
    /// `w` encodes `slli`.
    pub open spec fn is_encoding(w: u32) -> bool {
        is_full(w)
        && major(w) == OPC_OP_IMM
        && funct3(w) == 1
        && funct6(w) == 0
    }

    pub fn rd(&self) -> (r: Reg)
        ensures
            r.id() == rd_of(self.0),
    {
        reg_at(self.0, 11)
    }

    pub fn rs1(&self) -> (r: Reg)
        ensures
            r.id() == rs1_of(self.0),
    {
        reg_at(self.0, 19)
    }

    pub fn shamt(&self) -> (r: u32)
        ensures
            r == field(self.0, 25, 20),
            r < 64,
    {
        shamt6_at(self.0)
    }
}

/// `srli rd, rs1, shamt`.
#[derive(Clone, Copy, Debug, PartialEq, Eq, Structural)]
pub struct Srli(pub u32);

impl Srli {
    /// `w` encodes `srli`.
    pub open spec fn is_encoding(w: u32) -> bool {
        is_full(w)
        && major(w) == OPC_OP_IMM
        && funct3(w) == 5
        && funct6(w) == 0
    }

    pub fn rd(&self) -> (r: Reg)
        ensures
            r.id() == rd_of(self.0),
    {
        reg_at(self.0, 11)
    }

    pub fn rs1(&self) -> (r: Reg)
        ensures
            r.id() == rs1_of(self.0),
    {
        reg_at(self.0, 19)
    }

    pub fn shamt(&self) -> (r: u32)
        ensures
            r == field(self.0, 25, 20),
            r < 64,
    {
        shamt6_at(self.0)
    }
}

/// `srai rd, rs1, shamt`.
#[derive(Clone, Copy, Debug, PartialEq, Eq, Structural)]
pub struct Srai(pub u32);

impl Srai {
    /// `w` encodes `srai`.
    pub open spec fn is_encoding(w: u32) -> bool {
        is_full(w)
        && major(w) == OPC_OP_IMM
        && funct3(w) == 5
        && funct6(w) == 0x10
    }

    pub fn rd(&self) -> (r: Reg)
        ensures
            r.id() == rd_of(self.0),
    {
        reg_at(self.0, 11)
    }

    pub fn rs1(&self) -> (r: Reg)
        ensures
            r.id() == rs1_of(self.0),
    {
        reg_at(self.0, 19)
    }

    pub fn shamt(&self) -> (r: u32)
        ensures
            r == field(self.0, 25, 20),
            r < 64,
    {
        shamt6_at(self.0)
    }
}

/// `addiw rd, rs1, imm`.
#[derive(Clone, Copy, Debug, PartialEq, Eq, Structural)]
pub struct Addiw(pub u32);

impl Addiw {
    /// `w` encodes `addiw`.
    pub open spec fn is_encoding(w: u32) -> bool {
        is_full(w)
        && major(w) == OPC_OP_IMM_32
        && funct3(w) == 0
    }

    pub fn rd(&self) -> (r: Reg)
        ensures
            r.id() == rd_of(self.0),
    {
        reg_at(self.0, 11)
    }

    pub fn rs1(&self) -> (r: Reg)
        ensures
            r.id() == rs1_of(self.0),
    {
        reg_at(self.0, 19)
    }

    pub fn imm(&self) -> (r: i32)
        ensures
            r as int == i_imm(self.0),
    {
        i_imm_of(self.0)
    }
}

/// `slliw rd, rs1, shamt`.
#[derive(Clone, Copy, Debug, PartialEq, Eq, Structural)]
pub struct Slliw(pub u32);

impl Slliw {
    /// `w` encodes `slliw`.
    pub open spec fn is_encoding(w: u32) -> bool {
        is_full(w)
        && major(w) == OPC_OP_IMM_32
        && funct3(w) == 1
        && funct7(w) == 0
    }

    pub fn rd(&self) -> (r: Reg)
        ensures
            r.id() == rd_of(self.0),
    {
        reg_at(self.0, 11)
    }

    pub fn rs1(&self) -> (r: Reg)
        ensures
            r.id() == rs1_of(self.0),
    {
        reg_at(self.0, 19)
    }

    pub fn shamt(&self) -> (r: u32)
        ensures
            r == field(self.0, 24, 20),
            r < 32,
    {
        bits5_of(self.0, 24)
    }
}

/// `srliw rd, rs1, shamt`.
#[derive(Clone, Copy, Debug, PartialEq, Eq, Structural)]
pub struct Srliw(pub u32);

impl Srliw {
    /// `w` encodes `srliw`.
    pub open spec fn is_encoding(w: u32) -> bool {
        is_full(w)
        && major(w) == OPC_OP_IMM_32
        && funct3(w) == 5
        && funct7(w) == 0
    }

    pub fn rd(&self) -> (r: Reg)
        ensures
            r.id() == rd_of(self.0),
    {
        reg_at(self.0, 11)
    }

    pub fn rs1(&self) -> (r: Reg)
        ensures
            r.id() == rs1_of(self.0),
    {
        reg_at(self.0, 19)
    }

    pub fn shamt(&self) -> (r: u32)
        ensures
            r == field(self.0, 24, 20),
            r < 32,
    {
        bits5_of(self.0, 24)
    }
}

/// `sraiw rd, rs1, shamt`.
#[derive(Clone, Copy, Debug, PartialEq, Eq, Structural)]
pub struct Sraiw(pub u32);

impl Sraiw {
    /// `w` encodes `sraiw`.
    pub open spec fn is_encoding(w: u32) -> bool {
        is_full(w)
        && major(w) == OPC_OP_IMM_32
        && funct3(w) == 5
        && funct7(w) == 0x20
    }

    pub fn rd(&self) -> (r: Reg)
        ensures
            r.id() == rd_of(self.0),
    {
        reg_at(self.0, 11)
    }

    pub fn rs1(&self) -> (r: Reg)
        ensures
            r.id() == rs1_of(self.0),
    {
        reg_at(self.0, 19)
    }

    pub fn shamt(&self) -> (r: u32)
        ensures
            r == field(self.0, 24, 20),
            r < 32,
    {
        bits5_of(self.0, 24)
    }
}

/// `addw rd, rs1, rs2`.
#[derive(Clone, Copy, Debug, PartialEq, Eq, Structural)]
pub struct Addw(pub u32);

impl Addw {
    /// `w` encodes `addw`.
    pub open spec fn is_encoding(w: u32) -> bool {
        is_full(w)
        && major(w) == OPC_OP_32
        && funct3(w) == 0
        && funct7(w) == 0x0
    }

    pub fn rd(&self) -> (r: Reg)
        ensures
            r.id() == rd_of(self.0),
    {
        reg_at(self.0, 11)
    }

    pub fn rs1(&self) -> (r: Reg)
        ensures
            r.id() == rs1_of(self.0),
    {
        reg_at(self.0, 19)
    }

    pub fn rs2(&self) -> (r: Reg)
        ensures
            r.id() == rs2_of(self.0),
    {
        reg_at(self.0, 24)
    }
}

/// `subw rd, rs1, rs2`.
#[derive(Clone, Copy, Debug, PartialEq, Eq, Structural)]
pub struct Subw(pub u32);

impl Subw {
    /// `w` encodes `subw`.
    pub open spec fn is_encoding(w: u32) -> bool {
        is_full(w)
        && major(w) == OPC_OP_32
        && funct3(w) == 0
        && funct7(w) == 0x20
    }

    pub fn rd(&self) -> (r: Reg)
        ensures
            r.id() == rd_of(self.0),
    {
        reg_at(self.0, 11)
    }

    pub fn rs1(&self) -> (r: Reg)
        ensures
            r.id() == rs1_of(self.0),
    {
        reg_at(self.0, 19)
    }

    pub fn rs2(&self) -> (r: Reg)
        ensures
            r.id() == rs2_of(self.0),
    {
        reg_at(self.0, 24)
    }
}

/// `sllw rd, rs1, rs2`.
#[derive(Clone, Copy, Debug, PartialEq, Eq, Structural)]
pub struct Sllw(pub u32);

impl Sllw {
    /// `w` encodes `sllw`.
    pub open spec fn is_encoding(w: u32) -> bool {
        is_full(w)
        && major(w) == OPC_OP_32
        && funct3(w) == 1
        && funct7(w) == 0x0
    }

    pub fn rd(&self) -> (r: Reg)
        ensures
            r.id() == rd_of(self.0),
    {
        reg_at(self.0, 11)
    }

    pub fn rs1(&self) -> (r: Reg)
        ensures
            r.id() == rs1_of(self.0),
    {
        reg_at(self.0, 19)
    }

    pub fn rs2(&self) -> (r: Reg)
        ensures
            r.id() == rs2_of(self.0),
    {
        reg_at(self.0, 24)
    }
}

/// `srlw rd, rs1, rs2`.
#[derive(Clone, Copy, Debug, PartialEq, Eq, Structural)]
pub struct Srlw(pub u32);

impl Srlw {
    /// `w` encodes `srlw`.
    pub open spec fn is_encoding(w: u32) -> bool {
        is_full(w)
        && major(w) == OPC_OP_32
        && funct3(w) == 5
        && funct7(w) == 0x0
    }

    pub fn rd(&self) -> (r: Reg)
        ensures
            r.id() == rd_of(self.0),
    {
        reg_at(self.0, 11)
    }

    pub fn rs1(&self) -> (r: Reg)
        ensures
            r.id() == rs1_of(self.0),
    {
        reg_at(self.0, 19)
    }

    pub fn rs2(&self) -> (r: Reg)
        ensures
            r.id() == rs2_of(self.0),
    {
        reg_at(self.0, 24)
    }
}

/// `sraw rd, rs1, rs2`.
#[derive(Clone, Copy, Debug, PartialEq, Eq, Structural)]
pub struct Sraw(pub u32);

impl Sraw {
    /// `w` encodes `sraw`.
    pub open spec fn is_encoding(w: u32) -> bool {
        is_full(w)
        && major(w) == OPC_OP_32
        && funct3(w) == 5
        && funct7(w) == 0x20
    }

    pub fn rd(&self) -> (r: Reg)
        ensures
            r.id() == rd_of(self.0),
    {
        reg_at(self.0, 11)
    }

    pub fn rs1(&self) -> (r: Reg)
        ensures
            r.id() == rs1_of(self.0),
    {
        reg_at(self.0, 19)
    }

    pub fn rs2(&self) -> (r: Reg)
        ensures
            r.id() == rs2_of(self.0),
    {
        reg_at(self.0, 24)
    }
}

} // verus!
