//! The double-precision floating-point instructions (D extension). They
//! are decoded, with their operand fields, but not executed.
use crate::bits::{bits_of, field};
use crate::encoding::{OPC_LOAD_FP, OPC_MADD, OPC_MSUB, OPC_NMADD, OPC_NMSUB, OPC_OP_FP, OPC_STORE_FP, fmt, funct3, funct7, is_full, major};
use crate::formats::{freg_at, i_imm, i_imm_of, rd_of, reg_at, rs1_of, rs2_of, rs3_of, s_imm, s_imm_of};
use crate::reg::{FReg, Reg};
use vstd::prelude::*;

verus! {

/// A decoded instruction of this subset; each variant wraps the raw word.
#[derive(Clone, Copy, Debug, PartialEq, Eq, Structural)]
pub enum Rv32d {
    Fld(Fld),
    Fsd(Fsd),
    FmaddD(FmaddD),
    FmsubD(FmsubD),
    FnmsubD(FnmsubD),
    FnmaddD(FnmaddD),
    FaddD(FaddD),
    FsubD(FsubD),
    FmulD(FmulD),
    FdivD(FdivD),
    FsgnjD(FsgnjD),
    FsgnjnD(FsgnjnD),
    FsgnjxD(FsgnjxD),
    FminD(FminD),
    FmaxD(FmaxD),
    FcvtSD(FcvtSD),
    FcvtDS(FcvtDS),
    FsqrtD(FsqrtD),
    FleD(FleD),
    FltD(FltD),
    FeqD(FeqD),
    FcvtWD(FcvtWD),
    FcvtWuD(FcvtWuD),
    FcvtDW(FcvtDW),
    FcvtDWu(FcvtDWu),
    FclassD(FclassD),
}

impl Rv32d {
    /// The instruction word this value was decoded from.
    pub open spec fn raw(self) -> u32 {
        match self {
            Rv32d::Fld(x) => x.0,
            Rv32d::Fsd(x) => x.0,
            Rv32d::FmaddD(x) => x.0,
            Rv32d::FmsubD(x) => x.0,
            Rv32d::FnmsubD(x) => x.0,
            Rv32d::FnmaddD(x) => x.0,
            Rv32d::FaddD(x) => x.0,
            Rv32d::FsubD(x) => x.0,
            Rv32d::FmulD(x) => x.0,
            Rv32d::FdivD(x) => x.0,
            Rv32d::FsgnjD(x) => x.0,
            Rv32d::FsgnjnD(x) => x.0,
            Rv32d::FsgnjxD(x) => x.0,
            Rv32d::FminD(x) => x.0,
            Rv32d::FmaxD(x) => x.0,
            Rv32d::FcvtSD(x) => x.0,
            Rv32d::FcvtDS(x) => x.0,
            Rv32d::FsqrtD(x) => x.0,
            Rv32d::FleD(x) => x.0,
            Rv32d::FltD(x) => x.0,
            Rv32d::FeqD(x) => x.0,
            Rv32d::FcvtWD(x) => x.0,
            Rv32d::FcvtWuD(x) => x.0,
            Rv32d::FcvtDW(x) => x.0,
            Rv32d::FcvtDWu(x) => x.0,
            Rv32d::FclassD(x) => x.0,
        }
    }

    /// The wrapped word is an encoding of the variant's mnemonic.
    pub open spec fn valid(self) -> bool {
        match self {
            Rv32d::Fld(x) => Fld::is_encoding(x.0),
            Rv32d::Fsd(x) => Fsd::is_encoding(x.0),
            Rv32d::FmaddD(x) => FmaddD::is_encoding(x.0),
            Rv32d::FmsubD(x) => FmsubD::is_encoding(x.0),
            Rv32d::FnmsubD(x) => FnmsubD::is_encoding(x.0),
            Rv32d::FnmaddD(x) => FnmaddD::is_encoding(x.0),
            Rv32d::FaddD(x) => FaddD::is_encoding(x.0),
            Rv32d::FsubD(x) => FsubD::is_encoding(x.0),
            Rv32d::FmulD(x) => FmulD::is_encoding(x.0),
            Rv32d::FdivD(x) => FdivD::is_encoding(x.0),
            Rv32d::FsgnjD(x) => FsgnjD::is_encoding(x.0),
            Rv32d::FsgnjnD(x) => FsgnjnD::is_encoding(x.0),
            Rv32d::FsgnjxD(x) => FsgnjxD::is_encoding(x.0),
            Rv32d::FminD(x) => FminD::is_encoding(x.0),
            Rv32d::FmaxD(x) => FmaxD::is_encoding(x.0),
            Rv32d::FcvtSD(x) => FcvtSD::is_encoding(x.0),
            Rv32d::FcvtDS(x) => FcvtDS::is_encoding(x.0),
            Rv32d::FsqrtD(x) => FsqrtD::is_encoding(x.0),
            Rv32d::FleD(x) => FleD::is_encoding(x.0),
            Rv32d::FltD(x) => FltD::is_encoding(x.0),
            Rv32d::FeqD(x) => FeqD::is_encoding(x.0),
            Rv32d::FcvtWD(x) => FcvtWD::is_encoding(x.0),
            Rv32d::FcvtWuD(x) => FcvtWuD::is_encoding(x.0),
            Rv32d::FcvtDW(x) => FcvtDW::is_encoding(x.0),
            Rv32d::FcvtDWu(x) => FcvtDWu::is_encoding(x.0),
            Rv32d::FclassD(x) => FclassD::is_encoding(x.0),
        }
    }
}

/// `fld frd, offset(rs1)`.
#[derive(Clone, Copy, Debug, PartialEq, Eq, Structural)]
pub struct Fld(pub u32);

impl Fld {
    /// `w` encodes `fld`.
    pub open spec fn is_encoding(w: u32) -> bool {
        is_full(w)
        && major(w) == OPC_LOAD_FP
        && funct3(w) == 3
    }

    pub fn frd(&self) -> (r: FReg)
        ensures
            r.id() == rd_of(self.0),
    {
        freg_at(self.0, 11)
    }

    pub fn rs1(&self) -> (r: Reg)
        ensures
            r.id() == rs1_of(self.0),
    {
        reg_at(self.0, 19)
    }

    pub fn imm(&self) -> (r: i32)
        ensures
            r as int == i_imm(self.0),
    {
        i_imm_of(self.0)
    }
}

/// `fsd frs2, offset(rs1)`.
#[derive(Clone, Copy, Debug, PartialEq, Eq, Structural)]
pub struct Fsd(pub u32);

impl Fsd {
    /// `w` encodes `fsd`.
    pub open spec fn is_encoding(w: u32) -> bool {
        is_full(w)
        && major(w) == OPC_STORE_FP
        && funct3(w) == 3
    }

    pub fn rs1(&self) -> (r: Reg)
        ensures
            r.id() == rs1_of(self.0),
    {
        reg_at(self.0, 19)
    }

    pub fn frs2(&self) -> (r: FReg)
        ensures
            r.id() == rs2_of(self.0),
    {
        freg_at(self.0, 24)
    }

    pub fn imm(&self) -> (r: i32)
        ensures
            r as int == s_imm(self.0),
    {
        s_imm_of(self.0)
    }
}

/// `fmadd.d frd, frs1, frs2, frs3`.
#[derive(Clone, Copy, Debug, PartialEq, Eq, Structural)]
pub struct FmaddD(pub u32);

impl FmaddD {
    /// `w` encodes `fmadd.d`.
    pub open spec fn is_encoding(w: u32) -> bool {
        is_full(w)
        && major(w) == OPC_MADD
        && fmt(w) == 1
    }

    pub fn frd(&self) -> (r: FReg)
        ensures
            r.id() == rd_of(self.0),
    {
        freg_at(self.0, 11)
    }

    pub fn frs1(&self) -> (r: FReg)
        ensures
            r.id() == rs1_of(self.0),
    {
        freg_at(self.0, 19)
    }

    pub fn frs2(&self) -> (r: FReg)
        ensures
            r.id() == rs2_of(self.0),
    {
        freg_at(self.0, 24)
    }

    pub fn frs3(&self) -> (r: FReg)
        ensures
            r.id() == rs3_of(self.0),
    {
        freg_at(self.0, 31)
    }

    pub fn rm(&self) -> (r: u32)
        ensures
            r == field(self.0, 14, 12),
    {
        bits_of(self.0, 14, 12)
    }
}

/// `fmsub.d frd, frs1, frs2, frs3`.
#[derive(Clone, Copy, Debug, PartialEq, Eq, Structural)]
pub struct FmsubD(pub u32);

impl FmsubD {
    /// `w` encodes `fmsub.d`.
    pub open spec fn is_encoding(w: u32) -> bool {
        is_full(w)
        && major(w) == OPC_MSUB
        && fmt(w) == 1
    }

    pub fn frd(&self) -> (r: FReg)
        ensures
            r.id() == rd_of(self.0),
    {
        freg_at(self.0, 11)
    }

    pub fn frs1(&self) -> (r: FReg)
        ensures
            r.id() == rs1_of(self.0),
    {
        freg_at(self.0, 19)
    }

    pub fn frs2(&self) -> (r: FReg)
        ensures
            r.id() == rs2_of(self.0),
    {
        freg_at(self.0, 24)
    }

    pub fn frs3(&self) -> (r: FReg)
        ensures
            r.id() == rs3_of(self.0),
    {
        freg_at(self.0, 31)
    }

    pub fn rm(&self) -> (r: u32)
        ensures
            r == field(self.0, 14, 12),
    {
        bits_of(self.0, 14, 12)
    }
}

/// `fnmsub.d frd, frs1, frs2, frs3`.
#[derive(Clone, Copy, Debug, PartialEq, Eq, Structural)]
pub struct FnmsubD(pub u32);

impl FnmsubD {
    /// `w` encodes `fnmsub.d`.
    pub open spec fn is_encoding(w: u32) -> bool {
        is_full(w)
        && major(w) == OPC_NMSUB
        && fmt(w) == 1
    }

    pub fn frd(&self) -> (r: FReg)
        ensures
            r.id() == rd_of(self.0),
    {
        freg_at(self.0, 11)
    }

    pub fn frs1(&self) -> (r: FReg)
        ensures
            r.id() == rs1_of(self.0),
    {
        freg_at(self.0, 19)
    }

    pub fn frs2(&self) -> (r: FReg)
        ensures
            r.id() == rs2_of(self.0),
    {
        freg_at(self.0, 24)
    }

    pub fn frs3(&self) -> (r: FReg)
        ensures
            r.id() == rs3_of(self.0),
    {
        freg_at(self.0, 31)
    }

    pub fn rm(&self) -> (r: u32)
        ensures
            r == field(self.0, 14, 12),
    {
        bits_of(self.0, 14, 12)
    }
}

/// `fnmadd.d frd, frs1, frs2, frs3`.
#[derive(Clone, Copy, Debug, PartialEq, Eq, Structural)]
pub struct FnmaddD(pub u32);

impl FnmaddD {
    /// `w` encodes `fnmadd.d`.
    pub open spec fn is_encoding(w: u32) -> bool {
        is_full(w)
        && major(w) == OPC_NMADD
        && fmt(w) == 1
    }

    pub fn frd(&self) -> (r: FReg)
        ensures
            r.id() == rd_of(self.0),
    {
        freg_at(self.0, 11)
    }

    pub fn frs1(&self) -> (r: FReg)
        ensures
            r.id() == rs1_of(self.0),
    {
        freg_at(self.0, 19)
    }

    pub fn frs2(&self) -> (r: FReg)
        ensures
            r.id() == rs2_of(self.0),
    {
        freg_at(self.0, 24)
    }

    pub fn frs3(&self) -> (r: FReg)
        ensures
            r.id() == rs3_of(self.0),
    {
        freg_at(self.0, 31)
    }

    pub fn rm(&self) -> (r: u32)
        ensures
            r == field(self.0, 14, 12),
    {
        bits_of(self.0, 14, 12)
    }
}

/// `fadd.d frd, frs1, frs2`.
#[derive(Clone, Copy, Debug, PartialEq, Eq, Structural)]
pub struct FaddD(pub u32);

impl FaddD {
    /// `w` encodes `fadd.d`.
    pub open spec fn is_encoding(w: u32) -> bool {
        is_full(w)
        && major(w) == OPC_OP_FP
        && funct7(w) == 0x1
    }

    pub fn frd(&self) -> (r: FReg)
        ensures
            r.id() == rd_of(self.0),
    {
        freg_at(self.0, 11)
    }

    pub fn frs1(&self) -> (r: FReg)
        ensures
            r.id() == rs1_of(self.0),
    {
        freg_at(self.0, 19)
    }

    pub fn frs2(&self) -> (r: FReg)
        ensures
            r.id() == rs2_of(self.0),
    {
        freg_at(self.0, 24)
    }

    pub fn rm(&self) -> (r: u32)
        ensures
            r == field(self.0, 14, 12),
    {
        bits_of(self.0, 14, 12)
    }
}

/// `fsub.d frd, frs1, frs2`.
#[derive(Clone, Copy, Debug, PartialEq, Eq, Structural)]
pub struct FsubD(pub u32);

impl FsubD {
    /// `w` encodes `fsub.d`.
    pub open spec fn is_encoding(w: u32) -> bool {
        is_full(w)
        && major(w) == OPC_OP_FP
        && funct7(w) == 0x5
    }

    pub fn frd(&self) -> (r: FReg)
        ensures
            r.id() == rd_of(self.0),
    {
        freg_at(self.0, 11)
    }

    pub fn frs1(&self) -> (r: FReg)
        ensures
            r.id() == rs1_of(self.0),
    {
        freg_at(self.0, 19)
    }

    pub fn frs2(&self) -> (r: FReg)
        ensures
            r.id() == rs2_of(self.0),
    {
        freg_at(self.0, 24)
    }

    pub fn rm(&self) -> (r: u32)
        ensures
            r == field(self.0, 14, 12),
    {
        bits_of(self.0, 14, 12)
    }
}

/// `fmul.d frd, frs1, frs2`.
#[derive(Clone, Copy, Debug, PartialEq, Eq, Structural)]
pub struct FmulD(pub u32);

impl FmulD {
    /// `w` encodes `fmul.d`.
    pub open spec fn is_encoding(w: u32) -> bool {
        is_full(w)
        && major(w) == OPC_OP_FP
        && funct7(w) == 0x9
    }

    pub fn frd(&self) -> (r: FReg)
        ensures
            r.id() == rd_of(self.0),
    {
        freg_at(self.0, 11)
    }

    pub fn frs1(&self) -> (r: FReg)
        ensures
            r.id() == rs1_of(self.0),
    {
        freg_at(self.0, 19)
    }

    pub fn frs2(&self) -> (r: FReg)
        ensures
            r.id() == rs2_of(self.0),
    {
        freg_at(self.0, 24)
    }

    pub fn rm(&self) -> (r: u32)
        ensures
            r == field(self.0, 14, 12),
    {
        bits_of(self.0, 14, 12)
    }
}

/// `fdiv.d frd, frs1, frs2`.
#[derive(Clone, Copy, Debug, PartialEq, Eq, Structural)]
pub struct FdivD(pub u32);

impl FdivD {
    /// `w` encodes `fdiv.d`.
    pub open spec fn is_encoding(w: u32) -> bool {
        is_full(w)
        && major(w) == OPC_OP_FP
        && funct7(w) == 0xd
    }

    pub fn frd(&self) -> (r: FReg)
        ensures
            r.id() == rd_of(self.0),
    {
        freg_at(self.0, 11)
    }

    pub fn frs1(&self) -> (r: FReg)
        ensures
            r.id() == rs1_of(self.0),
    {
        freg_at(self.0, 19)
    }

    pub fn frs2(&self) -> (r: FReg)
        ensures
            r.id() == rs2_of(self.0),
    {
        freg_at(self.0, 24)
    }

    pub fn rm(&self) -> (r: u32)
        ensures
            r == field(self.0, 14, 12),
    {
        bits_of(self.0, 14, 12)
    }
}

/// `fsgnj.d frd, frs1, frs2`.
#[derive(Clone, Copy, Debug, PartialEq, Eq, Structural)]
pub struct FsgnjD(pub u32);

impl FsgnjD {
    /// `w` encodes `fsgnj.d`.
    pub open spec fn is_encoding(w: u32) -> bool {
        is_full(w)
        && major(w) == OPC_OP_FP
        && funct7(w) == 0x11
        && funct3(w) == 0
    }

    pub fn frd(&self) -> (r: FReg)
        ensures
            r.id() == rd_of(self.0),
    {
        freg_at(self.0, 11)
    }

    pub fn frs1(&self) -> (r: FReg)
        ensures
            r.id() == rs1_of(self.0),
    {
        freg_at(self.0, 19)
    }

    pub fn frs2(&self) -> (r: FReg)
        ensures
            r.id() == rs2_of(self.0),
    {
        freg_at(self.0, 24)
    }
}

/// `fsgnjn.d frd, frs1, frs2`.
#[derive(Clone, Copy, Debug, PartialEq, Eq, Structural)]
pub struct FsgnjnD(pub u32);

impl FsgnjnD {
    /// `w` encodes `fsgnjn.d`.
    pub open spec fn is_encoding(w: u32) -> bool {
        is_full(w)
        && major(w) == OPC_OP_FP
        && funct7(w) == 0x11
        && funct3(w) == 1
    }

    pub fn frd(&self) -> (r: FReg)
        ensures
            r.id() == rd_of(self.0),
    {
        freg_at(self.0, 11)
    }

    pub fn frs1(&self) -> (r: FReg)
        ensures
            r.id() == rs1_of(self.0),
    {
        freg_at(self.0, 19)
    }

    pub fn frs2(&self) -> (r: FReg)
        ensures
            r.id() == rs2_of(self.0),
    {
        freg_at(self.0, 24)
    }
}

/// `fsgnjx.d frd, frs1, frs2`.
#[derive(Clone, Copy, Debug, PartialEq, Eq, Structural)]
pub struct FsgnjxD(pub u32);

impl FsgnjxD {
    /// `w` encodes `fsgnjx.d`.
    pub open spec fn is_encoding(w: u32) -> bool {
        is_full(w)
        && major(w) == OPC_OP_FP
        && funct7(w) == 0x11
        && funct3(w) == 2
    }

    pub fn frd(&self) -> (r: FReg)
        ensures
            r.id() == rd_of(self.0),
    {
        freg_at(self.0, 11)
    }

    pub fn frs1(&self) -> (r: FReg)
        ensures
            r.id() == rs1_of(self.0),
    {
        freg_at(self.0, 19)
    }

    pub fn frs2(&self) -> (r: FReg)
        ensures
            r.id() == rs2_of(self.0),
    {
        freg_at(self.0, 24)
    }
}

/// `fmin.d frd, frs1, frs2`.
#[derive(Clone, Copy, Debug, PartialEq, Eq, Structural)]
pub struct FminD(pub u32);

impl FminD {
    /// `w` encodes `fmin.d`.
    pub open spec fn is_encoding(w: u32) -> bool {
        is_full(w)
        && major(w) == OPC_OP_FP
        && funct7(w) == 0x15
        && funct3(w) == 0
    }

    pub fn frd(&self) -> (r: FReg)
        ensures
            r.id() == rd_of(self.0),
    {
        freg_at(self.0, 11)
    }

    pub fn frs1(&self) -> (r: FReg)
        ensures
            r.id() == rs1_of(self.0),
    {
        freg_at(self.0, 19)
    }

    pub fn frs2(&self) -> (r: FReg)
        ensures
            r.id() == rs2_of(self.0),
    {
        freg_at(self.0, 24)
    }
}

/// `fmax.d frd, frs1, frs2`.
#[derive(Clone, Copy, Debug, PartialEq, Eq, Structural)]
pub struct FmaxD(pub u32);

impl FmaxD {
    /// `w` encodes `fmax.d`.
    pub open spec fn is_encoding(w: u32) -> bool {
        is_full(w)
        && major(w) == OPC_OP_FP
        && funct7(w) == 0x15
        && funct3(w) == 1
    }

    pub fn frd(&self) -> (r: FReg)
        ensures
            r.id() == rd_of(self.0),
    {
        freg_at(self.0, 11)
    }

    pub fn frs1(&self) -> (r: FReg)
        ensures
            r.id() == rs1_of(self.0),
    {
        freg_at(self.0, 19)
    }

    pub fn frs2(&self) -> (r: FReg)
        ensures
            r.id() == rs2_of(self.0),
    {
        freg_at(self.0, 24)
    }
}

/// `fcvt.s.d frd, frs1`.
#[derive(Clone, Copy, Debug, PartialEq, Eq, Structural)]
pub struct FcvtSD(pub u32);

impl FcvtSD {
    /// `w` encodes `fcvt.s.d`.
    pub open spec fn is_encoding(w: u32) -> bool {
        is_full(w)
        && major(w) == OPC_OP_FP
        && funct7(w) == 0x20
        && rs2_of(w) == 1
    }

    pub fn frd(&self) -> (r: FReg)
        ensures
            r.id() == rd_of(self.0),
    {
        freg_at(self.0, 11)
    }

    pub fn frs1(&self) -> (r: FReg)
        ensures
            r.id() == rs1_of(self.0),
    {
        freg_at(self.0, 19)
    }

    pub fn rm(&self) -> (r: u32)
        ensures
            r == field(self.0, 14, 12),
    {
        bits_of(self.0, 14, 12)
    }
}

/// `fcvt.d.s frd, frs1`.
#[derive(Clone, Copy, Debug, PartialEq, Eq, Structural)]
pub struct FcvtDS(pub u32);

impl FcvtDS {
    /// `w` encodes `fcvt.d.s`.
    pub open spec fn is_encoding(w: u32) -> bool {
        is_full(w)
        && major(w) == OPC_OP_FP
        && funct7(w) == 0x21
        && rs2_of(w) == 0
    }

    pub fn frd(&self) -> (r: FReg)
        ensures
            r.id() == rd_of(self.0),
    {
        freg_at(self.0, 11)
    }

    pub fn frs1(&self) -> (r: FReg)
        ensures
            r.id() == rs1_of(self.0),
    {
        freg_at(self.0, 19)
    }

    pub fn rm(&self) -> (r: u32)
        ensures
            r == field(self.0, 14, 12),
    {
        bits_of(self.0, 14, 12)
    }
}

/// `fsqrt.d frd, frs1`.
#[derive(Clone, Copy, Debug, PartialEq, Eq, Structural)]
pub struct FsqrtD(pub u32);

impl FsqrtD {
    /// `w` encodes `fsqrt.d`.
    pub open spec fn is_encoding(w: u32) -> bool {
        is_full(w)
        && major(w) == OPC_OP_FP
        && funct7(w) == 0x2d
        && rs2_of(w) == 0
    }

    pub fn frd(&self) -> (r: FReg)
        ensures
            r.id() == rd_of(self.0),
    {
        freg_at(self.0, 11)
    }

    pub fn frs1(&self) -> (r: FReg)
        ensures
            r.id() == rs1_of(self.0),
    {
        freg_at(self.0, 19)
    }

    pub fn rm(&self) -> (r: u32)
        ensures
            r == field(self.0, 14, 12),
    {
        bits_of(self.0, 14, 12)
    }
}

/// `fle.d rd, frs1, frs2`.
#[derive(Clone, Copy, Debug, PartialEq, Eq, Structural)]
pub struct FleD(pub u32);

impl FleD {
    /// `w` encodes `fle.d`.
    pub open spec fn is_encoding(w: u32) -> bool {
        is_full(w)
        && major(w) == OPC_OP_FP
        && funct7(w) == 0x51
        && funct3(w) == 0
    }

    pub fn rd(&self) -> (r: Reg)
        ensures
            r.id() == rd_of(self.0),
    {
        reg_at(self.0, 11)
    }

    pub fn frs1(&self) -> (r: FReg)
        ensures
            r.id() == rs1_of(self.0),
    {
        freg_at(self.0, 19)
    }

    pub fn frs2(&self) -> (r: FReg)
        ensures
            r.id() == rs2_of(self.0),
    {
        freg_at(self.0, 24)
    }
}

/// `flt.d rd, frs1, frs2`.
#[derive(Clone, Copy, Debug, PartialEq, Eq, Structural)]
pub struct FltD(pub u32);

impl FltD {
    /// `w` encodes `flt.d`.
    pub open spec fn is_encoding(w: u32) -> bool {
        is_full(w)
        && major(w) == OPC_OP_FP
        && funct7(w) == 0x51
        && funct3(w) == 1
    }

    pub fn rd(&self) -> (r: Reg)
        ensures
            r.id() == rd_of(self.0),
    {
        reg_at(self.0, 11)
    }

    pub fn frs1(&self) -> (r: FReg)
        ensures
            r.id() == rs1_of(self.0),
    {
        freg_at(self.0, 19)
    }

    pub fn frs2(&self) -> (r: FReg)
        ensures
            r.id() == rs2_of(self.0),
    {
        freg_at(self.0, 24)
    }
}

/// `feq.d rd, frs1, frs2`.
#[derive(Clone, Copy, Debug, PartialEq, Eq, Structural)]
pub struct FeqD(pub u32);

impl FeqD {
    /// `w` encodes `feq.d`.
    pub open spec fn is_encoding(w: u32) -> bool {
        is_full(w)
        && major(w) == OPC_OP_FP
        && funct7(w) == 0x51
        && funct3(w) == 2
    }

    pub fn rd(&self) -> (r: Reg)
        ensures
            r.id() == rd_of(self.0),
    {
        reg_at(self.0, 11)
    }

    pub fn frs1(&self) -> (r: FReg)
        ensures
            r.id() == rs1_of(self.0),
    {
        freg_at(self.0, 19)
    }

    pub fn frs2(&self) -> (r: FReg)
        ensures
            r.id() == rs2_of(self.0),
    {
        freg_at(self.0, 24)
    }
}

/// `fcvt.w.d rd, frs1`.
#[derive(Clone, Copy, Debug, PartialEq, Eq, Structural)]
pub struct FcvtWD(pub u32);

impl FcvtWD {
    /// `w` encodes `fcvt.w.d`.
    pub open spec fn is_encoding(w: u32) -> bool {
        is_full(w)
        && major(w) == OPC_OP_FP
        && funct7(w) == 0x61
        && rs2_of(w) == 0
    }

    pub fn rd(&self) -> (r: Reg)
        ensures
            r.id() == rd_of(self.0),
    {
        reg_at(self.0, 11)
    }

    pub fn frs1(&self) -> (r: FReg)
        ensures
            r.id() == rs1_of(self.0),
    {
        freg_at(self.0, 19)
    }

    pub fn rm(&self) -> (r: u32)
        ensures
            r == field(self.0, 14, 12),
    {
        bits_of(self.0, 14, 12)
    }
}

/// `fcvt.wu.d rd, frs1`.
#[derive(Clone, Copy, Debug, PartialEq, Eq, Structural)]
pub struct FcvtWuD(pub u32);

impl FcvtWuD {
    /// `w` encodes `fcvt.wu.d`.
    pub open spec fn is_encoding(w: u32) -> bool {
        is_full(w)
        && major(w) == OPC_OP_FP
        && funct7(w) == 0x61
        && rs2_of(w) == 1
    }

    pub fn rd(&self) -> (r: Reg)
        ensures
            r.id() == rd_of(self.0),
    {
        reg_at(self.0, 11)
    }

    pub fn frs1(&self) -> (r: FReg)
        ensures
            r.id() == rs1_of(self.0),
    {
        freg_at(self.0, 19)
    }

    pub fn rm(&self) -> (r: u32)
        ensures
            r == field(self.0, 14, 12),
    {
        bits_of(self.0, 14, 12)
    }
}

/// `fcvt.d.w frd, rs1`.
#[derive(Clone, Copy, Debug, PartialEq, Eq, Structural)]
pub struct FcvtDW(pub u32);

impl FcvtDW {
    /// `w` encodes `fcvt.d.w`.
    pub open spec fn is_encoding(w: u32) -> bool {
        is_full(w)
        && major(w) == OPC_OP_FP
        && funct7(w) == 0x69
        && rs2_of(w) == 0
    }

    pub fn frd(&self) -> (r: FReg)
        ensures
            r.id() == rd_of(self.0),
    {
        freg_at(self.0, 11)
    }

    pub fn rs1(&self) -> (r: Reg)
        ensures
            r.id() == rs1_of(self.0),
    {
        reg_at(self.0, 19)
    }

    pub fn rm(&self) -> (r: u32)
        ensures
            r == field(self.0, 14, 12),
    {
        bits_of(self.0, 14, 12)
    }
}

/// `fcvt.d.wu frd, rs1`.
#[derive(Clone, Copy, Debug, PartialEq, Eq, Structural)]
pub struct FcvtDWu(pub u32);

impl FcvtDWu {
    /// `w` encodes `fcvt.d.wu`.
    pub open spec fn is_encoding(w: u32) -> bool {
        is_full(w)
        && major(w) == OPC_OP_FP
        && funct7(w) == 0x69
        && rs2_of(w) == 1
    }

    pub fn frd(&self) -> (r: FReg)
        ensures
            r.id() == rd_of(self.0),
    {
        freg_at(self.0, 11)
    }

    pub fn rs1(&self) -> (r: Reg)
        ensures
            r.id() == rs1_of(self.0),
    {
        reg_at(self.0, 19)
    }

    pub fn rm(&self) -> (r: u32)
        ensures
            r == field(self.0, 14, 12),
    {
        bits_of(self.0, 14, 12)
    }
}

/// `fclass.d rd, frs1`.
#[derive(Clone, Copy, Debug, PartialEq, Eq, Structural)]
pub struct FclassD(pub u32);

impl FclassD {
    /// `w` encodes `fclass.d`.
    pub open spec fn is_encoding(w: u32) -> bool {
        is_full(w)
        && major(w) == OPC_OP_FP
        && funct7(w) == 0x71
        && rs2_of(w) == 0
        && funct3(w) == 1
    }

    pub fn rd(&self) -> (r: Reg)
        ensures
            r.id() == rd_of(self.0),
    {
        reg_at(self.0, 11)
    }

    pub fn frs1(&self) -> (r: FReg)
        ensures
            r.id() == rs1_of(self.0),
    {
        freg_at(self.0, 19)
    }
}

} // verus!
