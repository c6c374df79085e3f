//! The 16-bit compressed instructions (C extension, RV32 forms).
use crate::bits::{bit, bits5_of, field};
use crate::encoding::{cfunct3, quadrant};
use crate::formats::{cb_imm, cb_imm_of, ci16sp_imm, ci16sp_imm_of, ci_imm, ci_imm_of, ciw_imm, ciw_imm_of, cj_imm, cj_imm_of, cl_imm, cl_imm_of, clui_imm, clui_imm_of, clwsp_imm, clwsp_imm_of, creg_at, creg_of, cshamt, cswsp_imm, cswsp_imm_of, rd_of, reg_at};
use crate::reg::Reg;
use vstd::prelude::*;

verus! {

/// A decoded instruction of this subset; each variant wraps the raw word.
#[derive(Clone, Copy, Debug, PartialEq, Eq, Structural)]
pub enum Rv32c {
    CAddi4spn(CAddi4spn),
    CLw(CLw),
    CSw(CSw),
    CAddi(CAddi),
    CAddi16sp(CAddi16sp),
    CLwsp(CLwsp),
    CSwsp(CSwsp),
    CNop(CNop),
    CJal(CJal),
    CLi(CLi),
    CLui(CLui),
    CSrli(CSrli),
    CSrai(CSrai),
    CAndi(CAndi),
    CSub(CSub),
    CXor(CXor),
    COr(COr),
    CAnd(CAnd),
    CJ(CJ),
    CBeqz(CBeqz),
    CBnez(CBnez),
    CSlli(CSlli),
    CJr(CJr),
    CMv(CMv),
    CEbreak(CEbreak),
    CJalr(CJalr),
    CAdd(CAdd),
    CUnimp(CUnimp),
}

impl Rv32c {
    /// The instruction word this value was decoded from.
    pub open spec fn raw(self) -> u32 {
        match self {
            Rv32c::CAddi4spn(x) => x.0,
            Rv32c::CLw(x) => x.0,
            Rv32c::CSw(x) => x.0,
            Rv32c::CAddi(x) => x.0,
            Rv32c::CAddi16sp(x) => x.0,
            Rv32c::CLwsp(x) => x.0,
            Rv32c::CSwsp(x) => x.0,
            Rv32c::CNop(x) => x.0,
            Rv32c::CJal(x) => x.0,
            Rv32c::CLi(x) => x.0,
            Rv32c::CLui(x) => x.0,
            Rv32c::CSrli(x) => x.0,
            Rv32c::CSrai(x) => x.0,
            Rv32c::CAndi(x) => x.0,
            Rv32c::CSub(x) => x.0,
            Rv32c::CXor(x) => x.0,
            Rv32c::COr(x) => x.0,
            Rv32c::CAnd(x) => x.0,
            Rv32c::CJ(x) => x.0,
            Rv32c::CBeqz(x) => x.0,
            Rv32c::CBnez(x) => x.0,
            Rv32c::CSlli(x) => x.0,
            Rv32c::CJr(x) => x.0,
            Rv32c::CMv(x) => x.0,
            Rv32c::CEbreak(x) => x.0,
            Rv32c::CJalr(x) => x.0,
            Rv32c::CAdd(x) => x.0,
            Rv32c::CUnimp(x) => x.0,
        }
    }

    /// The wrapped word is an encoding of the variant's mnemonic.
    pub open spec fn valid(self) -> bool {
        match self {
            Rv32c::CAddi4spn(x) => CAddi4spn::is_encoding(x.0),
            Rv32c::CLw(x) => CLw::is_encoding(x.0),
            Rv32c::CSw(x) => CSw::is_encoding(x.0),
            Rv32c::CAddi(x) => CAddi::is_encoding(x.0),
            Rv32c::CAddi16sp(x) => CAddi16sp::is_encoding(x.0),
            Rv32c::CLwsp(x) => CLwsp::is_encoding(x.0),
            Rv32c::CSwsp(x) => CSwsp::is_encoding(x.0),
            Rv32c::CNop(x) => CNop::is_encoding(x.0),
            Rv32c::CJal(x) => CJal::is_encoding(x.0),
            Rv32c::CLi(x) => CLi::is_encoding(x.0),
            Rv32c::CLui(x) => CLui::is_encoding(x.0),
            Rv32c::CSrli(x) => CSrli::is_encoding(x.0),
            Rv32c::CSrai(x) => CSrai::is_encoding(x.0),
            Rv32c::CAndi(x) => CAndi::is_encoding(x.0),
            Rv32c::CSub(x) => CSub::is_encoding(x.0),
            Rv32c::CXor(x) => CXor::is_encoding(x.0),
            Rv32c::COr(x) => COr::is_encoding(x.0),
            Rv32c::CAnd(x) => CAnd::is_encoding(x.0),
            Rv32c::CJ(x) => CJ::is_encoding(x.0),
            Rv32c::CBeqz(x) => CBeqz::is_encoding(x.0),
            Rv32c::CBnez(x) => CBnez::is_encoding(x.0),
            Rv32c::CSlli(x) => CSlli::is_encoding(x.0),
            Rv32c::CJr(x) => CJr::is_encoding(x.0),
            Rv32c::CMv(x) => CMv::is_encoding(x.0),
            Rv32c::CEbreak(x) => CEbreak::is_encoding(x.0),
            Rv32c::CJalr(x) => CJalr::is_encoding(x.0),
            Rv32c::CAdd(x) => CAdd::is_encoding(x.0),
            Rv32c::CUnimp(x) => CUnimp::is_encoding(x.0),
        }
    }
}

/// `c.addi4spn rd', sp, nzuimm`.
#[derive(Clone, Copy, Debug, PartialEq, Eq, Structural)]
pub struct CAddi4spn(pub u32);

impl CAddi4spn {
    /// `w` encodes `c.addi4spn`.
    pub open spec fn is_encoding(w: u32) -> bool {
        quadrant(w) == 0
        && cfunct3(w) == 0
        && field(w, 12, 5) != 0
    }

    pub fn rd(&self) -> (r: Reg)
        ensures
            r.id() == creg_of(self.0, 4),
    {
        creg_at(self.0, 4)
    }

    pub fn imm(&self) -> (r: u32)
        ensures
            r == ciw_imm(self.0),
    {
        ciw_imm_of(self.0)
    }
}

/// `c.lw rd', offset(rs1')`.
#[derive(Clone, Copy, Debug, PartialEq, Eq, Structural)]
pub struct CLw(pub u32);

impl CLw {
    /// `w` encodes `c.lw`.
    pub open spec fn is_encoding(w: u32) -> bool {
        quadrant(w) == 0
        && cfunct3(w) == 2
    }

    pub fn rd(&self) -> (r: Reg)
        ensures
            r.id() == creg_of(self.0, 4),
    {
        creg_at(self.0, 4)
    }

    pub fn rs1(&self) -> (r: Reg)
        ensures
            r.id() == creg_of(self.0, 9),
    {
        creg_at(self.0, 9)
    }

    pub fn imm(&self) -> (r: u32)
        ensures
            r == cl_imm(self.0),
    {
        cl_imm_of(self.0)
    }
}

/// `c.sw rs2', offset(rs1')`.
#[derive(Clone, Copy, Debug, PartialEq, Eq, Structural)]
pub struct CSw(pub u32);

impl CSw {
    /// `w` encodes `c.sw`.
    pub open spec fn is_encoding(w: u32) -> bool {
        quadrant(w) == 0
        && cfunct3(w) == 6
    }

    pub fn rs1(&self) -> (r: Reg)
        ensures
            r.id() == creg_of(self.0, 9),
    {
        creg_at(self.0, 9)
    }

    pub fn rs2(&self) -> (r: Reg)
        ensures
            r.id() == creg_of(self.0, 4),
    {
        creg_at(self.0, 4)
    }

    pub fn imm(&self) -> (r: u32)
        ensures
            r == cl_imm(self.0),
    {
        cl_imm_of(self.0)
    }
}

/// `c.addi rd, imm`.
#[derive(Clone, Copy, Debug, PartialEq, Eq, Structural)]
pub struct CAddi(pub u32);

impl CAddi {
    /// `w` encodes `c.addi`.
    pub open spec fn is_encoding(w: u32) -> bool {
        quadrant(w) == 1
        && cfunct3(w) == 0
        && rd_of(w) != 0
    }

    pub fn rs1rd(&self) -> (r: Reg)
        ensures
            r.id() == rd_of(self.0),
    {
        reg_at(self.0, 11)
    }

    pub fn imm(&self) -> (r: i32)
        ensures
            r as int == ci_imm(self.0),
    {
        ci_imm_of(self.0)
    }
}

/// `c.addi16sp sp, nzimm`.
#[derive(Clone, Copy, Debug, PartialEq, Eq, Structural)]
pub struct CAddi16sp(pub u32);

impl CAddi16sp {
    /// `w` encodes `c.addi16sp`.
    pub open spec fn is_encoding(w: u32) -> bool {
        quadrant(w) == 1
        && cfunct3(w) == 3
        && rd_of(w) == 2
    }

    pub fn rs1rd(&self) -> (r: Reg)
        ensures
            r.id() == rd_of(self.0),
    {
        reg_at(self.0, 11)
    }

    pub fn imm(&self) -> (r: i32)
        ensures
            r as int == ci16sp_imm(self.0),
    {
        ci16sp_imm_of(self.0)
    }
}

/// `c.lwsp rd, offset(sp)`.
#[derive(Clone, Copy, Debug, PartialEq, Eq, Structural)]
pub struct CLwsp(pub u32);

impl CLwsp {
    /// `w` encodes `c.lwsp`.
    pub open spec fn is_encoding(w: u32) -> bool {
        quadrant(w) == 2
        && cfunct3(w) == 2
    }

    pub fn rd(&self) -> (r: Reg)
        ensures
            r.id() == rd_of(self.0),
    {
        reg_at(self.0, 11)
    }

    pub fn imm(&self) -> (r: u32)
        ensures
            r == clwsp_imm(self.0),
    {
        clwsp_imm_of(self.0)
    }
}

/// `c.swsp rs2, offset(sp)`.
#[derive(Clone, Copy, Debug, PartialEq, Eq, Structural)]
pub struct CSwsp(pub u32);

impl CSwsp {
    /// `w` encodes `c.swsp`.
    pub open spec fn is_encoding(w: u32) -> bool {
        quadrant(w) == 2
        && cfunct3(w) == 6
    }

    pub fn rs2(&self) -> (r: Reg)
        ensures
            r.id() == field(self.0, 6, 2),
    {
        reg_at(self.0, 6)
    }

    pub fn imm(&self) -> (r: u32)
        ensures
            r == cswsp_imm(self.0),
    {
        cswsp_imm_of(self.0)
    }
}

/// `c.nop`.
#[derive(Clone, Copy, Debug, PartialEq, Eq, Structural)]
pub struct CNop(pub u32);

impl CNop {
    /// `w` encodes `c.nop`.
    pub open spec fn is_encoding(w: u32) -> bool {
        quadrant(w) == 1
        && cfunct3(w) == 0
        && rd_of(w) == 0
    }
}

/// `c.jal offset`.
#[derive(Clone, Copy, Debug, PartialEq, Eq, Structural)]
pub struct CJal(pub u32);

impl CJal {
    /// `w` encodes `c.jal`.
    pub open spec fn is_encoding(w: u32) -> bool {
        quadrant(w) == 1
        && cfunct3(w) == 1
    }

    pub fn imm(&self) -> (r: i32)
        ensures
            r as int == cj_imm(self.0),
    {
        cj_imm_of(self.0)
    }
}

/// `c.li rd, imm`.
#[derive(Clone, Copy, Debug, PartialEq, Eq, Structural)]
pub struct CLi(pub u32);

impl CLi {
    /// `w` encodes `c.li`.
    pub open spec fn is_encoding(w: u32) -> bool {
        quadrant(w) == 1
        && cfunct3(w) == 2
    }

    pub fn rs1rd(&self) -> (r: Reg)
        ensures
            r.id() == rd_of(self.0),
    {
        reg_at(self.0, 11)
    }

    pub fn imm(&self) -> (r: i32)
        ensures
            r as int == ci_imm(self.0),
    {
        ci_imm_of(self.0)
    }
}

/// `c.lui rd, nzimm`.
#[derive(Clone, Copy, Debug, PartialEq, Eq, Structural)]
pub struct CLui(pub u32);

impl CLui {
    /// `w` encodes `c.lui`.
    pub open spec fn is_encoding(w: u32) -> bool {
        quadrant(w) == 1
        && cfunct3(w) == 3
        && rd_of(w) != 2
    }

    pub fn rd(&self) -> (r: Reg)
        ensures
            r.id() == rd_of(self.0),
    {
        reg_at(self.0, 11)
    }

    pub fn imm(&self) -> (r: i32)
        ensures
            r as int == clui_imm(self.0),
    {
        clui_imm_of(self.0)
    }
}

/// `c.srli rd', shamt`.
#[derive(Clone, Copy, Debug, PartialEq, Eq, Structural)]
pub struct CSrli(pub u32);

impl CSrli {
    /// `w` encodes `c.srli`.
    pub open spec fn is_encoding(w: u32) -> bool {
        quadrant(w) == 1
        && cfunct3(w) == 4
        && field(w, 11, 10) == 0
        && bit(w, 12) == 0
    }

    pub fn rs1rd(&self) -> (r: Reg)
        ensures
            r.id() == creg_of(self.0, 9),
    {
        creg_at(self.0, 9)
    }

    pub fn shamt(&self) -> (r: u32)
        ensures
            r == cshamt(self.0),
            r < 32,
    {
        bits5_of(self.0, 6)
    }
}

/// `c.srai rd', shamt`.
#[derive(Clone, Copy, Debug, PartialEq, Eq, Structural)]
pub struct CSrai(pub u32);

impl CSrai {
    /// `w` encodes `c.srai`.
    pub open spec fn is_encoding(w: u32) -> bool {
        quadrant(w) == 1
        && cfunct3(w) == 4
        && field(w, 11, 10) == 1
        && bit(w, 12) == 0
    }

    pub fn rs1rd(&self) -> (r: Reg)
        ensures
            r.id() == creg_of(self.0, 9),
    {
        creg_at(self.0, 9)
    }

    pub fn shamt(&self) -> (r: u32)
        ensures
            r == cshamt(self.0),
            r < 32,
    {
        bits5_of(self.0, 6)
    }
}

/// `c.andi rd', imm`.
#[derive(Clone, Copy, Debug, PartialEq, Eq, Structural)]
pub struct CAndi(pub u32);

impl CAndi {
    /// `w` encodes `c.andi`.
    pub open spec fn is_encoding(w: u32) -> bool {
        quadrant(w) == 1
        && cfunct3(w) == 4
        && field(w, 11, 10) == 2
    }

    pub fn rs1rd(&self) -> (r: Reg)
        ensures
            r.id() == creg_of(self.0, 9),
    {
        creg_at(self.0, 9)
    }

    pub fn imm(&self) -> (r: i32)
        ensures
            r as int == ci_imm(self.0),
    {
        ci_imm_of(self.0)
    }
}

/// `c.sub rd', rs2'`.
#[derive(Clone, Copy, Debug, PartialEq, Eq, Structural)]
pub struct CSub(pub u32);

impl CSub {
    /// `w` encodes `c.sub`.
    pub open spec fn is_encoding(w: u32) -> bool {
        quadrant(w) == 1
        && cfunct3(w) == 4
        && field(w, 11, 10) == 3
        && bit(w, 12) == 0
        && field(w, 6, 5) == 0
    }

    pub fn rs1rd(&self) -> (r: Reg)
        ensures
            r.id() == creg_of(self.0, 9),
    {
        creg_at(self.0, 9)
    }

    pub fn rs2(&self) -> (r: Reg)
        ensures
            r.id() == creg_of(self.0, 4),
    {
        creg_at(self.0, 4)
    }
}

/// `c.xor rd', rs2'`.
#[derive(Clone, Copy, Debug, PartialEq, Eq, Structural)]
pub struct CXor(pub u32);

impl CXor {
    /// `w` encodes `c.xor`.
    pub open spec fn is_encoding(w: u32) -> bool {
        quadrant(w) == 1
        && cfunct3(w) == 4
        && field(w, 11, 10) == 3
        && bit(w, 12) == 0
        && field(w, 6, 5) == 1
    }

    pub fn rs1rd(&self) -> (r: Reg)
        ensures
            r.id() == creg_of(self.0, 9),
    {
        creg_at(self.0, 9)
    }

    pub fn rs2(&self) -> (r: Reg)
        ensures
            r.id() == creg_of(self.0, 4),
    {
        creg_at(self.0, 4)
    }
}

/// `c.or rd', rs2'`.
#[derive(Clone, Copy, Debug, PartialEq, Eq, Structural)]
pub struct COr(pub u32);

impl COr {
    /// `w` encodes `c.or`.
    pub open spec fn is_encoding(w: u32) -> bool {
        quadrant(w) == 1
        && cfunct3(w) == 4
        && field(w, 11, 10) == 3
        && bit(w, 12) == 0
        && field(w, 6, 5) == 2
    }

    pub fn rs1rd(&self) -> (r: Reg)
        ensures
            r.id() == creg_of(self.0, 9),
    {
        creg_at(self.0, 9)
    }

    pub fn rs2(&self) -> (r: Reg)
        ensures
            r.id() == creg_of(self.0, 4),
    {
        creg_at(self.0, 4)
    }
}

/// `c.and rd', rs2'`.
#[derive(Clone, Copy, Debug, PartialEq, Eq, Structural)]
pub struct CAnd(pub u32);

impl CAnd {
    /// `w` encodes `c.and`.
    pub open spec fn is_encoding(w: u32) -> bool {
        quadrant(w) == 1
        && cfunct3(w) == 4
        && field(w, 11, 10) == 3
        && bit(w, 12) == 0
        && field(w, 6, 5) == 3
    }

    pub fn rs1rd(&self) -> (r: Reg)
        ensures
            r.id() == creg_of(self.0, 9),
    {
        creg_at(self.0, 9)
    }

    pub fn rs2(&self) -> (r: Reg)
        ensures
            r.id() == creg_of(self.0, 4),
    {
        creg_at(self.0, 4)
    }
}

/// `c.j offset`.
#[derive(Clone, Copy, Debug, PartialEq, Eq, Structural)]
pub struct CJ(pub u32);

impl CJ {
    /// `w` encodes `c.j`.
    pub open spec fn is_encoding(w: u32) -> bool {
        quadrant(w) == 1
        && cfunct3(w) == 5
    }

    pub fn imm(&self) -> (r: i32)
        ensures
            r as int == cj_imm(self.0),
    {
        cj_imm_of(self.0)
    }
}

/// `c.beqz rs1', offset`.
#[derive(Clone, Copy, Debug, PartialEq, Eq, Structural)]
pub struct CBeqz(pub u32);

impl CBeqz {
    /// `w` encodes `c.beqz`.
    pub open spec fn is_encoding(w: u32) -> bool {
        quadrant(w) == 1
        && cfunct3(w) == 6
    }

    pub fn rs1(&self) -> (r: Reg)
        ensures
            r.id() == creg_of(self.0, 9),
    {
        creg_at(self.0, 9)
    }

    pub fn imm(&self) -> (r: i32)
        ensures
            r as int == cb_imm(self.0),
    {
        cb_imm_of(self.0)
    }
}

/// `c.bnez rs1', offset`.
#[derive(Clone, Copy, Debug, PartialEq, Eq, Structural)]
pub struct CBnez(pub u32);

impl CBnez {
    /// `w` encodes `c.bnez`.
    pub open spec fn is_encoding(w: u32) -> bool {
        quadrant(w) == 1
        && cfunct3(w) == 7
    }

    pub fn rs1(&self) -> (r: Reg)
        ensures
            r.id() == creg_of(self.0, 9),
    {
        creg_at(self.0, 9)
    }

    pub fn imm(&self) -> (r: i32)
        ensures
            r as int == cb_imm(self.0),
    {
        cb_imm_of(self.0)
    }
}

/// `c.slli rd, shamt`.
#[derive(Clone, Copy, Debug, PartialEq, Eq, Structural)]
pub struct CSlli(pub u32);

impl CSlli {
    /// `w` encodes `c.slli`.
    pub open spec fn is_encoding(w: u32) -> bool {
        quadrant(w) == 2
        && cfunct3(w) == 0
        && bit(w, 12) == 0
    }

    pub fn rs1rd(&self) -> (r: Reg)
        ensures
            r.id() == rd_of(self.0),
    {
        reg_at(self.0, 11)
    }

    pub fn shamt(&self) -> (r: u32)
        ensures
            r == cshamt(self.0),
            r < 32,
    {
        bits5_of(self.0, 6)
    }
}

/// `c.jr rs1`.
#[derive(Clone, Copy, Debug, PartialEq, Eq, Structural)]
pub struct CJr(pub u32);

impl CJr {
    /// `w` encodes `c.jr`.
    pub open spec fn is_encoding(w: u32) -> bool {
        quadrant(w) == 2
        && cfunct3(w) == 4
        && bit(w, 12) == 0
        && field(w, 6, 2) == 0
        && rd_of(w) != 0
    }

    pub fn rs1(&self) -> (r: Reg)
        ensures
            r.id() == rd_of(self.0),
    {
        reg_at(self.0, 11)
    }
}

/// `c.mv rd, rs2`.
#[derive(Clone, Copy, Debug, PartialEq, Eq, Structural)]
pub struct CMv(pub u32);

impl CMv {
    /// `w` encodes `c.mv`.
    pub open spec fn is_encoding(w: u32) -> bool {
        quadrant(w) == 2
        && cfunct3(w) == 4
        && bit(w, 12) == 0
        && field(w, 6, 2) != 0
    }

    pub fn rd(&self) -> (r: Reg)
        ensures
            r.id() == rd_of(self.0),
    {
        reg_at(self.0, 11)
    }

    pub fn rs2(&self) -> (r: Reg)
        ensures
            r.id() == field(self.0, 6, 2),
    {
        reg_at(self.0, 6)
    }
}

/// `c.ebreak`.
#[derive(Clone, Copy, Debug, PartialEq, Eq, Structural)]
pub struct CEbreak(pub u32);

impl CEbreak {
    /// `w` encodes `c.ebreak`.
    pub open spec fn is_encoding(w: u32) -> bool {
        quadrant(w) == 2
        && cfunct3(w) == 4
        && bit(w, 12) == 1
        && field(w, 6, 2) == 0
        && rd_of(w) == 0
    }
}

/// `c.jalr rs1`.
#[derive(Clone, Copy, Debug, PartialEq, Eq, Structural)]
pub struct CJalr(pub u32);

impl CJalr {
    /// `w` encodes `c.jalr`.
    pub open spec fn is_encoding(w: u32) -> bool {
        quadrant(w) == 2
        && cfunct3(w) == 4
        && bit(w, 12) == 1
        && field(w, 6, 2) == 0
        && rd_of(w) != 0
    }

    pub fn rs1(&self) -> (r: Reg)
        ensures
            r.id() == rd_of(self.0),
    {
        reg_at(self.0, 11)
    }
}

/// `c.add rd, rs2`.
#[derive(Clone, Copy, Debug, PartialEq, Eq, Structural)]
pub struct CAdd(pub u32);

impl CAdd {
    /// `w` encodes `c.add`.
    pub open spec fn is_encoding(w: u32) -> bool {
        quadrant(w) == 2
        && cfunct3(w) == 4
        && bit(w, 12) == 1
        && field(w, 6, 2) != 0
    }

    pub fn rs1rd(&self) -> (r: Reg)
        ensures
            r.id() == rd_of(self.0),
    {
        reg_at(self.0, 11)
    }

    pub fn rs2(&self) -> (r: Reg)
        ensures
            r.id() == field(self.0, 6, 2),
    {
        reg_at(self.0, 6)
    }
}

/// `c.unimp`.
#[derive(Clone, Copy, Debug, PartialEq, Eq, Structural)]
pub struct CUnimp(pub u32);

impl CUnimp {
    /// `w` encodes `c.unimp`.
    pub open spec fn is_encoding(w: u32) -> bool {
        quadrant(w) == 0
        && cfunct3(w) == 0
        && field(w, 12, 5) == 0
        && field(w, 4, 2) == 0
    }
}

} // verus!
