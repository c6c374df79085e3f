//! The atomic memory instructions (A extension, word forms).

use crate::encoding::{OPC_AMO, funct3, funct5, is_full, major};
use crate::formats::{rd_of, reg_at, rs1_of, rs2_of};
use crate::reg::Reg;
use vstd::prelude::*;

verus! {

/// A decoded instruction of this subset; each variant wraps the raw word.
#[derive(Clone, Copy, Debug, PartialEq, Eq, Structural)]
pub enum Rv32a {
    LrW(LrW),
    ScW(ScW),
    AmoswapW(AmoswapW),
    AmoaddW(AmoaddW),
    AmoxorW(AmoxorW),
    AmoandW(AmoandW),
    AmoorW(AmoorW),
    AmominW(AmominW),
    AmomaxW(AmomaxW),
    AmominuW(AmominuW),
    AmomaxuW(AmomaxuW),
}

impl Rv32a {
    /// The instruction word this value was decoded from.
    pub open spec fn raw(self) -> u32 {
        match self {
            Rv32a::LrW(x) => x.0,
            Rv32a::ScW(x) => x.0,
            Rv32a::AmoswapW(x) => x.0,
            Rv32a::AmoaddW(x) => x.0,
            Rv32a::AmoxorW(x) => x.0,
            Rv32a::AmoandW(x) => x.0,
            Rv32a::AmoorW(x) => x.0,
            Rv32a::AmominW(x) => x.0,
            Rv32a::AmomaxW(x) => x.0,
            Rv32a::AmominuW(x) => x.0,
            Rv32a::AmomaxuW(x) => x.0,
        }
    }

    /// The wrapped word is an encoding of the variant's mnemonic.
    pub open spec fn valid(self) -> bool {
        match self {
            Rv32a::LrW(x) => LrW::is_encoding(x.0),
            Rv32a::ScW(x) => ScW::is_encoding(x.0),
            Rv32a::AmoswapW(x) => AmoswapW::is_encoding(x.0),
            Rv32a::AmoaddW(x) => AmoaddW::is_encoding(x.0),
            Rv32a::AmoxorW(x) => AmoxorW::is_encoding(x.0),
            Rv32a::AmoandW(x) => AmoandW::is_encoding(x.0),
            Rv32a::AmoorW(x) => AmoorW::is_encoding(x.0),
            Rv32a::AmominW(x) => AmominW::is_encoding(x.0),
            Rv32a::AmomaxW(x) => AmomaxW::is_encoding(x.0),
            Rv32a::AmominuW(x) => AmominuW::is_encoding(x.0),
            Rv32a::AmomaxuW(x) => AmomaxuW::is_encoding(x.0),
        }
    }
}

/// `lr.w rd, (rs1)`.
#[derive(Clone, Copy, Debug, PartialEq, Eq, Structural)]
pub struct LrW(pub u32);

impl LrW {
    /// `w` encodes `lr.w`.
    pub open spec fn is_encoding(w: u32) -> bool {
        is_full(w)
        && major(w) == OPC_AMO
        && funct3(w) == 2
        && funct5(w) == 0b00010
        && rs2_of(w) == 0
    }

    pub fn rd(&self) -> (r: Reg)
        ensures
            r.id() == rd_of(self.0),
    {
        reg_at(self.0, 11)
    }

    pub fn rs1(&self) -> (r: Reg)
        ensures
            r.id() == rs1_of(self.0),
    {
        reg_at(self.0, 19)
    }
}

/// `sc.w rd, rs2, (rs1)`.
#[derive(Clone, Copy, Debug, PartialEq, Eq, Structural)]
pub struct ScW(pub u32);

impl ScW {
    /// `w` encodes `sc.w`.
    pub open spec fn is_encoding(w: u32) -> bool {
        is_full(w)
        && major(w) == OPC_AMO
        && funct3(w) == 2
        && funct5(w) == 0b00011
    }

    pub fn rd(&self) -> (r: Reg)
        ensures
            r.id() == rd_of(self.0),
    {
        reg_at(self.0, 11)
    }

    pub fn rs1(&self) -> (r: Reg)
        ensures
            r.id() == rs1_of(self.0),
    {
        reg_at(self.0, 19)
    }

    pub fn rs2(&self) -> (r: Reg)
        ensures
            r.id() == rs2_of(self.0),
    {
        reg_at(self.0, 24)
    }
}

/// `amoswap.w rd, rs2, (rs1)`.
#[derive(Clone, Copy, Debug, PartialEq, Eq, Structural)]
pub struct AmoswapW(pub u32);

impl AmoswapW {
    /// `w` encodes `amoswap.w`.
    pub open spec fn is_encoding(w: u32) -> bool {
        is_full(w)
        && major(w) == OPC_AMO
        && funct3(w) == 2
        && funct5(w) == 0b00001
    }

    pub fn rd(&self) -> (r: Reg)
        ensures
            r.id() == rd_of(self.0),
    {
        reg_at(self.0, 11)
    }

    pub fn rs1(&self) -> (r: Reg)
        ensures
            r.id() == rs1_of(self.0),
    {
        reg_at(self.0, 19)
    }

    pub fn rs2(&self) -> (r: Reg)
        ensures
            r.id() == rs2_of(self.0),
    {
        reg_at(self.0, 24)
    }
}

/// `amoadd.w rd, rs2, (rs1)`.
#[derive(Clone, Copy, Debug, PartialEq, Eq, Structural)]
pub struct AmoaddW(pub u32);

impl AmoaddW {
    /// `w` encodes `amoadd.w`.
    pub open spec fn is_encoding(w: u32) -> bool {
        is_full(w)
        && major(w) == OPC_AMO
        && funct3(w) == 2
        && funct5(w) == 0b00000
    }

    pub fn rd(&self) -> (r: Reg)
        ensures
            r.id() == rd_of(self.0),
    {
        reg_at(self.0, 11)
    }

    pub fn rs1(&self) -> (r: Reg)
        ensures
            r.id() == rs1_of(self.0),
    {
        reg_at(self.0, 19)
    }

    pub fn rs2(&self) -> (r: Reg)
        ensures
            r.id() == rs2_of(self.0),
    {
        reg_at(self.0, 24)
    }
}

/// `amoxor.w rd, rs2, (rs1)`.
#[derive(Clone, Copy, Debug, PartialEq, Eq, Structural)]
pub struct AmoxorW(pub u32);

impl AmoxorW {
    /// `w` encodes `amoxor.w`.
    pub open spec fn is_encoding(w: u32) -> bool {
        is_full(w)
        && major(w) == OPC_AMO
        && funct3(w) == 2
        && funct5(w) == 0b00100
    }

    pub fn rd(&self) -> (r: Reg)
        ensures
            r.id() == rd_of(self.0),
    {
        reg_at(self.0, 11)
    }

    pub fn rs1(&self) -> (r: Reg)
        ensures
            r.id() == rs1_of(self.0),
    {
        reg_at(self.0, 19)
    }

    pub fn rs2(&self) -> (r: Reg)
        ensures
            r.id() == rs2_of(self.0),
    {
        reg_at(self.0, 24)
    }
}

/// `amoand.w rd, rs2, (rs1)`.
#[derive(Clone, Copy, Debug, PartialEq, Eq, Structural)]
pub struct AmoandW(pub u32);

impl AmoandW {
    /// `w` encodes `amoand.w`.
    pub open spec fn is_encoding(w: u32) -> bool {
        is_full(w)
        && major(w) == OPC_AMO
        && funct3(w) == 2
        && funct5(w) == 0b01100
    }

    pub fn rd(&self) -> (r: Reg)
        ensures
            r.id() == rd_of(self.0),
    {
        reg_at(self.0, 11)
    }

    pub fn rs1(&self) -> (r: Reg)
        ensures
            r.id() == rs1_of(self.0),
    {
        reg_at(self.0, 19)
    }

    pub fn rs2(&self) -> (r: Reg)
        ensures
            r.id() == rs2_of(self.0),
    {
        reg_at(self.0, 24)
    }
}

/// `amoor.w rd, rs2, (rs1)`.
#[derive(Clone, Copy, Debug, PartialEq, Eq, Structural)]
pub struct AmoorW(pub u32);

impl AmoorW {
    /// `w` encodes `amoor.w`.
    pub open spec fn is_encoding(w: u32) -> bool {
        is_full(w)
        && major(w) == OPC_AMO
        && funct3(w) == 2
        && funct5(w) == 0b01000
    }

    pub fn rd(&self) -> (r: Reg)
        ensures
            r.id() == rd_of(self.0),
    {
        reg_at(self.0, 11)
    }

    pub fn rs1(&self) -> (r: Reg)
        ensures
            r.id() == rs1_of(self.0),
    {
        reg_at(self.0, 19)
    }

    pub fn rs2(&self) -> (r: Reg)
        ensures
            r.id() == rs2_of(self.0),
    {
        reg_at(self.0, 24)
    }
}

/// `amomin.w rd, rs2, (rs1)`.
#[derive(Clone, Copy, Debug, PartialEq, Eq, Structural)]
pub struct AmominW(pub u32);

impl AmominW {
    /// `w` encodes `amomin.w`.
    pub open spec fn is_encoding(w: u32) -> bool {
        is_full(w)
        && major(w) == OPC_AMO
        && funct3(w) == 2
        && funct5(w) == 0b10000
    }

    pub fn rd(&self) -> (r: Reg)
        ensures
            r.id() == rd_of(self.0),
    {
        reg_at(self.0, 11)
    }

    pub fn rs1(&self) -> (r: Reg)
        ensures
            r.id() == rs1_of(self.0),
    {
        reg_at(self.0, 19)
    }

    pub fn rs2(&self) -> (r: Reg)
        ensures
            r.id() == rs2_of(self.0),
    {
        reg_at(self.0, 24)
    }
}

/// `amomax.w rd, rs2, (rs1)`.
#[derive(Clone, Copy, Debug, PartialEq, Eq, Structural)]
pub struct AmomaxW(pub u32);

impl AmomaxW {
    /// `w` encodes `amomax.w`.
    pub open spec fn is_encoding(w: u32) -> bool {
        is_full(w)
        && major(w) == OPC_AMO
        && funct3(w) == 2
        && funct5(w) == 0b10100
    }

    pub fn rd(&self) -> (r: Reg)
        ensures
            r.id() == rd_of(self.0),
    {
        reg_at(self.0, 11)
    }

    pub fn rs1(&self) -> (r: Reg)
        ensures
            r.id() == rs1_of(self.0),
    {
        reg_at(self.0, 19)
    }

    pub fn rs2(&self) -> (r: Reg)
        ensures
            r.id() == rs2_of(self.0),
    {
        reg_at(self.0, 24)
    }
}

/// `amominu.w rd, rs2, (rs1)`.
#[derive(Clone, Copy, Debug, PartialEq, Eq, Structural)]
pub struct AmominuW(pub u32);

impl AmominuW {
    /// `w` encodes `amominu.w`.
    pub open spec fn is_encoding(w: u32) -> bool {
        is_full(w)
        && major(w) == OPC_AMO
        && funct3(w) == 2
        && funct5(w) == 0b11000
    }

    pub fn rd(&self) -> (r: Reg)
        ensures
            r.id() == rd_of(self.0),
    {
        reg_at(self.0, 11)
    }

    pub fn rs1(&self) -> (r: Reg)
        ensures
            r.id() == rs1_of(self.0),
    {
        reg_at(self.0, 19)
    }

    pub fn rs2(&self) -> (r: Reg)
        ensures
            r.id() == rs2_of(self.0),
    {
        reg_at(self.0, 24)
    }
}

/// `amomaxu.w rd, rs2, (rs1)`.
#[derive(Clone, Copy, Debug, PartialEq, Eq, Structural)]
pub struct AmomaxuW(pub u32);

impl AmomaxuW {
    /// `w` encodes `amomaxu.w`.
    pub open spec fn is_encoding(w: u32) -> bool {
        is_full(w)
        && major(w) == OPC_AMO
        && funct3(w) == 2
        && funct5(w) == 0b11100
    }

    pub fn rd(&self) -> (r: Reg)
        ensures
            r.id() == rd_of(self.0),
    {
        reg_at(self.0, 11)
    }

    pub fn rs1(&self) -> (r: Reg)
        ensures
            r.id() == rs1_of(self.0),
    {
        reg_at(self.0, 19)
    }

    pub fn rs2(&self) -> (r: Reg)
        ensures
            r.id() == rs2_of(self.0),
    {
        reg_at(self.0, 24)
    }
}

} // verus!
