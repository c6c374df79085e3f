//! The integer multiply and divide instructions (M extension).

use crate::encoding::{OPC_OP, funct3, funct7, is_full, major};
use crate::formats::{rd_of, reg_at, rs1_of, rs2_of};
use crate::reg::Reg;
use vstd::prelude::*;

verus! {

/// A decoded instruction of this subset; each variant wraps the raw word.
#[derive(Clone, Copy, Debug, PartialEq, Eq, Structural)]
pub enum Rv32m {
    Mul(Mul),
    Mulh(Mulh),
    Mulhsu(Mulhsu),
    Mulhu(Mulhu),
    Div(Div),
    Divu(Divu),
    Rem(Rem),
    Remu(Remu),
}

impl Rv32m {
    /// The instruction word this value was decoded from.
    pub open spec fn raw(self) -> u32 {
        match self {
            Rv32m::Mul(x) => x.0,
            Rv32m::Mulh(x) => x.0,
            Rv32m::Mulhsu(x) => x.0,
            Rv32m::Mulhu(x) => x.0,
            Rv32m::Div(x) => x.0,
            Rv32m::Divu(x) => x.0,
            Rv32m::Rem(x) => x.0,
            Rv32m::Remu(x) => x.0,
        }
    }

    /// The wrapped word is an encoding of the variant's mnemonic.
    pub open spec fn valid(self) -> bool {
        match self {
            Rv32m::Mul(x) => Mul::is_encoding(x.0),
            Rv32m::Mulh(x) => Mulh::is_encoding(x.0),
            Rv32m::Mulhsu(x) => Mulhsu::is_encoding(x.0),
            Rv32m::Mulhu(x) => Mulhu::is_encoding(x.0),
            Rv32m::Div(x) => Div::is_encoding(x.0),
            Rv32m::Divu(x) => Divu::is_encoding(x.0),
            Rv32m::Rem(x) => Rem::is_encoding(x.0),
            Rv32m::Remu(x) => Remu::is_encoding(x.0),
        }
    }
}

/// `mul rd, rs1, rs2`.
#[derive(Clone, Copy, Debug, PartialEq, Eq, Structural)]
pub struct Mul(pub u32);

impl Mul {
    /// `w` encodes `mul`.
    pub open spec fn is_encoding(w: u32) -> bool {
        is_full(w)
        && major(w) == OPC_OP
        && funct3(w) == 0
        && funct7(w) == 1
    }

    pub fn rd(&self) -> (r: Reg)
        ensures
            r.id() == rd_of(self.0),
    {
        reg_at(self.0, 11)
    }

    pub fn rs1(&self) -> (r: Reg)
        ensures
            r.id() == rs1_of(self.0),
    {
        reg_at(self.0, 19)
    }

    pub fn rs2(&self) -> (r: Reg)
        ensures
            r.id() == rs2_of(self.0),
    {
        reg_at(self.0, 24)
    }
}

/// `mulh rd, rs1, rs2`.
#[derive(Clone, Copy, Debug, PartialEq, Eq, Structural)]
pub struct Mulh(pub u32);

impl Mulh {
    /// `w` encodes `mulh`.
    pub open spec fn is_encoding(w: u32) -> bool {
        is_full(w)
        && major(w) == OPC_OP
        && funct3(w) == 1
        && funct7(w) == 1
    }

    pub fn rd(&self) -> (r: Reg)
        ensures
            r.id() == rd_of(self.0),
    {
        reg_at(self.0, 11)
    }

    pub fn rs1(&self) -> (r: Reg)
        ensures
            r.id() == rs1_of(self.0),
    {
        reg_at(self.0, 19)
    }

    pub fn rs2(&self) -> (r: Reg)
        ensures
            r.id() == rs2_of(self.0),
    {
        reg_at(self.0, 24)
    }
}

/// `mulhsu rd, rs1, rs2`.
#[derive(Clone, Copy, Debug, PartialEq, Eq, Structural)]
pub struct Mulhsu(pub u32);

impl Mulhsu {
    /// `w` encodes `mulhsu`.
    pub open spec fn is_encoding(w: u32) -> bool {
        is_full(w)
        && major(w) == OPC_OP
        && funct3(w) == 2
        && funct7(w) == 1
    }

    pub fn rd(&self) -> (r: Reg)
        ensures
            r.id() == rd_of(self.0),
    {
        reg_at(self.0, 11)
    }

    pub fn rs1(&self) -> (r: Reg)
        ensures
            r.id() == rs1_of(self.0),
    {
        reg_at(self.0, 19)
    }

    pub fn rs2(&self) -> (r: Reg)
        ensures
            r.id() == rs2_of(self.0),
    {
        reg_at(self.0, 24)
    }
}

/// `mulhu rd, rs1, rs2`.
#[derive(Clone, Copy, Debug, PartialEq, Eq, Structural)]
pub struct Mulhu(pub u32);

impl Mulhu {
    /// `w` encodes `mulhu`.
    pub open spec fn is_encoding(w: u32) -> bool {
        is_full(w)
        && major(w) == OPC_OP
        && funct3(w) == 3
        && funct7(w) == 1
    }

    pub fn rd(&self) -> (r: Reg)
        ensures
            r.id() == rd_of(self.0),
    {
        reg_at(self.0, 11)
    }

    pub fn rs1(&self) -> (r: Reg)
        ensures
            r.id() == rs1_of(self.0),
    {
        reg_at(self.0, 19)
    }

    pub fn rs2(&self) -> (r: Reg)
        ensures
            r.id() == rs2_of(self.0),
    {
        reg_at(self.0, 24)
    }
}

/// `div rd, rs1, rs2`.
#[derive(Clone, Copy, Debug, PartialEq, Eq, Structural)]
pub struct Div(pub u32);

impl Div {
    /// `w` encodes `div`.
    pub open spec fn is_encoding(w: u32) -> bool {
        is_full(w)
        && major(w) == OPC_OP
        && funct3(w) == 4
        && funct7(w) == 1
    }

    pub fn rd(&self) -> (r: Reg)
        ensures
            r.id() == rd_of(self.0),
    {
        reg_at(self.0, 11)
    }

    pub fn rs1(&self) -> (r: Reg)
        ensures
            r.id() == rs1_of(self.0),
    {
        reg_at(self.0, 19)
    }

    pub fn rs2(&self) -> (r: Reg)
        ensures
            r.id() == rs2_of(self.0),
    {
        reg_at(self.0, 24)
    }
}

/// `divu rd, rs1, rs2`.
#[derive(Clone, Copy, Debug, PartialEq, Eq, Structural)]
pub struct Divu(pub u32);

impl Divu {
    /// `w` encodes `divu`.
    pub open spec fn is_encoding(w: u32) -> bool {
        is_full(w)
        && major(w) == OPC_OP
        && funct3(w) == 5
        && funct7(w) == 1
    }

    pub fn rd(&self) -> (r: Reg)
        ensures
            r.id() == rd_of(self.0),
    {
        reg_at(self.0, 11)
    }

    pub fn rs1(&self) -> (r: Reg)
        ensures
            r.id() == rs1_of(self.0),
    {
        reg_at(self.0, 19)
    }

    pub fn rs2(&self) -> (r: Reg)
        ensures
            r.id() == rs2_of(self.0),
    {
        reg_at(self.0, 24)
    }
}

/// `rem rd, rs1, rs2`.
#[derive(Clone, Copy, Debug, PartialEq, Eq, Structural)]
pub struct Rem(pub u32);

impl Rem {
    /// `w` encodes `rem`.
    pub open spec fn is_encoding(w: u32) -> bool {
        is_full(w)
        && major(w) == OPC_OP
        && funct3(w) == 6
        && funct7(w) == 1
    }

    pub fn rd(&self) -> (r: Reg)
        ensures
            r.id() == rd_of(self.0),
    {
        reg_at(self.0, 11)
    }

    pub fn rs1(&self) -> (r: Reg)
        ensures
            r.id() == rs1_of(self.0),
    {
        reg_at(self.0, 19)
    }

    pub fn rs2(&self) -> (r: Reg)
        ensures
            r.id() == rs2_of(self.0),
    {
        reg_at(self.0, 24)
    }
}

/// `remu rd, rs1, rs2`.
#[derive(Clone, Copy, Debug, PartialEq, Eq, Structural)]
pub struct Remu(pub u32);

impl Remu {
    /// `w` encodes `remu`.
    pub open spec fn is_encoding(w: u32) -> bool {
        is_full(w)
        && major(w) == OPC_OP
        && funct3(w) == 7
        && funct7(w) == 1
    }

    pub fn rd(&self) -> (r: Reg)
        ensures
            r.id() == rd_of(self.0),
    {
        reg_at(self.0, 11)
    }

    pub fn rs1(&self) -> (r: Reg)
        ensures
            r.id() == rs1_of(self.0),
    {
        reg_at(self.0, 19)
    }

    pub fn rs2(&self) -> (r: Reg)
        ensures
            r.id() == rs2_of(self.0),
    {
        reg_at(self.0, 24)
    }
}

} // verus!
