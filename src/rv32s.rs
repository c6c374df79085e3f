//! The privileged instructions: trap returns, fences of the address
//! translation caches, wait-for-interrupt, and CSR access.
use crate::bits::{bits5_of, field};
use crate::encoding::{OPC_SYSTEM, funct3, funct7, is_full, is_unimp, major};
use crate::formats::{csr_at, rd_of, reg_at, rs1_of, rs2_of};
use crate::reg::Reg;
use vstd::prelude::*;

verus! {

/// A decoded instruction of this subset; each variant wraps the raw word.
#[derive(Clone, Copy, Debug, PartialEq, Eq, Structural)]
pub enum Rv32s {
    Uret(Uret),
    Sret(Sret),
    Hret(Hret),
    Mret(Mret),
    Dret(Dret),
    SfenceVm(SfenceVm),
    SfenceVma(SfenceVma),
    Wfi(Wfi),
    Csrrw(Csrrw),
    Csrrs(Csrrs),
    Csrrc(Csrrc),
    Csrrwi(Csrrwi),
    Csrrsi(Csrrsi),
    Csrrci(Csrrci),
}

impl Rv32s {
    /// The instruction word this value was decoded from.
    pub open spec fn raw(self) -> u32 {
        match self {
            Rv32s::Uret(x) => x.0,
            Rv32s::Sret(x) => x.0,
            Rv32s::Hret(x) => x.0,
            Rv32s::Mret(x) => x.0,
            Rv32s::Dret(x) => x.0,
            Rv32s::SfenceVm(x) => x.0,
            Rv32s::SfenceVma(x) => x.0,
            Rv32s::Wfi(x) => x.0,
            Rv32s::Csrrw(x) => x.0,
            Rv32s::Csrrs(x) => x.0,
            Rv32s::Csrrc(x) => x.0,
            Rv32s::Csrrwi(x) => x.0,
            Rv32s::Csrrsi(x) => x.0,
            Rv32s::Csrrci(x) => x.0,
        }
    }

    /// The wrapped word is an encoding of the variant's mnemonic.
    pub open spec fn valid(self) -> bool {
        match self {
            Rv32s::Uret(x) => Uret::is_encoding(x.0),
            Rv32s::Sret(x) => Sret::is_encoding(x.0),
            Rv32s::Hret(x) => Hret::is_encoding(x.0),
            Rv32s::Mret(x) => Mret::is_encoding(x.0),
            Rv32s::Dret(x) => Dret::is_encoding(x.0),
            Rv32s::SfenceVm(x) => SfenceVm::is_encoding(x.0),
            Rv32s::SfenceVma(x) => SfenceVma::is_encoding(x.0),
            Rv32s::Wfi(x) => Wfi::is_encoding(x.0),
            Rv32s::Csrrw(x) => Csrrw::is_encoding(x.0),
            Rv32s::Csrrs(x) => Csrrs::is_encoding(x.0),
            Rv32s::Csrrc(x) => Csrrc::is_encoding(x.0),
            Rv32s::Csrrwi(x) => Csrrwi::is_encoding(x.0),
            Rv32s::Csrrsi(x) => Csrrsi::is_encoding(x.0),
            Rv32s::Csrrci(x) => Csrrci::is_encoding(x.0),
        }
    }
}

/// `uret`.
#[derive(Clone, Copy, Debug, PartialEq, Eq, Structural)]
pub struct Uret(pub u32);

impl Uret {
    /// `w` encodes `uret`.
    pub open spec fn is_encoding(w: u32) -> bool {
        is_full(w)
        && major(w) == OPC_SYSTEM
        && funct3(w) == 0
        && rd_of(w) == 0
        && rs1_of(w) == 0
        && funct7(w) == 0x0
        && rs2_of(w) == 0x2
    }
}

/// `sret`.
#[derive(Clone, Copy, Debug, PartialEq, Eq, Structural)]
pub struct Sret(pub u32);

impl Sret {
    /// `w` encodes `sret`.
    pub open spec fn is_encoding(w: u32) -> bool {
        is_full(w)
        && major(w) == OPC_SYSTEM
        && funct3(w) == 0
        && rd_of(w) == 0
        && rs1_of(w) == 0
        && funct7(w) == 0x8
        && rs2_of(w) == 0x2
    }
}

/// `hret`.
#[derive(Clone, Copy, Debug, PartialEq, Eq, Structural)]
pub struct Hret(pub u32);

impl Hret {
    /// `w` encodes `hret`.
    pub open spec fn is_encoding(w: u32) -> bool {
        is_full(w)
        && major(w) == OPC_SYSTEM
        && funct3(w) == 0
        && rd_of(w) == 0
        && rs1_of(w) == 0
        && funct7(w) == 0x10
        && rs2_of(w) == 0x2
    }
}

/// `mret`.
#[derive(Clone, Copy, Debug, PartialEq, Eq, Structural)]
pub struct Mret(pub u32);

impl Mret {
    /// `w` encodes `mret`.
    pub open spec fn is_encoding(w: u32) -> bool {
        is_full(w)
        && major(w) == OPC_SYSTEM
        && funct3(w) == 0
        && rd_of(w) == 0
        && rs1_of(w) == 0
        && funct7(w) == 0x18
        && rs2_of(w) == 0x2
    }
}

/// `dret`.
#[derive(Clone, Copy, Debug, PartialEq, Eq, Structural)]
pub struct Dret(pub u32);

impl Dret {
    /// `w` encodes `dret`.
    pub open spec fn is_encoding(w: u32) -> bool {
        is_full(w)
        && major(w) == OPC_SYSTEM
        && funct3(w) == 0
        && rd_of(w) == 0
        && rs1_of(w) == 0
        && funct7(w) == 0x3d
        && rs2_of(w) == 0x12
    }
}

/// `sfence.vm rs1`.
#[derive(Clone, Copy, Debug, PartialEq, Eq, Structural)]
pub struct SfenceVm(pub u32);

impl SfenceVm {
    /// `w` encodes `sfence.vm`.
    pub open spec fn is_encoding(w: u32) -> bool {
        is_full(w)
        && major(w) == OPC_SYSTEM
        && funct3(w) == 0
        && rd_of(w) == 0
        && funct7(w) == 0x8
        && rs2_of(w) == 0x4
    }

    pub fn rs1(&self) -> (r: Reg)
        ensures
            r.id() == rs1_of(self.0),
    {
        reg_at(self.0, 19)
    }
}

/// `sfence.vma rs1, rs2`.
#[derive(Clone, Copy, Debug, PartialEq, Eq, Structural)]
pub struct SfenceVma(pub u32);

impl SfenceVma {
    /// `w` encodes `sfence.vma`.
    pub open spec fn is_encoding(w: u32) -> bool {
        is_full(w)
        && major(w) == OPC_SYSTEM
        && funct3(w) == 0
        && rd_of(w) == 0
        && funct7(w) == 0x9
    }

    pub fn rs1(&self) -> (r: Reg)
        ensures
            r.id() == rs1_of(self.0),
    {
        reg_at(self.0, 19)
    }

    pub fn rs2(&self) -> (r: Reg)
        ensures
            r.id() == rs2_of(self.0),
    {
        reg_at(self.0, 24)
    }
}

/// `wfi`.
#[derive(Clone, Copy, Debug, PartialEq, Eq, Structural)]
pub struct Wfi(pub u32);

impl Wfi {
    /// `w` encodes `wfi`.
    pub open spec fn is_encoding(w: u32) -> bool {
        is_full(w)
        && major(w) == OPC_SYSTEM
        && funct3(w) == 0
        && rd_of(w) == 0
        && rs1_of(w) == 0
        && funct7(w) == 0x8
        && rs2_of(w) == 0x5
    }
}

/// `csrrw rd, csr, rs1`.
#[derive(Clone, Copy, Debug, PartialEq, Eq, Structural)]
pub struct Csrrw(pub u32);

impl Csrrw {
    /// `w` encodes `csrrw`.
    pub open spec fn is_encoding(w: u32) -> bool {
        is_full(w)
        && major(w) == OPC_SYSTEM
        && funct3(w) == 1
        && !is_unimp(w)
    }

    pub fn rd(&self) -> (r: Reg)
        ensures
            r.id() == rd_of(self.0),
    {
        reg_at(self.0, 11)
    }

    pub fn rs1(&self) -> (r: Reg)
        ensures
            r.id() == rs1_of(self.0),
    {
        reg_at(self.0, 19)
    }

    pub fn csr12(&self) -> (r: u32)
        ensures
            r == field(self.0, 31, 20),
            r < 4096,
    {
        csr_at(self.0)
    }
}

/// `csrrs rd, csr, rs1`.
#[derive(Clone, Copy, Debug, PartialEq, Eq, Structural)]
pub struct Csrrs(pub u32);

impl Csrrs {
    /// `w` encodes `csrrs`.
    pub open spec fn is_encoding(w: u32) -> bool {
        is_full(w)
        && major(w) == OPC_SYSTEM
        && funct3(w) == 2
    }

    pub fn rd(&self) -> (r: Reg)
        ensures
            r.id() == rd_of(self.0),
    {
        reg_at(self.0, 11)
    }

    pub fn rs1(&self) -> (r: Reg)
        ensures
            r.id() == rs1_of(self.0),
    {
        reg_at(self.0, 19)
    }

    pub fn csr12(&self) -> (r: u32)
        ensures
            r == field(self.0, 31, 20),
            r < 4096,
    {
        csr_at(self.0)
    }
}

/// `csrrc rd, csr, rs1`.
#[derive(Clone, Copy, Debug, PartialEq, Eq, Structural)]
pub struct Csrrc(pub u32);

impl Csrrc {
    /// `w` encodes `csrrc`.
    pub open spec fn is_encoding(w: u32) -> bool {
        is_full(w)
        && major(w) == OPC_SYSTEM
        && funct3(w) == 3
    }

    pub fn rd(&self) -> (r: Reg)
        ensures
            r.id() == rd_of(self.0),
    {
        reg_at(self.0, 11)
    }

    pub fn rs1(&self) -> (r: Reg)
        ensures
            r.id() == rs1_of(self.0),
    {
        reg_at(self.0, 19)
    }

    pub fn csr12(&self) -> (r: u32)
        ensures
            r == field(self.0, 31, 20),
            r < 4096,
    {
        csr_at(self.0)
    }
}

/// `csrrwi rd, csr, uimm`.
#[derive(Clone, Copy, Debug, PartialEq, Eq, Structural)]
pub struct Csrrwi(pub u32);

impl Csrrwi {
    /// `w` encodes `csrrwi`.
    pub open spec fn is_encoding(w: u32) -> bool {
        is_full(w)
        && major(w) == OPC_SYSTEM
        && funct3(w) == 5
    }

    pub fn rd(&self) -> (r: Reg)
        ensures
            r.id() == rd_of(self.0),
    {
        reg_at(self.0, 11)
    }

    pub fn csr12(&self) -> (r: u32)
        ensures
            r == field(self.0, 31, 20),
            r < 4096,
    {
        csr_at(self.0)
    }

    pub fn imm(&self) -> (r: u32)
        ensures
            r == field(self.0, 19, 15),
            r < 32,
    {
        bits5_of(self.0, 19)
    }
}

/// `csrrsi rd, csr, uimm`.
#[derive(Clone, Copy, Debug, PartialEq, Eq, Structural)]
pub struct Csrrsi(pub u32);

impl Csrrsi {
    /// `w` encodes `csrrsi`.
    pub open spec fn is_encoding(w: u32) -> bool {
        is_full(w)
        && major(w) == OPC_SYSTEM
        && funct3(w) == 6
    }

    pub fn rd(&self) -> (r: Reg)
        ensures
            r.id() == rd_of(self.0),
    {
        reg_at(self.0, 11)
    }

    pub fn csr12(&self) -> (r: u32)
        ensures
            r == field(self.0, 31, 20),
            r < 4096,
    {
        csr_at(self.0)
    }

    pub fn imm(&self) -> (r: u32)
        ensures
            r == field(self.0, 19, 15),
            r < 32,
    {
        bits5_of(self.0, 19)
    }
}

/// `csrrci rd, csr, uimm`.
#[derive(Clone, Copy, Debug, PartialEq, Eq, Structural)]
pub struct Csrrci(pub u32);

impl Csrrci {
    /// `w` encodes `csrrci`.
    pub open spec fn is_encoding(w: u32) -> bool {
        is_full(w)
        && major(w) == OPC_SYSTEM
        && funct3(w) == 7
    }

    pub fn rd(&self) -> (r: Reg)
        ensures
            r.id() == rd_of(self.0),
    {
        reg_at(self.0, 11)
    }

    pub fn csr12(&self) -> (r: u32)
        ensures
            r == field(self.0, 31, 20),
            r < 4096,
    {
        csr_at(self.0)
    }

    pub fn imm(&self) -> (r: u32)
        ensures
            r == field(self.0, 19, 15),
            r < 32,
    {
        bits5_of(self.0, 19)
    }
}

} // verus!
