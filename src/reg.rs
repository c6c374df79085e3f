//! General-purpose and floating-point register names.
use vstd::prelude::*;

verus! {

/// One of the 32 general-purpose registers, by its ABI name. `Zero` is
/// hard-wired to zero.
#[derive(Clone, Copy, Debug, PartialEq, Eq, Structural)]
pub enum Reg {
    Zero,
    Ra,
    Sp,
    Gp,
    Tp,
    T0,
    T1,
    T2,
    S0,
    S1,
    A0,
    A1,
    A2,
    A3,
    A4,
    A5,
    A6,
    A7,
    S2,
    S3,
    S4,
    S5,
    S6,
    S7,
    S8,
    S9,
    S10,
    S11,
    T3,
    T4,
    T5,
    T6,
}

impl Reg {
    /// The register's number, `0..32`.
    pub open spec fn id(self) -> nat {
        match self {
            Reg::Zero => 0,
            Reg::Ra => 1,
            Reg::Sp => 2,
            Reg::Gp => 3,
            Reg::Tp => 4,
            Reg::T0 => 5,
            Reg::T1 => 6,
            Reg::T2 => 7,
            Reg::S0 => 8,
            Reg::S1 => 9,
            Reg::A0 => 10,
            Reg::A1 => 11,
            Reg::A2 => 12,
            Reg::A3 => 13,
            Reg::A4 => 14,
            Reg::A5 => 15,
            Reg::A6 => 16,
            Reg::A7 => 17,
            Reg::S2 => 18,
            Reg::S3 => 19,
            Reg::S4 => 20,
            Reg::S5 => 21,
            Reg::S6 => 22,
            Reg::S7 => 23,
            Reg::S8 => 24,
            Reg::S9 => 25,
            Reg::S10 => 26,
            Reg::S11 => 27,
            Reg::T3 => 28,
            Reg::T4 => 29,
            Reg::T5 => 30,
            Reg::T6 => 31,
        }
    }

    /// The register with number `v`.
    pub fn from_u5(v: u32) -> (r: Reg)
        requires
            v < 32,
        ensures
            r.id() == v,
    {
        match v {
            0 => Reg::Zero,
            1 => Reg::Ra,
            2 => Reg::Sp,
            3 => Reg::Gp,
            4 => Reg::Tp,
            5 => Reg::T0,
            6 => Reg::T1,
            7 => Reg::T2,
            8 => Reg::S0,
            9 => Reg::S1,
            10 => Reg::A0,
            11 => Reg::A1,
            12 => Reg::A2,
            13 => Reg::A3,
            14 => Reg::A4,
            15 => Reg::A5,
            16 => Reg::A6,
            17 => Reg::A7,
            18 => Reg::S2,
            19 => Reg::S3,
            20 => Reg::S4,
            21 => Reg::S5,
            22 => Reg::S6,
            23 => Reg::S7,
            24 => Reg::S8,
            25 => Reg::S9,
            26 => Reg::S10,
            27 => Reg::S11,
            28 => Reg::T3,
            29 => Reg::T4,
            30 => Reg::T5,
            _ => Reg::T6,
        }
    }

    /// The register's number as an index.
    pub fn index(self) -> (r: usize)
        ensures
            r == self.id(),
            r < 32,
    {
        match self {
            Reg::Zero => 0,
            Reg::Ra => 1,
            Reg::Sp => 2,
            Reg::Gp => 3,
            Reg::Tp => 4,
            Reg::T0 => 5,
            Reg::T1 => 6,
            Reg::T2 => 7,
            Reg::S0 => 8,
            Reg::S1 => 9,
            Reg::A0 => 10,
            Reg::A1 => 11,
            Reg::A2 => 12,
            Reg::A3 => 13,
            Reg::A4 => 14,
            Reg::A5 => 15,
            Reg::A6 => 16,
            Reg::A7 => 17,
            Reg::S2 => 18,
            Reg::S3 => 19,
            Reg::S4 => 20,
            Reg::S5 => 21,
            Reg::S6 => 22,
            Reg::S7 => 23,
            Reg::S8 => 24,
            Reg::S9 => 25,
            Reg::S10 => 26,
            Reg::S11 => 27,
            Reg::T3 => 28,
            Reg::T4 => 29,
            Reg::T5 => 30,
            Reg::T6 => 31,
        }
    }
}

/// One of the 32 floating-point registers, by its ABI name.
#[derive(Clone, Copy, Debug, PartialEq, Eq, Structural)]
pub enum FReg {
    Ft0,
    Ft1,
    Ft2,
    Ft3,
    Ft4,
    Ft5,
    Ft6,
    Ft7,
    Fs0,
    Fs1,
    Fa0,
    Fa1,
    Fa2,
    Fa3,
    Fa4,
    Fa5,
    Fa6,
    Fa7,
    Fs2,
    Fs3,
    Fs4,
    Fs5,
    Fs6,
    Fs7,
    Fs8,
    Fs9,
    Fs10,
    Fs11,
    Ft8,
    Ft9,
    Ft10,
    Ft11,
}

impl FReg {
    /// The register's number, `0..32`.
    pub open spec fn id(self) -> nat {
        match self {
            FReg::Ft0 => 0,
            FReg::Ft1 => 1,
            FReg::Ft2 => 2,
            FReg::Ft3 => 3,
            FReg::Ft4 => 4,
            FReg::Ft5 => 5,
            FReg::Ft6 => 6,
            FReg::Ft7 => 7,
            FReg::Fs0 => 8,
            FReg::Fs1 => 9,
            FReg::Fa0 => 10,
            FReg::Fa1 => 11,
            FReg::Fa2 => 12,
            FReg::Fa3 => 13,
            FReg::Fa4 => 14,
            FReg::Fa5 => 15,
            FReg::Fa6 => 16,
            FReg::Fa7 => 17,
            FReg::Fs2 => 18,
            FReg::Fs3 => 19,
            FReg::Fs4 => 20,
            FReg::Fs5 => 21,
            FReg::Fs6 => 22,
            FReg::Fs7 => 23,
            FReg::Fs8 => 24,
            FReg::Fs9 => 25,
            FReg::Fs10 => 26,
            FReg::Fs11 => 27,
            FReg::Ft8 => 28,
            FReg::Ft9 => 29,
            FReg::Ft10 => 30,
            FReg::Ft11 => 31,
        }
    }

    /// The register with number `v`.
    pub fn from_u5(v: u32) -> (r: FReg)
        requires
            v < 32,
        ensures
            r.id() == v,
    {
        match v {
            0 => FReg::Ft0,
            1 => FReg::Ft1,
            2 => FReg::Ft2,
            3 => FReg::Ft3,
            4 => FReg::Ft4,
            5 => FReg::Ft5,
            6 => FReg::Ft6,
            7 => FReg::Ft7,
            8 => FReg::Fs0,
            9 => FReg::Fs1,
            10 => FReg::Fa0,
            11 => FReg::Fa1,
            12 => FReg::Fa2,
            13 => FReg::Fa3,
            14 => FReg::Fa4,
            15 => FReg::Fa5,
            16 => FReg::Fa6,
            17 => FReg::Fa7,
            18 => FReg::Fs2,
            19 => FReg::Fs3,
            20 => FReg::Fs4,
            21 => FReg::Fs5,
            22 => FReg::Fs6,
            23 => FReg::Fs7,
            24 => FReg::Fs8,
            25 => FReg::Fs9,
            26 => FReg::Fs10,
            27 => FReg::Fs11,
            28 => FReg::Ft8,
            29 => FReg::Ft9,
            30 => FReg::Ft10,
            _ => FReg::Ft11,
        }
    }

    /// The register's number as an index.
    pub fn index(self) -> (r: usize)
        ensures
            r == self.id(),
            r < 32,
    {
        match self {
            FReg::Ft0 => 0,
            FReg::Ft1 => 1,
            FReg::Ft2 => 2,
            FReg::Ft3 => 3,
            FReg::Ft4 => 4,
            FReg::Ft5 => 5,
            FReg::Ft6 => 6,
            FReg::Ft7 => 7,
            FReg::Fs0 => 8,
            FReg::Fs1 => 9,
            FReg::Fa0 => 10,
            FReg::Fa1 => 11,
            FReg::Fa2 => 12,
            FReg::Fa3 => 13,
            FReg::Fa4 => 14,
            FReg::Fa5 => 15,
            FReg::Fa6 => 16,
            FReg::Fa7 => 17,
            FReg::Fs2 => 18,
            FReg::Fs3 => 19,
            FReg::Fs4 => 20,
            FReg::Fs5 => 21,
            FReg::Fs6 => 22,
            FReg::Fs7 => 23,
            FReg::Fs8 => 24,
            FReg::Fs9 => 25,
            FReg::Fs10 => 26,
            FReg::Fs11 => 27,
            FReg::Ft8 => 28,
            FReg::Ft9 => 29,
            FReg::Ft10 => 30,
            FReg::Ft11 => 31,
        }
    }
}

} // verus!
