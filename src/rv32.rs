//! The RV32 decoder: from an instruction word to the instruction it encodes.
use crate::bits::{bits5_of, bits_of, field};
use vstd::arithmetic::power2::lemma2_to64;
use crate::encoding::{
    OPC_AMO, OPC_AUIPC, OPC_BRANCH, OPC_JAL, OPC_JALR, OPC_LOAD, OPC_LOAD_FP, OPC_LUI, OPC_MADD,
    OPC_MISC_MEM, OPC_MSUB, OPC_NMADD, OPC_NMSUB, OPC_OP, OPC_OP_FP, OPC_OP_IMM, OPC_STORE,
    OPC_STORE_FP, OPC_SYSTEM,
};
use crate::rv32d::{
    FaddD, FclassD, FcvtDS, FcvtDW, FcvtDWu, FcvtSD, FcvtWD, FcvtWuD, FdivD, FeqD, Fld, FleD, FltD,
    FmaddD, FmaxD, FminD, FmsubD, FmulD, FnmaddD, FnmsubD, Fsd, FsgnjD, FsgnjnD, FsgnjxD, FsqrtD,
    FsubD, Rv32d,
};
use crate::rv32a::{
    AmoaddW, AmoandW, AmomaxW, AmomaxuW, AmominW, AmominuW, AmoorW, AmoswapW, AmoxorW, LrW, Rv32a,
    ScW,
};
use crate::rv32c::{
    CAdd, CAddi, CAddi16sp, CAddi4spn, CAnd, CAndi, CBeqz, CBnez, CEbreak, CJ, CJal, CJalr, CJr,
    CLi, CLui, CLw, CLwsp, CMv, CNop, COr, CSlli, CSrai, CSrli, CSub, CSw, CSwsp, CUnimp, CXor,
    Rv32c,
};
use crate::rv32i::{
    Add, Addi, And, Andi, Auipc, Beq, Bge, Bgeu, Blt, Bltu, Bne, Ebreak, Ecall, Fence, FenceI, Jal,
    Jalr, Lb, Lbu, Lh, Lhu, Lui, Lw, Or, Ori, Rv32i, Sb, Sh, Sll, Slli, Slt, Slti, Sltiu, Sltu, Sra,
    Srai, Srl, Srli, Sub, Sw, Unimp, Xor, Xori,
};
use crate::rv32m::{Div, Divu, Mul, Mulh, Mulhsu, Mulhu, Rem, Remu, Rv32m};
use crate::rv32s::{
    Csrrc, Csrrci, Csrrs, Csrrsi, Csrrw, Csrrwi, Dret, Hret, Mret, Rv32s, SfenceVm, SfenceVma, Sret,
    Uret, Wfi,
};
use vstd::prelude::*;

verus! {

/// A decoded RV32 instruction, tagged by the subset it belongs to.
#[derive(Clone, Copy, Debug, PartialEq, Eq, Structural)]
pub enum Rv32 {
    Rv32i(Rv32i),
    Rv32m(Rv32m),
    Rv32a(Rv32a),
    Rv32s(Rv32s),
    Rv32c(Rv32c),
    Rv32d(Rv32d),
}

impl Rv32 {
    /// The instruction word this value was decoded from.
    pub open spec fn raw(self) -> u32 {
        match self {
            Rv32::Rv32i(i) => i.raw(),
            Rv32::Rv32m(i) => i.raw(),
            Rv32::Rv32a(i) => i.raw(),
            Rv32::Rv32s(i) => i.raw(),
            Rv32::Rv32c(i) => i.raw(),
            Rv32::Rv32d(i) => i.raw(),
        }
    }

    /// The raw word is an encoding of the mnemonic this value names.
    pub open spec fn valid(self) -> bool {
        match self {
            Rv32::Rv32i(i) => i.valid(),
            Rv32::Rv32m(i) => i.valid(),
            Rv32::Rv32a(i) => i.valid(),
            Rv32::Rv32s(i) => i.valid(),
            Rv32::Rv32c(i) => i.valid(),
            Rv32::Rv32d(i) => i.valid(),
        }
    }

    /// `op` is what `w` decodes to.
    pub open spec fn encodes(op: Rv32, w: u32) -> bool {
        op.valid() && op.raw() == w
    }

    /// The instruction that `w` encodes, or `None` when `w` encodes none.
    pub open spec fn decoding(w: u32) -> Option<Rv32> {
        if exists|op: Rv32| #[trigger] Rv32::encodes(op, w) {
            Some(choose|op: Rv32| #[trigger] Rv32::encodes(op, w))
        } else {
            None
        }
    }

    /// The length in bytes of the instruction.
    pub open spec fn len(self) -> u32 {
        if self is Rv32c {
            2
        } else {
            4
        }
    }

    /// Decodes an instruction word. A word whose low two bits are `0b11` is
    /// a 32-bit instruction; any other is a 16-bit compressed one, of which
    /// only the low 16 bits count.
    pub fn parse(w: u32) -> (r: Option<Rv32>)
        ensures
            r == Rv32::decoding(w),
    {
        let r = if bits_of(w, 1, 0) == 3 {
            parse_full(w)
        } else {
            parse_compressed(w)
        };
        proof {
            match r {
                Some(op) => {
                    assert(Rv32::encodes(op, w));
                    let other = choose|op: Rv32| #[trigger] Rv32::encodes(op, w);
                    lemma_encoding_unique(op, other);
                },
                None => {},
            }
        }
        r
    }

    /// The length in bytes of the instruction: 2 for a compressed one, else 4.
    pub fn length(&self) -> (r: u32)
        ensures
            r == self.len(),
    {
        match self {
            Rv32::Rv32c(_) => 2,
            _ => 4,
        }
    }
}

/// No word encodes two different instructions.
pub proof fn lemma_encoding_unique(a: Rv32, b: Rv32)
    requires
        a.valid(),
        b.valid(),
        a.raw() == b.raw(),
    ensures
        a == b,
{
    match (a, b) {
        (Rv32::Rv32i(x), Rv32::Rv32i(y)) => lemma_unique_i(x, y),
        (Rv32::Rv32m(x), Rv32::Rv32m(y)) => lemma_unique_m(x, y),
        (Rv32::Rv32a(x), Rv32::Rv32a(y)) => lemma_unique_a(x, y),
        (Rv32::Rv32s(x), Rv32::Rv32s(y)) => lemma_unique_s(x, y),
        (Rv32::Rv32c(x), Rv32::Rv32c(y)) => lemma_unique_c(x, y),
        (Rv32::Rv32d(x), Rv32::Rv32d(y)) => lemma_unique_d(x, y),
        (Rv32::Rv32d(x), _) => lemma_fp_not_integer(x, b),
        (_, Rv32::Rv32d(x)) => lemma_fp_not_integer(x, a),
        (Rv32::Rv32i(x), Rv32::Rv32m(y)) => lemma_disjoint_i_m(x, y),
        (Rv32::Rv32m(y), Rv32::Rv32i(x)) => lemma_disjoint_i_m(x, y),
        (Rv32::Rv32i(x), Rv32::Rv32s(y)) => lemma_disjoint_i_s(x, y),
        (Rv32::Rv32s(y), Rv32::Rv32i(x)) => lemma_disjoint_i_s(x, y),
        (Rv32::Rv32i(x), Rv32::Rv32a(y)) => lemma_disjoint_i_a(x, y),
        (Rv32::Rv32a(y), Rv32::Rv32i(x)) => lemma_disjoint_i_a(x, y),
        (Rv32::Rv32c(x), _) => lemma_compressed_not_full(x, b),
        (_, Rv32::Rv32c(x)) => lemma_compressed_not_full(x, a),
        _ => {},
    }
}

#[verifier::spinoff_prover]
#[verifier::rlimit(100)]
proof fn lemma_unique_i(a: Rv32i, b: Rv32i)
    requires
        a.valid(),
        b.valid(),
        a.raw() == b.raw(),
    ensures
        a == b,
{
}

#[verifier::spinoff_prover]
proof fn lemma_unique_m(a: Rv32m, b: Rv32m)
    requires
        a.valid(),
        b.valid(),
        a.raw() == b.raw(),
    ensures
        a == b,
{
}

#[verifier::spinoff_prover]
proof fn lemma_unique_a(a: Rv32a, b: Rv32a)
    requires
        a.valid(),
        b.valid(),
        a.raw() == b.raw(),
    ensures
        a == b,
{
}

#[verifier::spinoff_prover]
#[verifier::rlimit(100)]
proof fn lemma_unique_s(a: Rv32s, b: Rv32s)
    requires
        a.valid(),
        b.valid(),
        a.raw() == b.raw(),
    ensures
        a == b,
{
}

#[verifier::spinoff_prover]
#[verifier::rlimit(100)]
proof fn lemma_unique_c(a: Rv32c, b: Rv32c)
    requires
        a.valid(),
        b.valid(),
        a.raw() == b.raw(),
    ensures
        a == b,
{
}

#[verifier::spinoff_prover]
#[verifier::rlimit(100)]
proof fn lemma_unique_d(a: Rv32d, b: Rv32d)
    requires
        a.valid(),
        b.valid(),
        a.raw() == b.raw(),
    ensures
        a == b,
{
}

#[verifier::spinoff_prover]
#[verifier::rlimit(100)]
proof fn lemma_fp_not_integer(a: Rv32d, b: Rv32)
    requires
        a.valid(),
        !(b is Rv32d),
        b.valid(),
    ensures
        a.raw() != b.raw(),
{
}

#[verifier::spinoff_prover]
proof fn lemma_disjoint_i_m(a: Rv32i, b: Rv32m)
    requires
        a.valid(),
        b.valid(),
    ensures
        a.raw() != b.raw(),
{
}

#[verifier::spinoff_prover]
proof fn lemma_disjoint_i_s(a: Rv32i, b: Rv32s)
    requires
        a.valid(),
        b.valid(),
    ensures
        a.raw() != b.raw(),
{
}

#[verifier::spinoff_prover]
proof fn lemma_disjoint_i_a(a: Rv32i, b: Rv32a)
    requires
        a.valid(),
        b.valid(),
    ensures
        a.raw() != b.raw(),
{
}

#[verifier::spinoff_prover]
proof fn lemma_compressed_not_full(a: Rv32c, b: Rv32)
    requires
        a.valid(),
        !(b is Rv32c),
        b.valid(),
    ensures
        a.raw() != b.raw(),
{
}

/// Decoding an encoded instruction gives that instruction back: for every
/// instruction `op`, `decode(encode(op)) == op`.
pub proof fn lemma_decode_round_trip(op: Rv32)
    requires
        op.valid(),
    ensures
        Rv32::decoding(op.raw()) == Some(op),
{
    assert(Rv32::encodes(op, op.raw()));
    let other = choose|o: Rv32| #[trigger] Rv32::encodes(o, op.raw());
    lemma_encoding_unique(op, other);
}

/// What a partial decoder promises: a result that `w` encodes, or none when
/// `w` encodes nothing.
pub open spec fn decoded(w: u32, r: Option<Rv32>) -> bool {
    match r {
        Some(op) => Rv32::encodes(op, w),
        None => forall|op: Rv32| !#[trigger] Rv32::encodes(op, w),
    }
}

#[verifier::rlimit(50)]
fn parse_full(w: u32) -> (r: Option<Rv32>)
    requires
        field(w, 1, 0) == 3,
    ensures
        decoded(w, r),
{
    proof {
        lemma2_to64();
    }
    let opc = bits5_of(w, 6);
    let f3 = bits_of(w, 14, 12);
    let f7 = bits_of(w, 31, 25);
    let rd = bits5_of(w, 11);
    let rs1 = bits5_of(w, 19);
    let rs2 = bits5_of(w, 24);
    if opc == OPC_LUI {
        Some(Rv32::Rv32i(Rv32i::Lui(Lui(w))))
    } else if opc == OPC_AUIPC {
        Some(Rv32::Rv32i(Rv32i::Auipc(Auipc(w))))
    } else if opc == OPC_JAL {
        Some(Rv32::Rv32i(Rv32i::Jal(Jal(w))))
    } else if opc == OPC_JALR {
        if f3 == 0 {
            Some(Rv32::Rv32i(Rv32i::Jalr(Jalr(w))))
        } else {
            None
        }
    } else if opc == OPC_BRANCH {
        match f3 {
            0 => Some(Rv32::Rv32i(Rv32i::Beq(Beq(w)))),
            1 => Some(Rv32::Rv32i(Rv32i::Bne(Bne(w)))),
            4 => Some(Rv32::Rv32i(Rv32i::Blt(Blt(w)))),
            5 => Some(Rv32::Rv32i(Rv32i::Bge(Bge(w)))),
            6 => Some(Rv32::Rv32i(Rv32i::Bltu(Bltu(w)))),
            7 => Some(Rv32::Rv32i(Rv32i::Bgeu(Bgeu(w)))),
            _ => None,
        }
    } else if opc == OPC_LOAD {
        match f3 {
            0 => Some(Rv32::Rv32i(Rv32i::Lb(Lb(w)))),
            1 => Some(Rv32::Rv32i(Rv32i::Lh(Lh(w)))),
            2 => Some(Rv32::Rv32i(Rv32i::Lw(Lw(w)))),
            4 => Some(Rv32::Rv32i(Rv32i::Lbu(Lbu(w)))),
            5 => Some(Rv32::Rv32i(Rv32i::Lhu(Lhu(w)))),
            _ => None,
        }
    } else if opc == OPC_STORE {
        match f3 {
            0 => Some(Rv32::Rv32i(Rv32i::Sb(Sb(w)))),
            1 => Some(Rv32::Rv32i(Rv32i::Sh(Sh(w)))),
            2 => Some(Rv32::Rv32i(Rv32i::Sw(Sw(w)))),
            _ => None,
        }
    } else if opc == OPC_OP_IMM {
        match f3 {
            0 => Some(Rv32::Rv32i(Rv32i::Addi(Addi(w)))),
            2 => Some(Rv32::Rv32i(Rv32i::Slti(Slti(w)))),
            3 => Some(Rv32::Rv32i(Rv32i::Sltiu(Sltiu(w)))),
            4 => Some(Rv32::Rv32i(Rv32i::Xori(Xori(w)))),
            6 => Some(Rv32::Rv32i(Rv32i::Ori(Ori(w)))),
            7 => Some(Rv32::Rv32i(Rv32i::Andi(Andi(w)))),
            1 => if f7 == 0 {
                Some(Rv32::Rv32i(Rv32i::Slli(Slli(w))))
            } else {
                None
            },
            _ => if f7 == 0 {
                Some(Rv32::Rv32i(Rv32i::Srli(Srli(w))))
            } else if f7 == 0x20 {
                Some(Rv32::Rv32i(Rv32i::Srai(Srai(w))))
            } else {
                None
            },
        }
    } else if opc == OPC_OP {
        parse_op(w, f3, f7)
    } else if opc == OPC_MISC_MEM {
        match f3 {
            0 => Some(Rv32::Rv32i(Rv32i::Fence(Fence(w)))),
            1 => Some(Rv32::Rv32i(Rv32i::FenceI(FenceI(w)))),
            _ => None,
        }
    } else if opc == OPC_AMO {
        if f3 == 2 {
            parse_amo(w, rs2)
        } else {
            None
        }
    } else if opc == OPC_SYSTEM {
        parse_system(w, f3, f7, rd, rs1, rs2)
    } else if opc == OPC_LOAD_FP || opc == OPC_STORE_FP || opc == OPC_MADD || opc == OPC_MSUB || opc
        == OPC_NMSUB || opc == OPC_NMADD || opc == OPC_OP_FP {
        parse_fp(w, opc, f3, f7, rs2)
    } else {
        None
    }
}

#[verifier::rlimit(50)]
fn parse_op(w: u32, f3: u32, f7: u32) -> (r: Option<Rv32>)
    requires
        field(w, 1, 0) == 3,
        field(w, 6, 2) == OPC_OP,
        f3 == field(w, 14, 12),
        f7 == field(w, 31, 25),
    ensures
        decoded(w, r),
{
    proof {
        lemma2_to64();
    }
    if f7 == 0 {
        match f3 {
            0 => Some(Rv32::Rv32i(Rv32i::Add(Add(w)))),
            1 => Some(Rv32::Rv32i(Rv32i::Sll(Sll(w)))),
            2 => Some(Rv32::Rv32i(Rv32i::Slt(Slt(w)))),
            3 => Some(Rv32::Rv32i(Rv32i::Sltu(Sltu(w)))),
            4 => Some(Rv32::Rv32i(Rv32i::Xor(Xor(w)))),
            5 => Some(Rv32::Rv32i(Rv32i::Srl(Srl(w)))),
            6 => Some(Rv32::Rv32i(Rv32i::Or(Or(w)))),
            _ => Some(Rv32::Rv32i(Rv32i::And(And(w)))),
        }
    } else if f7 == 0x20 {
        match f3 {
            0 => Some(Rv32::Rv32i(Rv32i::Sub(Sub(w)))),
            5 => Some(Rv32::Rv32i(Rv32i::Sra(Sra(w)))),
            _ => None,
        }
    } else if f7 == 1 {
        match f3 {
            0 => Some(Rv32::Rv32m(Rv32m::Mul(Mul(w)))),
            1 => Some(Rv32::Rv32m(Rv32m::Mulh(Mulh(w)))),
            2 => Some(Rv32::Rv32m(Rv32m::Mulhsu(Mulhsu(w)))),
            3 => Some(Rv32::Rv32m(Rv32m::Mulhu(Mulhu(w)))),
            4 => Some(Rv32::Rv32m(Rv32m::Div(Div(w)))),
            5 => Some(Rv32::Rv32m(Rv32m::Divu(Divu(w)))),
            6 => Some(Rv32::Rv32m(Rv32m::Rem(Rem(w)))),
            _ => Some(Rv32::Rv32m(Rv32m::Remu(Remu(w)))),
        }
    } else {
        None
    }
}

#[verifier::rlimit(50)]
fn parse_amo(w: u32, rs2: u32) -> (r: Option<Rv32>)
    requires
        field(w, 1, 0) == 3,
        field(w, 6, 2) == OPC_AMO,
        field(w, 14, 12) == 2,
        rs2 == field(w, 24, 20),
    ensures
        decoded(w, r),
{
    proof {
        lemma2_to64();
    }
    let f5 = bits5_of(w, 31);
    match f5 {
        0b00010 => if rs2 == 0 {
            Some(Rv32::Rv32a(Rv32a::LrW(LrW(w))))
        } else {
            None
        },
        0b00011 => Some(Rv32::Rv32a(Rv32a::ScW(ScW(w)))),
        0b00001 => Some(Rv32::Rv32a(Rv32a::AmoswapW(AmoswapW(w)))),
        0b00000 => Some(Rv32::Rv32a(Rv32a::AmoaddW(AmoaddW(w)))),
        0b00100 => Some(Rv32::Rv32a(Rv32a::AmoxorW(AmoxorW(w)))),
        0b01100 => Some(Rv32::Rv32a(Rv32a::AmoandW(AmoandW(w)))),
        0b01000 => Some(Rv32::Rv32a(Rv32a::AmoorW(AmoorW(w)))),
        0b10000 => Some(Rv32::Rv32a(Rv32a::AmominW(AmominW(w)))),
        0b10100 => Some(Rv32::Rv32a(Rv32a::AmomaxW(AmomaxW(w)))),
        0b11000 => Some(Rv32::Rv32a(Rv32a::AmominuW(AmominuW(w)))),
        0b11100 => Some(Rv32::Rv32a(Rv32a::AmomaxuW(AmomaxuW(w)))),
        _ => None,
    }
}

#[verifier::rlimit(50)]
fn parse_system(w: u32, f3: u32, f7: u32, rd: u32, rs1: u32, rs2: u32) -> (r: Option<Rv32>)
    requires
        field(w, 1, 0) == 3,
        field(w, 6, 2) == OPC_SYSTEM,
        f3 == field(w, 14, 12),
        f7 == field(w, 31, 25),
        rd == field(w, 11, 7),
        rs1 == field(w, 19, 15),
        rs2 == field(w, 24, 20),
    ensures
        decoded(w, r),
{
    proof {
        lemma2_to64();
    }
    match f3 {
        0 => if rd != 0 {
            None
        } else if f7 == 0x09 {
            Some(Rv32::Rv32s(Rv32s::SfenceVma(SfenceVma(w))))
        } else if f7 == 0x08 && rs2 == 4 {
            Some(Rv32::Rv32s(Rv32s::SfenceVm(SfenceVm(w))))
        } else if rs1 != 0 {
            None
        } else if f7 == 0 && rs2 == 0 {
            Some(Rv32::Rv32i(Rv32i::Ecall(Ecall(w))))
        } else if f7 == 0 && rs2 == 1 {
            Some(Rv32::Rv32i(Rv32i::Ebreak(Ebreak(w))))
        } else if f7 == 0 && rs2 == 2 {
            Some(Rv32::Rv32s(Rv32s::Uret(Uret(w))))
        } else if f7 == 0x08 && rs2 == 2 {
            Some(Rv32::Rv32s(Rv32s::Sret(Sret(w))))
        } else if f7 == 0x08 && rs2 == 5 {
            Some(Rv32::Rv32s(Rv32s::Wfi(Wfi(w))))
        } else if f7 == 0x10 && rs2 == 2 {
            Some(Rv32::Rv32s(Rv32s::Hret(Hret(w))))
        } else if f7 == 0x18 && rs2 == 2 {
            Some(Rv32::Rv32s(Rv32s::Mret(Mret(w))))
        } else if f7 == 0x3d && rs2 == 0x12 {
            Some(Rv32::Rv32s(Rv32s::Dret(Dret(w))))
        } else {
            None
        },
        1 => if rd == 0 && rs1 == 0 && f7 == 0x60 && rs2 == 0 {
            Some(Rv32::Rv32i(Rv32i::Unimp(Unimp(w))))
        } else {
            Some(Rv32::Rv32s(Rv32s::Csrrw(Csrrw(w))))
        },
        2 => Some(Rv32::Rv32s(Rv32s::Csrrs(Csrrs(w)))),
        3 => Some(Rv32::Rv32s(Rv32s::Csrrc(Csrrc(w)))),
        5 => Some(Rv32::Rv32s(Rv32s::Csrrwi(Csrrwi(w)))),
        6 => Some(Rv32::Rv32s(Rv32s::Csrrsi(Csrrsi(w)))),
        7 => Some(Rv32::Rv32s(Rv32s::Csrrci(Csrrci(w)))),
        _ => None,
    }
}

#[verifier::rlimit(50)]
fn parse_fp(w: u32, opc: u32, f3: u32, f7: u32, rs2: u32) -> (r: Option<Rv32>)
    requires
        field(w, 1, 0) == 3,
        opc == field(w, 6, 2),
        opc == OPC_LOAD_FP || opc == OPC_STORE_FP || opc == OPC_MADD || opc == OPC_MSUB || opc
            == OPC_NMSUB || opc == OPC_NMADD || opc == OPC_OP_FP,
        f3 == field(w, 14, 12),
        f7 == field(w, 31, 25),
        rs2 == field(w, 24, 20),
    ensures
        decoded(w, r),
{
    proof {
        lemma2_to64();
    }
    if opc == OPC_LOAD_FP {
        if f3 == 3 {
            Some(Rv32::Rv32d(Rv32d::Fld(Fld(w))))
        } else {
            None
        }
    } else if opc == OPC_STORE_FP {
        if f3 == 3 {
            Some(Rv32::Rv32d(Rv32d::Fsd(Fsd(w))))
        } else {
            None
        }
    } else if opc != OPC_OP_FP {
        if bits_of(w, 26, 25) != 1 {
            None
        } else if opc == OPC_MADD {
            Some(Rv32::Rv32d(Rv32d::FmaddD(FmaddD(w))))
        } else if opc == OPC_MSUB {
            Some(Rv32::Rv32d(Rv32d::FmsubD(FmsubD(w))))
        } else if opc == OPC_NMSUB {
            Some(Rv32::Rv32d(Rv32d::FnmsubD(FnmsubD(w))))
        } else {
            Some(Rv32::Rv32d(Rv32d::FnmaddD(FnmaddD(w))))
        }
    } else {
        parse_fp_op(w, f3, f7, rs2)
    }
}

#[verifier::rlimit(50)]
fn parse_fp_op(w: u32, f3: u32, f7: u32, rs2: u32) -> (r: Option<Rv32>)
    requires
        field(w, 1, 0) == 3,
        field(w, 6, 2) == OPC_OP_FP,
        f3 == field(w, 14, 12),
        f7 == field(w, 31, 25),
        rs2 == field(w, 24, 20),
    ensures
        decoded(w, r),
{
    proof {
        lemma2_to64();
    }
    match f7 {
        0x01 => Some(Rv32::Rv32d(Rv32d::FaddD(FaddD(w)))),
        0x05 => Some(Rv32::Rv32d(Rv32d::FsubD(FsubD(w)))),
        0x09 => Some(Rv32::Rv32d(Rv32d::FmulD(FmulD(w)))),
        0x0d => Some(Rv32::Rv32d(Rv32d::FdivD(FdivD(w)))),
        0x11 => match f3 {
            0 => Some(Rv32::Rv32d(Rv32d::FsgnjD(FsgnjD(w)))),
            1 => Some(Rv32::Rv32d(Rv32d::FsgnjnD(FsgnjnD(w)))),
            2 => Some(Rv32::Rv32d(Rv32d::FsgnjxD(FsgnjxD(w)))),
            _ => None,
        },
        0x15 => match f3 {
            0 => Some(Rv32::Rv32d(Rv32d::FminD(FminD(w)))),
            1 => Some(Rv32::Rv32d(Rv32d::FmaxD(FmaxD(w)))),
            _ => None,
        },
        0x20 => if rs2 == 1 {
            Some(Rv32::Rv32d(Rv32d::FcvtSD(FcvtSD(w))))
        } else {
            None
        },
        0x21 => if rs2 == 0 {
            Some(Rv32::Rv32d(Rv32d::FcvtDS(FcvtDS(w))))
        } else {
            None
        },
        0x2d => if rs2 == 0 {
            Some(Rv32::Rv32d(Rv32d::FsqrtD(FsqrtD(w))))
        } else {
            None
        },
        0x51 => match f3 {
            0 => Some(Rv32::Rv32d(Rv32d::FleD(FleD(w)))),
            1 => Some(Rv32::Rv32d(Rv32d::FltD(FltD(w)))),
            2 => Some(Rv32::Rv32d(Rv32d::FeqD(FeqD(w)))),
            _ => None,
        },
        0x61 => if rs2 == 0 {
            Some(Rv32::Rv32d(Rv32d::FcvtWD(FcvtWD(w))))
        } else if rs2 == 1 {
            Some(Rv32::Rv32d(Rv32d::FcvtWuD(FcvtWuD(w))))
        } else {
            None
        },
        0x69 => if rs2 == 0 {
            Some(Rv32::Rv32d(Rv32d::FcvtDW(FcvtDW(w))))
        } else if rs2 == 1 {
            Some(Rv32::Rv32d(Rv32d::FcvtDWu(FcvtDWu(w))))
        } else {
            None
        },
        0x71 => if rs2 == 0 && f3 == 1 {
            Some(Rv32::Rv32d(Rv32d::FclassD(FclassD(w))))
        } else {
            None
        },
        _ => None,
    }
}

#[verifier::rlimit(50)]
fn parse_compressed(w: u32) -> (r: Option<Rv32>)
    requires
        field(w, 1, 0) != 3,
    ensures
        decoded(w, r),
{
    proof {
        lemma2_to64();
    }
    let q = bits_of(w, 1, 0);
    let f3 = bits_of(w, 15, 13);
    let b12 = bits_of(w, 12, 12);
    let rd = bits5_of(w, 11);
    let rs2 = bits5_of(w, 6);
    if q == 0 {
        match f3 {
            0 => if bits_of(w, 12, 5) != 0 {
                Some(Rv32::Rv32c(Rv32c::CAddi4spn(CAddi4spn(w))))
            } else if bits_of(w, 4, 2) == 0 {
                Some(Rv32::Rv32c(Rv32c::CUnimp(CUnimp(w))))
            } else {
                None
            },
            2 => Some(Rv32::Rv32c(Rv32c::CLw(CLw(w)))),
            6 => Some(Rv32::Rv32c(Rv32c::CSw(CSw(w)))),
            _ => None,
        }
    } else if q == 1 {
        match f3 {
            0 => if rd == 0 {
                Some(Rv32::Rv32c(Rv32c::CNop(CNop(w))))
            } else {
                Some(Rv32::Rv32c(Rv32c::CAddi(CAddi(w))))
            },
            1 => Some(Rv32::Rv32c(Rv32c::CJal(CJal(w)))),
            2 => Some(Rv32::Rv32c(Rv32c::CLi(CLi(w)))),
            3 => if rd == 2 {
                Some(Rv32::Rv32c(Rv32c::CAddi16sp(CAddi16sp(w))))
            } else {
                Some(Rv32::Rv32c(Rv32c::CLui(CLui(w))))
            },
            4 => parse_compressed_alu(w, b12),
            5 => Some(Rv32::Rv32c(Rv32c::CJ(CJ(w)))),
            6 => Some(Rv32::Rv32c(Rv32c::CBeqz(CBeqz(w)))),
            _ => Some(Rv32::Rv32c(Rv32c::CBnez(CBnez(w)))),
        }
    } else {
        match f3 {
            0 => if b12 == 0 {
                Some(Rv32::Rv32c(Rv32c::CSlli(CSlli(w))))
            } else {
                None
            },
            2 => Some(Rv32::Rv32c(Rv32c::CLwsp(CLwsp(w)))),
            6 => Some(Rv32::Rv32c(Rv32c::CSwsp(CSwsp(w)))),
            4 => if b12 == 0 {
                if rs2 != 0 {
                    Some(Rv32::Rv32c(Rv32c::CMv(CMv(w))))
                } else if rd != 0 {
                    Some(Rv32::Rv32c(Rv32c::CJr(CJr(w))))
                } else {
                    None
                }
            } else {
                if rs2 != 0 {
                    Some(Rv32::Rv32c(Rv32c::CAdd(CAdd(w))))
                } else if rd != 0 {
                    Some(Rv32::Rv32c(Rv32c::CJalr(CJalr(w))))
                } else {
                    Some(Rv32::Rv32c(Rv32c::CEbreak(CEbreak(w))))
                }
            },
            _ => None,
        }
    }
}

#[verifier::rlimit(50)]
fn parse_compressed_alu(w: u32, b12: u32) -> (r: Option<Rv32>)
    requires
        field(w, 1, 0) == 1,
        field(w, 15, 13) == 4,
        b12 == field(w, 12, 12),
    ensures
        decoded(w, r),
{
    proof {
        lemma2_to64();
    }
    let f2 = bits_of(w, 11, 10);
    if f2 == 0 {
        if b12 == 0 {
            Some(Rv32::Rv32c(Rv32c::CSrli(CSrli(w))))
        } else {
            None
        }
    } else if f2 == 1 {
        if b12 == 0 {
            Some(Rv32::Rv32c(Rv32c::CSrai(CSrai(w))))
        } else {
            None
        }
    } else if f2 == 2 {
        Some(Rv32::Rv32c(Rv32c::CAndi(CAndi(w))))
    } else if b12 != 0 {
        None
    } else {
        let f = bits_of(w, 6, 5);
        if f == 0 {
            Some(Rv32::Rv32c(Rv32c::CSub(CSub(w))))
        } else if f == 1 {
            Some(Rv32::Rv32c(Rv32c::CXor(CXor(w))))
        } else if f == 2 {
            Some(Rv32::Rv32c(Rv32c::COr(COr(w))))
        } else {
            Some(Rv32::Rv32c(Rv32c::CAnd(CAnd(w))))
        }
    }
}

} // verus!
