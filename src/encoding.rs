//! The fixed fields that tell instructions apart: the instruction length,
//! the major opcode, and the function codes.
use crate::bits::field;
use vstd::prelude::*;

verus! {

// Major opcodes, `w[6:2]` of a 32-bit instruction.
pub const OPC_LOAD: u32 = 0b00000;
pub const OPC_LOAD_FP: u32 = 0b00001;
pub const OPC_MISC_MEM: u32 = 0b00011;
pub const OPC_OP_IMM: u32 = 0b00100;
pub const OPC_AUIPC: u32 = 0b00101;
pub const OPC_OP_IMM_32: u32 = 0b00110;
pub const OPC_STORE: u32 = 0b01000;
pub const OPC_STORE_FP: u32 = 0b01001;
pub const OPC_AMO: u32 = 0b01011;
pub const OPC_OP: u32 = 0b01100;
pub const OPC_LUI: u32 = 0b01101;
pub const OPC_OP_32: u32 = 0b01110;
pub const OPC_MADD: u32 = 0b10000;
pub const OPC_MSUB: u32 = 0b10001;
pub const OPC_NMSUB: u32 = 0b10010;
pub const OPC_NMADD: u32 = 0b10011;
pub const OPC_OP_FP: u32 = 0b10100;
pub const OPC_BRANCH: u32 = 0b11000;
pub const OPC_JALR: u32 = 0b11001;
pub const OPC_JAL: u32 = 0b11011;
pub const OPC_SYSTEM: u32 = 0b11100;

/// A 32-bit instruction has both low bits set; anything else is a 16-bit
/// compressed instruction.
pub open spec fn is_full(w: u32) -> bool {
    field(w, 1, 0) == 3
}

/// The major opcode `w[6:2]`.
pub open spec fn major(w: u32) -> nat {
    field(w, 6, 2)
}

/// `funct3`, bits 14..12.
pub open spec fn funct3(w: u32) -> nat {
    field(w, 14, 12)
}

/// `funct7`, bits 31..25.
pub open spec fn funct7(w: u32) -> nat {
    field(w, 31, 25)
}

/// `funct6` of the RV64 immediate shifts, bits 31..26.
pub open spec fn funct6(w: u32) -> nat {
    field(w, 31, 26)
}

/// `funct5` of the atomic instructions, bits 31..27.
pub open spec fn funct5(w: u32) -> nat {
    field(w, 31, 27)
}

/// The floating-point format of a fused multiply-add, bits 26..25.
pub open spec fn fmt(w: u32) -> nat {
    field(w, 26, 25)
}

/// The quadrant of a compressed instruction, bits 1..0.
pub open spec fn quadrant(w: u32) -> nat {
    field(w, 1, 0)
}

/// `funct3` of a compressed instruction, bits 15..13.
pub open spec fn cfunct3(w: u32) -> nat {
    field(w, 15, 13)
}

/// The canonical 32-bit illegal instruction `unimp`, which is
/// `csrrw x0, cycle, x0`: a write to the read-only `cycle` counter.
pub open spec fn is_unimp(w: u32) -> bool {
    &&& is_full(w)
    &&& major(w) == OPC_SYSTEM
    &&& funct3(w) == 1
    &&& field(w, 11, 7) == 0
    &&& field(w, 19, 15) == 0
    &&& funct7(w) == 0x60
    &&& field(w, 24, 20) == 0
}

} // verus!
