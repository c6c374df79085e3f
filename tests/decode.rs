use riscv_vm::arith::{div, divu, mulh, mulhsu, mulhu, rem, remu};
use riscv_vm::isa::{isa_inherits_from, resolve_active_isas, Base, Extension};
use riscv_vm::memory::Memory;
use riscv_vm::reg::{FReg, Reg};
use riscv_vm::rv32d::{FaddD, Fld, Rv32d};
use riscv_vm::rv64i::{Addiw, Ld, Sd, Slli as Slli64, Sraw};
use riscv_vm::rv32::Rv32;
use riscv_vm::rv32a::{LrW, Rv32a};
use riscv_vm::rv32c::{CAddi, CJ, CLwsp, CUnimp, Rv32c};
use riscv_vm::rv32i::{Addi, Beq, Fence, Jal, Lui, Rv32i, Srai, Sw};
use riscv_vm::rv32m::{Div, Rv32m};
use riscv_vm::rv32s::{Csrrwi, Rv32s};

#[test]
fn decode_addi_round_trip() {
    let w = 0x0070_0293;
    assert_eq!(Rv32::parse(w), Some(Rv32::Rv32i(Rv32i::Addi(Addi(w)))));
    let addi = Addi(w);
    assert_eq!(addi.rd(), Reg::T0);
    assert_eq!(addi.rs1(), Reg::Zero);
    assert_eq!(addi.imm(), 7);
}

#[test]
fn decode_negative_i_immediate() {
    assert_eq!(Addi(0xFFF0_0093).imm(), -1);
}

#[test]
fn decode_branch_offset() {
    assert_eq!(Beq(0x0010_8463).imm(), 8);
    assert_eq!(Beq(0x0010_8463).rs1(), Reg::Ra);
    assert_eq!(Beq(0x0010_8463).rs2(), Reg::Ra);
}

#[test]
fn decode_jal_negative_offset() {
    assert_eq!(Rv32::parse(0xFFDF_F0EF), Some(Rv32::Rv32i(Rv32i::Jal(Jal(0xFFDF_F0EF)))));
    assert_eq!(Jal(0xFFDF_F0EF).imm(), -4);
}

#[test]
fn decode_store_offset() {
    assert_eq!(Sw(0x0020_A423).imm(), 8);
    assert_eq!(Sw(0xFE20_AE23).imm(), -4);
}

#[test]
fn decode_lui_upper_immediate() {
    assert_eq!(Lui(0x1234_50B7).imm(), 0x1234_5000);
    assert_eq!(Lui(0xFFFF_F0B7).imm(), -4096);
}

#[test]
fn decode_srai_shamt() {
    assert_eq!(Rv32::parse(0x41F1_5093), Some(Rv32::Rv32i(Rv32i::Srai(Srai(0x41F1_5093)))));
    assert_eq!(Srai(0x41F1_5093).shamt(), 31);
}

#[test]
fn decode_fence_fields() {
    // fence rw, rw
    let w = 0x0330_000F;
    assert_eq!(Rv32::parse(w), Some(Rv32::Rv32i(Rv32i::Fence(Fence(w)))));
    assert_eq!(Fence(w).pred(), 3);
    assert_eq!(Fence(w).succ(), 3);
}

#[test]
fn decode_m_and_a() {
    assert_eq!(Rv32::parse(0x0231_40B3), Some(Rv32::Rv32m(Rv32m::Div(Div(0x0231_40B3)))));
    assert_eq!(Rv32::parse(0x1000_A1AF), Some(Rv32::Rv32a(Rv32a::LrW(LrW(0x1000_A1AF)))));
}

#[test]
fn decode_csr_immediate() {
    // csrrwi x0, 0x305, 5
    let w = 0x3052_D073;
    assert_eq!(Rv32::parse(w), Some(Rv32::Rv32s(Rv32s::Csrrwi(Csrrwi(w)))));
    assert_eq!(Csrrwi(w).csr12(), 0x305);
    assert_eq!(Csrrwi(w).imm(), 5);
}

#[test]
fn decode_compressed() {
    assert_eq!(Rv32::parse(0x0285), Some(Rv32::Rv32c(Rv32c::CAddi(CAddi(0x0285)))));
    assert_eq!(CAddi(0x0285).imm(), 1);
    assert_eq!(CAddi(0x0285).rs1rd(), Reg::T0);
    assert_eq!(Rv32::parse(0x0000), Some(Rv32::Rv32c(Rv32c::CUnimp(CUnimp(0)))));
    // the upper half of a compressed word is ignored
    assert_eq!(
        Rv32::parse(0xABCD_A001),
        Some(Rv32::Rv32c(Rv32c::CJ(CJ(0xABCD_A001))))
    );
    // c.lwsp a0, 12(sp)
    assert_eq!(CLwsp(0x4532).imm(), 12);
    assert_eq!(CLwsp(0x4532).rd(), Reg::A0);
}

#[test]
fn decode_rejects_unknown_words() {
    assert_eq!(Rv32::parse(0xFFFF_FFFF), None);
    // c.addi4spn with a zero immediate is reserved
    assert_eq!(Rv32::parse(0x0004), None);
    assert_eq!(Rv32::parse(0x0000_707F), None);
}

#[test]
fn lengths() {
    assert_eq!(Rv32::parse(0x0285).unwrap().length(), 2);
    assert_eq!(Rv32::parse(0x0070_0293).unwrap().length(), 4);
}

#[test]
fn division_boundaries() {
    assert_eq!(div(0x8000_0000, 0xFFFF_FFFF), 0x8000_0000);
    assert_eq!(rem(0x8000_0000, 0xFFFF_FFFF), 0);
    assert_eq!(div(5, 0), 0xFFFF_FFFF);
    assert_eq!(rem(5, 0), 5);
    assert_eq!(divu(5, 0), 0xFFFF_FFFF);
    assert_eq!(remu(5, 0), 5);
}

#[test]
fn signed_division_truncates() {
    // -7 / 2 == -3, -7 % 2 == -1
    assert_eq!(div((-7i32) as u32, 2), (-3i32) as u32);
    assert_eq!(rem((-7i32) as u32, 2), (-1i32) as u32);
    assert_eq!(div(7, (-2i32) as u32), (-3i32) as u32);
    assert_eq!(rem(7, (-2i32) as u32), 1);
}

#[test]
fn high_products() {
    assert_eq!(mulhu(0xFFFF_FFFF, 0xFFFF_FFFF), 0xFFFF_FFFE);
    assert_eq!(mulh(0xFFFF_FFFF, 0xFFFF_FFFF), 0);
    assert_eq!(mulh(0x8000_0000, 0x8000_0000), 0x4000_0000);
    assert_eq!(mulhsu(0xFFFF_FFFF, 0xFFFF_FFFF), 0xFFFF_FFFF);
}

#[test]
fn inherited_bases() {
    assert_eq!(isa_inherits_from(Base::RV32I), vec![Base::RV32I]);
    assert_eq!(isa_inherits_from(Base::RV128I), vec![Base::RV128I, Base::RV64I, Base::RV32I]);
}

#[test]
fn active_isas_cross_product() {
    assert_eq!(
        resolve_active_isas(Base::RV64I, vec![Extension::M, Extension::A]),
        vec![
            (Base::RV64I, Extension::M),
            (Base::RV64I, Extension::A),
            (Base::RV32I, Extension::M),
            (Base::RV32I, Extension::A),
        ]
    );
    assert_eq!(resolve_active_isas(Base::RV32I, vec![]), vec![]);
}

#[test]
fn memory_little_endian() {
    let mut mem = Memory::new(16);
    mem.store_u32(4, 0x0403_0201).unwrap();
    assert_eq!(mem.load_u8(4), Ok(1));
    assert_eq!(mem.load_u16(6), Ok(0x0403));
    assert!(mem.load_u32(13).is_err());
    assert!(mem.store_bytes(14, &[1, 2, 3]).is_err());
    mem.store_bytes(0, &[9, 8]).unwrap();
    assert_eq!(mem.load_u16(0), Ok(0x0809));
}

#[test]
fn decode_double_precision() {
    // fadd.d f1, f2, f3 (dynamic rounding)
    let w = 0x0231_70D3;
    assert_eq!(Rv32::parse(w), Some(Rv32::Rv32d(Rv32d::FaddD(FaddD(w)))));
    assert_eq!(FaddD(w).frd(), FReg::Ft1);
    assert_eq!(FaddD(w).frs1(), FReg::Ft2);
    assert_eq!(FaddD(w).frs2(), FReg::Ft3);
    assert_eq!(FaddD(w).rm(), 7);
    // fld f1, 8(x2)
    let w = 0x0081_3087;
    assert_eq!(Rv32::parse(w), Some(Rv32::Rv32d(Rv32d::Fld(Fld(w)))));
    assert_eq!(Fld(w).imm(), 8);
    assert_eq!(Fld(w).rs1(), Reg::Sp);
}

#[test]
fn rv64_fields() {
    // slli x1, x2, 40
    assert_eq!(Slli64(0x0281_1093).shamt(), 40);
    // ld x1, -8(x2)
    assert_eq!(Ld(0xFF81_3083).imm(), -8);
    assert_eq!(Ld(0xFF81_3083).rd(), Reg::Ra);
    // sd x2, 16(x1)
    assert_eq!(Sd(0x0020_B823).imm(), 16);
    // addiw x1, x2, -1
    assert_eq!(Addiw(0xFFF1_009B).imm(), -1);
    // sraw x1, x2, x3
    assert_eq!(Sraw(0x4031_50BB).rs2(), Reg::Gp);
}
