use riscv_vm::error::{HartError, MachineError, MemoryAccess, MemoryError};
use riscv_vm::hart::Hart32;
use riscv_vm::machine::{Kernel, Machine, StepResult};
use riscv_vm::memory::Memory;
use riscv_vm::reg::Reg;
use riscv_vm::rv32::Rv32;
use riscv_vm::rv32i::{Rv32i, Unimp};
use riscv_vm::rv32d::{FaddD, Rv32d};
use riscv_vm::rv32s::{Rv32s, Wfi};

/// Ends the guest on `ecall` with the status in `a0`; `ebreak` stops it.
struct ExitKernel;

impl Kernel for ExitKernel {
    type Error = String;

    fn syscall(&mut self, hart: &mut Hart32, _mem: &mut Memory) -> Result<StepResult, String> {
        match hart.get_reg(Reg::A7) {
            93 => Ok(StepResult::Exit(hart.get_reg(Reg::A0) as i32)),
            64 => {
                hart.set_reg(Reg::A0, 0);
                Ok(StepResult::Continue)
            }
            n => Err(format!("unknown syscall {n}")),
        }
    }

    fn ebreak(&mut self, _hart: &mut Hart32, _mem: &mut Memory) -> Result<StepResult, String> {
        Ok(StepResult::Break)
    }
}

fn machine_with(pc: u32, code: &[(u32, u32)]) -> (Hart32, Memory) {
    let mut mem = Memory::new(0x10000);
    for &(addr, word) in code {
        mem.store_u32(addr, word).unwrap();
    }
    let mut hart = Hart32::new();
    hart.set_pc(pc);
    (hart, mem)
}

fn step(hart: &mut Hart32, mem: &mut Memory) -> Result<StepResult, MachineError<String>> {
    hart.step(mem, &mut ExitKernel)
}

#[test]
fn addi_from_zeroed_hart() {
    let (mut hart, mut mem) = machine_with(0x1000, &[(0x1000, 0x0070_0293)]);
    assert_eq!(step(&mut hart, &mut mem), Ok(StepResult::Continue));
    assert_eq!(hart.get_reg(Reg::T0), 7);
    assert_eq!(hart.get_pc(), 0x1004);
    assert_eq!(hart.retired(), 1);
}

#[test]
fn srai_sign_fills() {
    let (mut hart, mut mem) = machine_with(0, &[(0, 0x41F1_5093)]);
    hart.set_reg(Reg::Sp, 0x8000_0000);
    step(&mut hart, &mut mem).unwrap();
    assert_eq!(hart.get_reg(Reg::Ra), 0xFFFF_FFFF);
}

#[test]
fn beq_taken() {
    let (mut hart, mut mem) = machine_with(0x2000, &[(0x2000, 0x0010_8463)]);
    step(&mut hart, &mut mem).unwrap();
    assert_eq!(hart.get_pc(), 0x2008);
    assert_eq!(hart.retired(), 1);
}

#[test]
fn beq_not_taken_falls_through() {
    let (mut hart, mut mem) = machine_with(0x2000, &[(0x2000, 0x0020_8463)]);
    hart.set_reg(Reg::Ra, 1);
    step(&mut hart, &mut mem).unwrap();
    assert_eq!(hart.get_pc(), 0x2004);
}

#[test]
fn compressed_addi_increments() {
    let (mut hart, mut mem) = machine_with(0x3000, &[(0x3000, 0x0000_0285)]);
    step(&mut hart, &mut mem).unwrap();
    assert_eq!(hart.get_reg(Reg::T0), 1);
    assert_eq!(hart.get_pc(), 0x3002);
    assert_eq!(hart.retired(), 1);
}

#[test]
fn lr_sc_success() {
    let a = 0x800;
    let v = 0xDEAD_BEEF;
    let (mut hart, mut mem) = machine_with(0, &[(0, 0x1000_A1AF), (4, 0x1820_A22F)]);
    hart.set_reg(Reg::Ra, a);
    hart.set_reg(Reg::Sp, v);
    step(&mut hart, &mut mem).unwrap();
    assert_eq!(hart.reservation(), Some(a));
    step(&mut hart, &mut mem).unwrap();
    assert_eq!(mem.load_u32(a), Ok(v));
    assert_eq!(hart.get_reg(Reg::Tp), 0);
    assert_eq!(hart.reservation(), None);
}

#[test]
fn lr_sc_mismatch() {
    let a = 0x800;
    let (mut hart, mut mem) = machine_with(0, &[(0, 0x1000_A1AF), (4, 0x1822_A22F)]);
    mem.store_u32(a + 4, 0x1234_5678).unwrap();
    hart.set_reg(Reg::Ra, a);
    hart.set_reg(Reg::Sp, 0xDEAD_BEEF);
    hart.set_reg(Reg::T0, a + 4);
    step(&mut hart, &mut mem).unwrap();
    step(&mut hart, &mut mem).unwrap();
    assert_eq!(hart.get_reg(Reg::Tp), 1);
    assert_eq!(mem.load_u32(a + 4), Ok(0x1234_5678));
    assert_eq!(hart.reservation(), None);
}

#[test]
fn sc_without_lr_fails() {
    let (mut hart, mut mem) = machine_with(0, &[(0, 0x1820_A22F)]);
    hart.set_reg(Reg::Ra, 0x800);
    hart.set_reg(Reg::Sp, 5);
    step(&mut hart, &mut mem).unwrap();
    assert_eq!(hart.get_reg(Reg::Tp), 1);
    assert_eq!(mem.load_u32(0x800), Ok(0));
}

#[test]
fn lr_unaligned_is_refused() {
    let (mut hart, mut mem) = machine_with(0, &[(0, 0x1000_A1AF)]);
    hart.set_reg(Reg::Ra, 0x802);
    let r = step(&mut hart, &mut mem);
    assert_eq!(
        r,
        Err(MachineError::Memory(MemoryError::UnalignedMemoryAccess {
            access: MemoryAccess::Load,
            addr: 0x802,
            required: 4
        }))
    );
    assert_eq!(hart.get_pc(), 0);
    assert_eq!(hart.retired(), 0);
}

#[test]
fn div_by_zero() {
    let (mut hart, mut mem) = machine_with(0, &[(0, 0x0231_40B3)]);
    hart.set_reg(Reg::Sp, 5);
    hart.set_reg(Reg::Gp, 0);
    step(&mut hart, &mut mem).unwrap();
    assert_eq!(hart.get_reg(Reg::Ra), 0xFFFF_FFFF);
}

#[test]
fn div_overflow() {
    let (mut hart, mut mem) = machine_with(0, &[(0, 0x0231_40B3)]);
    hart.set_reg(Reg::Sp, 0x8000_0000);
    hart.set_reg(Reg::Gp, 0xFFFF_FFFF);
    step(&mut hart, &mut mem).unwrap();
    assert_eq!(hart.get_reg(Reg::Ra), 0x8000_0000);
}

#[test]
fn write_to_x0_is_discarded() {
    let (mut hart, mut mem) = machine_with(0, &[(0, 0x02A0_0013)]);
    step(&mut hart, &mut mem).unwrap();
    assert_eq!(hart.get_reg(Reg::Zero), 0);
    assert_eq!(hart.regs()[0], 0);
    assert_eq!(hart.get_pc(), 4);
}

#[test]
fn sll_masks_shift_amount() {
    // sll x1, x2, x3
    let (mut hart, mut mem) = machine_with(0, &[(0, 0x0031_10B3)]);
    hart.set_reg(Reg::Sp, 1);
    hart.set_reg(Reg::Gp, 33);
    step(&mut hart, &mut mem).unwrap();
    assert_eq!(hart.get_reg(Reg::Ra), 2);
}

#[test]
fn invalid_word_is_reported() {
    let (mut hart, mut mem) = machine_with(0, &[(0, 0xFFFF_FFFF)]);
    assert_eq!(
        step(&mut hart, &mut mem),
        Err(MachineError::Hart(HartError::InvalidInstruction { addr: 0, inst: 0xFFFF_FFFF }))
    );
    assert_eq!(hart.retired(), 0);
}

#[test]
fn unimp_is_illegal() {
    let (mut hart, mut mem) = machine_with(0, &[(0, 0xC000_1073)]);
    assert_eq!(
        step(&mut hart, &mut mem),
        Err(MachineError::Hart(HartError::IllegalInstruction {
            addr: 0,
            op: Rv32::Rv32i(Rv32i::Unimp(Unimp(0xC000_1073)))
        }))
    );
}

#[test]
fn compressed_unimp_is_illegal() {
    let (mut hart, mut mem) = machine_with(4, &[]);
    assert!(matches!(
        step(&mut hart, &mut mem),
        Err(MachineError::Hart(HartError::IllegalInstruction { addr: 4, .. }))
    ));
}

#[test]
fn wfi_is_unimplemented() {
    let (mut hart, mut mem) = machine_with(0, &[(0, 0x1050_0073)]);
    assert_eq!(
        step(&mut hart, &mut mem),
        Err(MachineError::Hart(HartError::UnimplementedInstruction {
            addr: 0,
            op: Rv32::Rv32s(Rv32s::Wfi(Wfi(0x1050_0073)))
        }))
    );
}

#[test]
fn fetch_outside_memory() {
    let (mut hart, mut mem) = machine_with(0xFFFF_0000, &[]);
    assert_eq!(
        step(&mut hart, &mut mem),
        Err(MachineError::Memory(MemoryError::OutOfBounds { addr: 0xFFFF_0000, size: 4 }))
    );
}

#[test]
fn ecall_goes_to_kernel() {
    // li a7, 93; li a0, 3; ecall
    let (mut hart, mut mem) =
        machine_with(0, &[(0, 0x05D0_0893), (4, 0x0030_0513), (8, 0x0000_0073)]);
    step(&mut hart, &mut mem).unwrap();
    step(&mut hart, &mut mem).unwrap();
    assert_eq!(step(&mut hart, &mut mem), Ok(StepResult::Exit(3)));
}

#[test]
fn ecall_continue_advances() {
    // li a7, 64; ecall
    let (mut hart, mut mem) = machine_with(0, &[(0, 0x0400_0893), (4, 0x0000_0073)]);
    step(&mut hart, &mut mem).unwrap();
    assert_eq!(step(&mut hart, &mut mem), Ok(StepResult::Continue));
    assert_eq!(hart.get_pc(), 8);
    assert_eq!(hart.retired(), 2);
}

#[test]
fn kernel_error_is_propagated() {
    // ecall with a7 = 0
    let (mut hart, mut mem) = machine_with(0, &[(0, 0x0000_0073)]);
    assert_eq!(
        step(&mut hart, &mut mem),
        Err(MachineError::Kernel("unknown syscall 0".to_string()))
    );
}

#[test]
fn jal_links_and_jumps() {
    // jal ra, -4 at 0x100
    let (mut hart, mut mem) = machine_with(0x100, &[(0x100, 0xFFDF_F0EF)]);
    step(&mut hart, &mut mem).unwrap();
    assert_eq!(hart.get_reg(Reg::Ra), 0x104);
    assert_eq!(hart.get_pc(), 0xFC);
}

#[test]
fn jalr_clears_low_bit() {
    // jalr ra, 3(sp)
    let (mut hart, mut mem) = machine_with(0, &[(0, 0x0031_00E7)]);
    hart.set_reg(Reg::Sp, 0x200);
    step(&mut hart, &mut mem).unwrap();
    assert_eq!(hart.get_pc(), 0x202);
    assert_eq!(hart.get_reg(Reg::Ra), 4);
}

#[test]
fn loads_sign_and_zero_extend() {
    // lb x1, 0(x2); lbu x3, 0(x2)
    let (mut hart, mut mem) = machine_with(0, &[(0, 0x0001_0083), (4, 0x0001_4183)]);
    mem.store_u8(0x400, 0x80).unwrap();
    hart.set_reg(Reg::Sp, 0x400);
    step(&mut hart, &mut mem).unwrap();
    step(&mut hart, &mut mem).unwrap();
    assert_eq!(hart.get_reg(Reg::Ra), 0xFFFF_FF80);
    assert_eq!(hart.get_reg(Reg::Gp), 0x80);
}

#[test]
fn store_word_little_endian() {
    // sw x2, 8(x1)
    let (mut hart, mut mem) = machine_with(0, &[(0, 0x0020_A423)]);
    hart.set_reg(Reg::Ra, 0x400);
    hart.set_reg(Reg::Sp, 0x1122_3344);
    step(&mut hart, &mut mem).unwrap();
    assert_eq!(mem.load_u8(0x408), Ok(0x44));
    assert_eq!(mem.load_u8(0x40B), Ok(0x11));
}

#[test]
fn amoadd_returns_old_value() {
    // amoadd.w x3, x2, (x1)
    let (mut hart, mut mem) = machine_with(0, &[(0, 0x0020_A1AF)]);
    mem.store_u32(0x800, 10).unwrap();
    hart.set_reg(Reg::Ra, 0x800);
    hart.set_reg(Reg::Sp, 5);
    step(&mut hart, &mut mem).unwrap();
    assert_eq!(hart.get_reg(Reg::Gp), 10);
    assert_eq!(mem.load_u32(0x800), Ok(15));
}

#[test]
fn csrrw_swaps() {
    // csrrw x1, 0x340, x2
    let (mut hart, mut mem) = machine_with(0, &[(0, 0x3401_10F3)]);
    hart.set_reg(Reg::Sp, 9);
    step(&mut hart, &mut mem).unwrap();
    assert_eq!(hart.get_reg(Reg::Ra), 0);
    assert_eq!(hart.get_csr(0x340), 9);
}

#[test]
fn mulh_signed_high_word() {
    // mulh x1, x2, x3
    let (mut hart, mut mem) = machine_with(0, &[(0, 0x0231_10B3)]);
    hart.set_reg(Reg::Sp, 0xFFFF_FFFF);
    hart.set_reg(Reg::Gp, 2);
    step(&mut hart, &mut mem).unwrap();
    assert_eq!(hart.get_reg(Reg::Ra), 0xFFFF_FFFF);
}

#[test]
fn machine_runs_until_exit() {
    let mut mem = Memory::new(0x1000);
    mem.store_u32(0, 0x05D0_0893).unwrap();
    mem.store_u32(4, 0x0070_0513).unwrap();
    mem.store_u32(8, 0x0000_0073).unwrap();
    let mut machine = Machine::new(ExitKernel, mem);
    assert_eq!(machine.run(100), Ok(Some(StepResult::Exit(7))));
    assert_eq!(machine.hart.retired(), 2);
}

#[test]
fn machine_stops_when_budget_runs_out() {
    let mut mem = Memory::new(0x1000);
    // j 0 (c.j with offset 0)
    mem.store_u32(0, 0x0000_A001).unwrap();
    let mut machine = Machine::new(ExitKernel, mem);
    assert_eq!(machine.run(5), Ok(None));
    assert_eq!(machine.hart.retired(), 5);
}

#[test]
fn floating_point_is_unimplemented() {
    let (mut hart, mut mem) = machine_with(0, &[(0, 0x0231_70D3)]);
    assert_eq!(
        step(&mut hart, &mut mem),
        Err(MachineError::Hart(HartError::UnimplementedInstruction {
            addr: 0,
            op: Rv32::Rv32d(Rv32d::FaddD(FaddD(0x0231_70D3)))
        }))
    );
}

#[test]
fn misaligned_fetch_is_refused() {
    let (mut hart, mut mem) = machine_with(0x101, &[]);
    assert_eq!(
        step(&mut hart, &mut mem),
        Err(MachineError::Memory(MemoryError::UnalignedMemoryAccess {
            access: MemoryAccess::Load,
            addr: 0x101,
            required: 2
        }))
    );
}

#[test]
fn default_hart_is_zeroed() {
    let hart = Hart32::default();
    assert_eq!(hart.get_pc(), 0);
    assert_eq!(hart.retired(), 0);
    assert_eq!(hart.regs(), vec![0u32; 32]);
    assert_eq!(hart.regs_range(Reg::A0, Reg::A2), vec![0u32; 3]);
}

#[test]
fn new_machine_has_zeroed_hart() {
    let machine = Machine::new(ExitKernel, Memory::new(16));
    assert_eq!(machine.hart.regs(), vec![0u32; 32]);
    assert_eq!(machine.hart.get_csr(0x300), 0);
    assert_eq!(machine.hart.reservation(), None);
    assert_eq!(machine.mem.len(), 16);
}

#[test]
fn machine_reports_first_fault() {
    let mut mem = Memory::new(0x100);
    mem.store_u32(0, 0x0070_0293).unwrap();
    mem.store_u32(4, 0xFFFF_FFFF).unwrap();
    let mut machine = Machine::new(ExitKernel, mem);
    assert_eq!(
        machine.run(10),
        Err(MachineError::Hart(HartError::InvalidInstruction { addr: 4, inst: 0xFFFF_FFFF }))
    );
    assert_eq!(machine.hart.get_pc(), 4);
    assert_eq!(machine.hart.get_reg(Reg::T0), 7);
}
