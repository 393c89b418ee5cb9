use gblite::alu::AluOp;
use gblite::cpu::CPU;
use gblite::lookup::create_lookup_table;
use gblite::memory::Memory;
use gblite::registers::Flag;
use gblite::registers::Reg8;
use gblite::registers::RegOps;

fn fresh_cpu() -> CPU {
    CPU::new(Memory::new(vec![]), create_lookup_table(vec![]))
}

#[test]
fn add_half_carry() {
    // A=0x0F plus 0x01 carries out of bit 3 but not out of bit 7.
    let mut cpu = fresh_cpu();
    cpu.regs.set(Reg8::A, 0x0F);
    cpu.alu(AluOp::Add, 0x01);
    assert_eq!(cpu.regs.get(Reg8::A), 0x10);
    assert!(cpu.regs.get_flag(Flag::H));
    assert!(!cpu.regs.get_flag(Flag::CY));
    assert!(!cpu.regs.get_flag(Flag::Z));
    assert!(!cpu.regs.get_flag(Flag::N));
}

#[test]
fn add_overflow_wraps_to_zero() {
    // A=0xFF plus 0x01 wraps to 0x00 and sets Zero, Carry and Half-Carry.
    let mut cpu = fresh_cpu();
    cpu.regs.set(Reg8::A, 0xFF);
    cpu.alu(AluOp::Add, 0x01);
    assert_eq!(cpu.regs.get(Reg8::A), 0x00);
    assert!(cpu.regs.get_flag(Flag::Z));
    assert!(cpu.regs.get_flag(Flag::CY));
    assert!(cpu.regs.get_flag(Flag::H));
    assert!(!cpu.regs.get_flag(Flag::N));
}

#[test]
fn add_with_carry_reads_carry_flag() {
    let mut cpu = fresh_cpu();
    cpu.regs.set(Reg8::A, 0x10);
    cpu.regs.set_flags(false, false, false, true);
    cpu.alu(AluOp::AddCarry, 0x0F);
    assert_eq!(cpu.regs.get(Reg8::A), 0x20);
    assert!(cpu.regs.get_flag(Flag::H));
    assert!(!cpu.regs.get_flag(Flag::CY));
}

#[test]
fn subtract_sets_borrow_flags() {
    let mut cpu = fresh_cpu();
    cpu.regs.set(Reg8::A, 0x10);
    cpu.alu(AluOp::Sub, 0x20);
    assert_eq!(cpu.regs.get(Reg8::A), 0xF0);
    assert!(cpu.regs.get_flag(Flag::N));
    assert!(cpu.regs.get_flag(Flag::CY));
    assert!(!cpu.regs.get_flag(Flag::H));

    cpu.regs.set(Reg8::A, 0x42);
    cpu.alu(AluOp::Sub, 0x42);
    assert_eq!(cpu.regs.get(Reg8::A), 0x00);
    assert!(cpu.regs.get_flag(Flag::Z));
    assert!(!cpu.regs.get_flag(Flag::CY));
}

#[test]
fn subtract_with_carry_borrows_one_more() {
    let mut cpu = fresh_cpu();
    cpu.regs.set(Reg8::A, 0x10);
    cpu.regs.set_flags(false, false, false, true);
    cpu.alu(AluOp::SubCarry, 0x0F);
    assert_eq!(cpu.regs.get(Reg8::A), 0x00);
    assert!(cpu.regs.get_flag(Flag::Z));
    assert!(cpu.regs.get_flag(Flag::N));
    assert!(cpu.regs.get_flag(Flag::H));
    assert!(!cpu.regs.get_flag(Flag::CY));
}

#[test]
fn bitwise_operations_force_carry_clear() {
    let mut cpu = fresh_cpu();
    cpu.regs.set(Reg8::A, 0b1100_1010);
    cpu.alu(AluOp::And, 0b1010_1100);
    assert_eq!(cpu.regs.get(Reg8::A), 0b1000_1000);
    assert!(!cpu.regs.get_flag(Flag::CY));
    assert!(!cpu.regs.get_flag(Flag::N));
    assert!(!cpu.regs.get_flag(Flag::H));

    cpu.regs.set(Reg8::A, 0b1100_1010);
    cpu.alu(AluOp::Xor, 0b1010_1100);
    assert_eq!(cpu.regs.get(Reg8::A), 0b0110_0110);

    cpu.regs.set(Reg8::A, 0b1100_1010);
    cpu.alu(AluOp::Or, 0b1010_1100);
    assert_eq!(cpu.regs.get(Reg8::A), 0b1110_1110);

    cpu.regs.set(Reg8::A, 0x00);
    cpu.alu(AluOp::Or, 0x00);
    assert!(cpu.regs.get_flag(Flag::Z));
}

#[test]
fn complement_inverts_operand() {
    let mut cpu = fresh_cpu();
    cpu.regs.set(Reg8::A, 0x55);
    cpu.alu(AluOp::Comp, 0b1111_0000);
    assert_eq!(cpu.regs.get(Reg8::A), 0b0000_1111);
    assert!(cpu.regs.get_flag(Flag::N));
    assert!(!cpu.regs.get_flag(Flag::Z));
    assert!(!cpu.regs.get_flag(Flag::CY));

    cpu.alu(AluOp::Comp, 0xFF);
    assert_eq!(cpu.regs.get(Reg8::A), 0x00);
    assert!(cpu.regs.get_flag(Flag::Z));
}
