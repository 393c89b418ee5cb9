use std::collections::HashMap;

use gblite::cpu::CPU;
use gblite::cpu::CpuState;
use gblite::lookup::Opcode;
use gblite::lookup::create_lookup_table;
use gblite::memory::MemClient;
use gblite::memory::Memory;
use gblite::registers::Reg16;
use gblite::registers::Reg8;
use gblite::registers::RegOps;

fn table(entries: &[(u8, u8, i8)]) -> HashMap<u8, Opcode> {
    let mut records = Vec::new();
    for &(code, bytes, clocks) in entries {
        records.push(Opcode { code, name: format!("op{:02x}", code), bytes, clocks });
    }
    create_lookup_table(records)
}

fn cpu_with(program: Vec<u8>, entries: &[(u8, u8, i8)]) -> CPU {
    CPU::new(Memory::new(program), table(entries))
}

#[test]
fn push_pop_round_trip() {
    let mut cpu = cpu_with(vec![], &[]);
    cpu.regs.set(Reg16::SP, 0xFFFE);
    cpu.regs.set(Reg16::BC, 0x1234);
    cpu.push(Reg16::BC);
    assert_eq!(cpu.regs.get(Reg16::SP), 0xFFFC);
    // Low byte at the lower address.
    assert_eq!(cpu.mem.get(0xFFFC, MemClient::CPU), 0x34);
    assert_eq!(cpu.mem.get(0xFFFD, MemClient::CPU), 0x12);
    cpu.pop(Reg16::DE);
    assert_eq!(cpu.regs.get(Reg16::DE), 0x1234);
    assert_eq!(cpu.regs.get(Reg16::SP), 0xFFFE);
}

#[test]
fn push_pop_wraps_at_stack_bottom() {
    let mut cpu = cpu_with(vec![], &[]);
    cpu.regs.set(Reg16::SP, 0x0001);
    cpu.regs.set(Reg16::HL, 0xA55A);
    cpu.push(Reg16::HL);
    assert_eq!(cpu.regs.get(Reg16::SP), 0xFFFF);
    cpu.pop(Reg16::DE);
    assert_eq!(cpu.regs.get(Reg16::DE), 0xA55A);
    assert_eq!(cpu.regs.get(Reg16::SP), 0x0001);
}

#[test]
fn call_ret_round_trip() {
    let mut cpu = cpu_with(vec![], &[]);
    cpu.regs.set(Reg16::SP, 0xFFFE);
    cpu.regs.set(Reg16::PC, 0x0053);
    cpu.call(0x0100);
    assert_eq!(cpu.regs.get(Reg16::PC), 0x0100);
    assert_eq!(cpu.regs.get(Reg16::SP), 0xFFFC);
    assert_eq!(cpu.mem.get(0xFFFC, MemClient::CPU), 0x53);
    assert_eq!(cpu.mem.get(0xFFFD, MemClient::CPU), 0x00);
    cpu.ret(false);
    assert_eq!(cpu.regs.get(Reg16::PC), 0x0053);
    assert_eq!(cpu.regs.get(Reg16::SP), 0xFFFE);
}

#[test]
fn relative_jump_beyond_address_space_faults() {
    // PC=0xFFF0 post-advance plus +32 lands at 0x10010: the interpreter
    // faults and the program counter is not moved.
    let mut cpu = cpu_with(vec![], &[]);
    cpu.regs.set(Reg16::PC, 0xFFF0);
    cpu.jump_relative(0x20);
    assert_eq!(cpu.state, CpuState::Faulted);
    assert_eq!(cpu.regs.get(Reg16::PC), 0xFFF0);
    // Once faulted, further steps report failure.
    assert!(!cpu.process());
    assert_eq!(cpu.regs.get(Reg16::PC), 0xFFF0);
}

#[test]
fn relative_jump_below_zero_faults() {
    let mut cpu = cpu_with(vec![], &[]);
    cpu.regs.set(Reg16::PC, 0x0001);
    cpu.jump_relative(0x80);  // -128
    assert_eq!(cpu.state, CpuState::Faulted);
    assert_eq!(cpu.regs.get(Reg16::PC), 0x0001);
}

#[test]
fn relative_jump_in_range_moves_pc() {
    let mut cpu = cpu_with(vec![], &[]);
    cpu.regs.set(Reg16::PC, 0x0100);
    cpu.jump_relative(0xFE);  // -2
    assert_eq!(cpu.state, CpuState::Running);
    assert_eq!(cpu.regs.get(Reg16::PC), 0x00FE);
    cpu.jump_relative(0x7F);  // +127
    assert_eq!(cpu.regs.get(Reg16::PC), 0x017D);
}

#[test]
fn undefined_opcode_faults_without_effect() {
    // 0xD3 has a descriptor here but no operation variant.
    let mut cpu = cpu_with(vec![0xD3], &[(0xD3, 1, 4)]);
    cpu.regs.set(Reg8::A, 0x77);
    assert!(!cpu.process());
    assert_eq!(cpu.state, CpuState::Faulted);
    assert_eq!(cpu.regs.get(Reg16::PC), 0x0000);
    assert_eq!(cpu.regs.get(Reg8::A), 0x77);
    assert_eq!(cpu.mem.get(0x0000, MemClient::CPU), 0xD3);
    // Further steps keep reporting failure and change nothing.
    assert!(!cpu.process());
    assert_eq!(cpu.state, CpuState::Faulted);
    assert_eq!(cpu.regs.get(Reg16::PC), 0x0000);
}

#[test]
fn opcode_without_descriptor_faults() {
    // 0x00 decodes to a no-op, but the descriptor table is empty.
    let mut cpu = cpu_with(vec![0x00], &[]);
    assert!(!cpu.process());
    assert_eq!(cpu.state, CpuState::Faulted);
    assert_eq!(cpu.regs.get(Reg16::PC), 0x0000);
}

#[test]
fn cb_escape_faults() {
    // The extended namespace has no descriptors in this table format.
    let mut cpu = cpu_with(vec![0xCB, 0x11], &[(0xCB, 1, 4)]);
    assert!(!cpu.process());
    assert_eq!(cpu.state, CpuState::Faulted);
    assert_eq!(cpu.regs.get(Reg16::PC), 0x0000);
}

#[test]
fn loads_advance_pc_and_halt_stops() {
    let program = vec![0x01, 0x34, 0x12, 0x3E, 0x42, 0x76];
    let mut cpu = cpu_with(program, &[(0x01, 3, 12), (0x3E, 2, 8), (0x76, 1, 4)]);
    assert!(cpu.process());
    assert_eq!(cpu.regs.get(Reg16::BC), 0x1234);
    assert_eq!(cpu.regs.get(Reg16::PC), 0x0003);
    assert!(cpu.process());
    assert_eq!(cpu.regs.get(Reg8::A), 0x42);
    assert_eq!(cpu.regs.get(Reg16::PC), 0x0005);
    assert!(!cpu.process());
    assert_eq!(cpu.state, CpuState::Halted);
    assert_eq!(cpu.regs.get(Reg16::PC), 0x0006);
    // Halted is terminal.
    assert!(!cpu.process());
    assert_eq!(cpu.regs.get(Reg16::PC), 0x0006);
}

#[test]
fn stop_instruction_halts() {
    let mut cpu = cpu_with(vec![0x10, 0x00], &[(0x10, 2, 4)]);
    assert!(!cpu.process());
    assert_eq!(cpu.state, CpuState::Halted);
}

#[test]
fn inc_dec_and_copy() {
    let program = vec![0x04, 0x04, 0x05, 0x48];
    let mut cpu = cpu_with(program, &[(0x04, 1, 4), (0x05, 1, 4), (0x48, 1, 4)]);
    assert!(cpu.process());
    assert!(cpu.process());
    assert_eq!(cpu.regs.get(Reg8::B), 2);
    assert!(cpu.process());
    assert_eq!(cpu.regs.get(Reg8::B), 1);
    assert!(cpu.process());
    assert_eq!(cpu.regs.get(Reg8::C), 1);
}

#[test]
fn hl_indirect_memory_ops() {
    // LD HL,0x8000; LD (HL),0x5A; INC (HL); LD A,(HL)
    let program = vec![0x21, 0x00, 0x80, 0x36, 0x5A, 0x34, 0x7E];
    let mut cpu = cpu_with(
        program,
        &[(0x21, 3, 12), (0x36, 2, 12), (0x34, 1, 12), (0x7E, 1, 8)],
    );
    assert!(cpu.process());
    assert_eq!(cpu.regs.get(Reg16::HL), 0x8000);
    assert!(cpu.process());
    assert_eq!(cpu.mem.get(0x8000, MemClient::CPU), 0x5A);
    assert!(cpu.process());
    assert_eq!(cpu.mem.get(0x8000, MemClient::CPU), 0x5B);
    assert!(cpu.process());
    assert_eq!(cpu.regs.get(Reg8::A), 0x5B);
}

#[test]
fn stack_opcodes_round_trip() {
    // LD SP,0xFFFE; LD BC,0x1234; PUSH BC; POP DE
    let program = vec![0x31, 0xFE, 0xFF, 0x01, 0x34, 0x12, 0xC5, 0xD1];
    let mut cpu = cpu_with(
        program,
        &[(0x31, 3, 12), (0x01, 3, 12), (0xC5, 1, 16), (0xD1, 1, 12)],
    );
    assert!(cpu.process());
    assert!(cpu.process());
    assert!(cpu.process());
    assert_eq!(cpu.regs.get(Reg16::SP), 0xFFFC);
    assert!(cpu.process());
    assert_eq!(cpu.regs.get(Reg16::DE), 0x1234);
    assert_eq!(cpu.regs.get(Reg16::SP), 0xFFFE);
}

#[test]
fn jumps_calls_and_restart_vectors() {
    let mut program = vec![0; 0x30];
    // 0x0000: JP 0x0010
    program[0x00] = 0xC3;
    program[0x01] = 0x10;
    // 0x0010: CALL 0x0020
    program[0x10] = 0xCD;
    program[0x11] = 0x20;
    // 0x0020: RET
    program[0x20] = 0xC9;
    // 0x0013: RST 0x08
    program[0x13] = 0xCF;
    let mut cpu = cpu_with(
        program,
        &[(0xC3, 3, 16), (0xCD, 3, 24), (0xC9, 1, 16), (0xCF, 1, 16)],
    );
    cpu.regs.set(Reg16::SP, 0xFFFE);
    assert!(cpu.process());
    assert_eq!(cpu.regs.get(Reg16::PC), 0x0010);
    assert!(cpu.process());
    assert_eq!(cpu.regs.get(Reg16::PC), 0x0020);
    // The pushed return address is the post-advance 0x0013.
    assert_eq!(cpu.mem.get(0xFFFC, MemClient::CPU), 0x13);
    assert!(cpu.process());
    assert_eq!(cpu.regs.get(Reg16::PC), 0x0013);
    assert_eq!(cpu.regs.get(Reg16::SP), 0xFFFE);
    assert!(cpu.process());
    assert_eq!(cpu.regs.get(Reg16::PC), 0x0008);
    assert_eq!(cpu.mem.get(0xFFFC, MemClient::CPU), 0x14);
}

#[test]
fn alu_opcodes_by_addressing_mode() {
    // LD A,0x0F; ADD A,0x01 (immediate); ADD A,B (register);
    // LD HL,0x8000; ADD A,(HL) (indirect)
    let mut program = vec![0x3E, 0x0F, 0xC6, 0x01, 0x80, 0x21, 0x00, 0x80, 0x86];
    program.resize(0x8001, 0);
    program[0x8000] = 0x03;
    let mut cpu = cpu_with(
        program,
        &[
            (0x3E, 2, 8),
            (0xC6, 2, 8),
            (0x80, 1, 4),
            (0x21, 3, 12),
            (0x86, 1, 8),
        ],
    );
    cpu.regs.set(Reg8::B, 0x05);
    assert!(cpu.process());
    assert!(cpu.process());
    assert_eq!(cpu.regs.get(Reg8::A), 0x10);
    assert!(cpu.process());
    assert_eq!(cpu.regs.get(Reg8::A), 0x15);
    assert!(cpu.process());
    assert!(cpu.process());
    assert_eq!(cpu.regs.get(Reg8::A), 0x18);
}

#[test]
fn interrupt_latch_instructions() {
    let mut cpu = cpu_with(vec![0xF3, 0xFB], &[(0xF3, 1, 4), (0xFB, 1, 4)]);
    assert!(cpu.ir_enabled);
    assert!(cpu.process());
    assert!(!cpu.ir_enabled);
    assert!(cpu.process());
    assert!(cpu.ir_enabled);
}

#[test]
fn return_with_interrupt_enable() {
    let mut cpu = cpu_with(vec![0xF3, 0xD9], &[(0xF3, 1, 4), (0xD9, 1, 16)]);
    cpu.regs.set(Reg16::SP, 0xFFFC);
    cpu.mem.set(0x34, 0xFFFC, MemClient::CPU);
    cpu.mem.set(0x12, 0xFFFD, MemClient::CPU);
    assert!(cpu.process());
    assert!(!cpu.ir_enabled);
    assert!(cpu.process());
    assert!(cpu.ir_enabled);
    assert_eq!(cpu.regs.get(Reg16::PC), 0x1234);
    assert_eq!(cpu.regs.get(Reg16::SP), 0xFFFE);
}

#[test]
fn high_page_loads_and_stores() {
    // LD A,0x99; LDH (0x44),A; LD A,(0xFF44) via 0xF0
    let program = vec![0x3E, 0x99, 0xE0, 0x44, 0x3E, 0x00, 0xF0, 0x44];
    let mut cpu = cpu_with(
        program,
        &[(0x3E, 2, 8), (0xE0, 2, 12), (0xF0, 2, 12)],
    );
    assert!(cpu.process());
    assert!(cpu.process());
    assert_eq!(cpu.mem.get(0xFF44, MemClient::CPU), 0x99);
    assert!(cpu.process());
    assert_eq!(cpu.regs.get(Reg8::A), 0x00);
    assert!(cpu.process());
    assert_eq!(cpu.regs.get(Reg8::A), 0x99);
}

#[test]
fn fast_page_transfer_via_c() {
    // 0xE2 reads A from the I/O page at 0xFF00+C.
    let mut cpu = cpu_with(vec![0xE2, 0xF2], &[(0xE2, 1, 8), (0xF2, 1, 8)]);
    cpu.regs.set(Reg8::C, 0x10);
    cpu.mem.set(0x77, 0xFF10, MemClient::CPU);
    assert!(cpu.process());
    assert_eq!(cpu.regs.get(Reg8::A), 0x77);
    // 0xF2 stores A back to the I/O page.
    cpu.regs.set(Reg8::A, 0x66);
    assert!(cpu.process());
    assert_eq!(cpu.mem.get(0xFF10, MemClient::CPU), 0x66);
}

#[test]
fn load_and_store_with_hl_stepping() {
    // 0x22 copies (HL) into A and increments HL; 0x32 decrements.
    let mut cpu = cpu_with(vec![0x22, 0x32, 0x2A], &[(0x22, 1, 8), (0x32, 1, 8), (0x2A, 1, 8)]);
    cpu.regs.set(Reg16::HL, 0x8000);
    cpu.mem.set(0x0A, 0x8000, MemClient::CPU);
    assert!(cpu.process());
    assert_eq!(cpu.regs.get(Reg8::A), 0x0A);
    assert_eq!(cpu.regs.get(Reg16::HL), 0x8001);
    assert!(cpu.process());
    assert_eq!(cpu.regs.get(Reg16::HL), 0x8000);
    // 0x2A stores A at (HL) and increments HL.
    cpu.regs.set(Reg8::A, 0xEE);
    assert!(cpu.process());
    assert_eq!(cpu.mem.get(0x8000, MemClient::CPU), 0xEE);
    assert_eq!(cpu.regs.get(Reg16::HL), 0x8001);
}

#[test]
fn pc_advance_wraps_at_address_top() {
    let mut cpu = cpu_with(vec![], &[(0x00, 1, 4)]);
    cpu.mem.set(0x00, 0xFFFF, MemClient::CPU);
    cpu.regs.set(Reg16::PC, 0xFFFF);
    assert!(cpu.process());
    assert_eq!(cpu.regs.get(Reg16::PC), 0x0000);
}

#[test]
fn duplicate_descriptor_codes_keep_last() {
    let records = vec![
        Opcode { code: 0x00, name: String::from("first"), bytes: 1, clocks: 4 },
        Opcode { code: 0x00, name: String::from("second"), bytes: 2, clocks: 8 },
    ];
    let dict = create_lookup_table(records);
    assert_eq!(dict.len(), 1);
    let entry = dict.get(&0x00).unwrap();
    assert_eq!(entry.name, "second");
    assert_eq!(entry.bytes, 2);
}

#[test]
fn get_pc_reports_program_counter() {
    let mut cpu = cpu_with(vec![0x00], &[(0x00, 1, 4)]);
    assert_eq!(cpu.get_pc(), 0x0000);
    assert!(cpu.process());
    assert_eq!(cpu.get_pc(), 0x0001);
}
