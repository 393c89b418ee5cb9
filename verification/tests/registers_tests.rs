use gblite::registers::DoubleRegister;
use gblite::registers::Flag;
use gblite::registers::Reg16;
use gblite::registers::Reg8;
use gblite::registers::RegOps;
use gblite::registers::RegisterCache;

#[test]
fn new_register_cache_is_zeroed() {
    let regs = RegisterCache::new();
    assert_eq!(regs.get(Reg8::A), 0);
    assert_eq!(regs.get(Reg8::L), 0);
    assert_eq!(regs.get(Reg16::BC), 0);
    assert_eq!(regs.get(Reg16::SP), 0);
    assert_eq!(regs.get(Reg16::PC), 0);
}

#[test]
fn pair_write_sets_both_halves() {
    // For every register pair: set_pair(v) puts v >> 8 in the high half,
    // v & 0xFF in the low half, and the pair reads back as v.
    let v: u16 = 0xFF11;
    let mut regs = RegisterCache::new();

    regs.set(Reg16::BC, v);
    assert_eq!(regs.get(Reg8::B), 0xFF);
    assert_eq!(regs.get(Reg8::C), 0x11);
    assert_eq!(regs.get(Reg16::BC), v);

    regs.set(Reg16::DE, 0x1234);
    assert_eq!(regs.get(Reg8::D), 0x12);
    assert_eq!(regs.get(Reg8::E), 0x34);
    assert_eq!(regs.get(Reg16::DE), 0x1234);

    regs.set(Reg16::HL, 0x00FF);
    assert_eq!(regs.get(Reg8::H), 0x00);
    assert_eq!(regs.get(Reg8::L), 0xFF);
    assert_eq!(regs.get(Reg16::HL), 0x00FF);

    regs.set(Reg16::AF, 0xABCD);
    assert_eq!(regs.get(Reg8::A), 0xAB);
    assert_eq!(regs.get(Reg16::AF), 0xABCD);
}

#[test]
fn double_register_round_trip() {
    let mut d = DoubleRegister { a: 0, b: 0 };
    d.set_double(0x8001);
    assert_eq!(d.get_first(), 0x80);
    assert_eq!(d.get_second(), 0x01);
    assert_eq!(d.get_double(), 0x8001);
    d.set_first(0x12);
    d.set_second(0x34);
    assert_eq!(d.get_double(), 0x1234);
}

#[test]
fn copy_moves_values() {
    let mut regs = RegisterCache::new();
    regs.set(Reg8::B, 0x7E);
    regs.copy(Reg8::D, Reg8::B);
    assert_eq!(regs.get(Reg8::D), 0x7E);
    regs.set(Reg16::HL, 0xBEEF);
    regs.copy(Reg16::PC, Reg16::HL);
    assert_eq!(regs.get(Reg16::PC), 0xBEEF);
}

#[test]
fn add_sub_wrap_around() {
    let mut regs = RegisterCache::new();
    regs.set(Reg8::B, 0xFF);
    regs.add(Reg8::B, 1);
    assert_eq!(regs.get(Reg8::B), 0x00);
    regs.sub(Reg8::B, 1);
    assert_eq!(regs.get(Reg8::B), 0xFF);

    regs.set(Reg16::SP, 0x0001);
    regs.sub(Reg16::SP, 2);
    assert_eq!(regs.get(Reg16::SP), 0xFFFF);
    regs.add(Reg16::SP, 2);
    assert_eq!(regs.get(Reg16::SP), 0x0001);
}

#[test]
fn flags_read_back() {
    let mut regs = RegisterCache::new();
    regs.set_flags(true, false, true, false);
    assert!(regs.get_flag(Flag::Z));
    assert!(!regs.get_flag(Flag::N));
    assert!(regs.get_flag(Flag::H));
    assert!(!regs.get_flag(Flag::CY));
    // The flag register is the low half of AF, upper nibble only.
    assert_eq!(regs.get(Reg16::AF) & 0xFF, 0xA0);
    regs.set_flags(false, true, false, true);
    assert_eq!(regs.get(Reg16::AF) & 0xFF, 0x50);
}
