//! Static instruction lookup.
//!
//! Two things identify an instruction: a descriptor record (`Opcode`,
//! supplied externally as a table loaded at startup) giving its display
//! name, encoded length and base cycle cost, and the tagged operation
//! variant (`Op`) giving its effect.  An opcode with no descriptor or no
//! operation variant is undefined and faults the interpreter.
//!
//! The byte 0xCB escapes into a second opcode namespace; this descriptor
//! table format only covers the base namespace, so every escaped opcode is
//! undefined.

use std::collections::HashMap;

use vstd::prelude::*;

use crate::alu::AluOp;
use crate::registers::Reg16;
use crate::registers::Reg8;

verus! {

broadcast use vstd::std_specs::hash::group_hash_axioms;

/// One externally supplied descriptor record: numeric opcode, display name,
/// encoded length in bytes (1-3) and base cycle count.
pub struct Opcode {
    pub code: u8,
    pub name: String,
    pub bytes: u8,
    pub clocks: i8,
}

/// The mapping that a descriptor record list denotes: each code maps to the
/// last record in the list that carries it.
pub open spec fn lookup_of(ops: Seq<Opcode>) -> Map<u8, Opcode>
    decreases ops.len(),
{
    if ops.len() == 0 {
        Map::empty()
    } else {
        lookup_of(ops.drop_last()).insert(ops.last().code, ops.last())
    }
}

/// Build the descriptor table from the record list, keyed by opcode.
/// A code that occurs twice keeps its last record.
pub fn create_lookup_table(lst: Vec<Opcode>) -> (dict: HashMap<u8, Opcode>)
    ensures
        dict@ == lookup_of(lst@),
{
    let ghost orig: Seq<Opcode> = lst@;
    let mut rest = lst;
    let mut dict: HashMap<u8, Opcode> = HashMap::new();
    let ghost mut i: int = 0;
    while rest.len() > 0
        invariant
            0 <= i <= orig.len(),
            rest@ == orig.skip(i),
            dict@ == lookup_of(orig.take(i)),
        decreases rest@.len(),
    {
        let op = rest.remove(0);
        proof {
            assert(op == orig[i]);
            assert(rest@ =~= orig.skip(i + 1));
            assert(orig.take(i + 1).drop_last() =~= orig.take(i));
            assert(orig.take(i + 1).last() == orig[i]);
        }
        dict.insert(op.code, op);
        proof {
            i = i + 1;
        }
    }
    proof {
        assert(orig.take(i) =~= orig);
    }
    dict
}

/// Where an ALU operation takes its operand from.
#[derive(Clone, Copy, Debug, PartialEq, Eq, Structural)]
pub enum AluSrc {
    /// An 8-bit register.
    Reg(Reg8),
    /// The byte pointed to by HL.
    HlPtr,
    /// The 8-bit immediate operand.
    Imm,
}

/// The tagged operation variant of one instruction.
#[derive(Clone, Copy, Debug, PartialEq, Eq, Structural)]
pub enum Op {
    /// No effect.
    Nop,
    /// Load the 16-bit immediate into a register pair.
    Ld16Imm(Reg16),
    /// Load the 8-bit immediate into a register.
    Ld8Imm(Reg8),
    /// Copy one 8-bit register into another (destination first).
    CopyReg(Reg8, Reg8),
    /// Load the register from the byte pointed to by the pair.
    LoadPtr(Reg8, Reg16),
    /// Store the register at the address held in the pair.
    StorePtr(Reg16, Reg8),
    /// Wrapping increment of a register pair.
    Inc16(Reg16),
    /// Wrapping decrement of a register pair.
    Dec16(Reg16),
    /// Wrapping increment of an 8-bit register.
    Inc8(Reg8),
    /// Wrapping decrement of an 8-bit register.
    Dec8(Reg8),
    /// Copy between A and the byte at HL (`true`: read into A), then add
    /// (`true`) or subtract one from HL.
    LddSpecial(bool, bool),
    /// Wrapping increment (`true`) or decrement of the byte at HL.
    HlPtrIncDec(bool),
    /// Store the 8-bit immediate at the address held in HL.
    StoreImmHl,
    /// Relative jump by the signed 8-bit immediate.
    JumpRel,
    /// Absolute jump to the 16-bit immediate.
    JumpAbs,
    /// Call the 16-bit immediate target.
    CallImm,
    /// Call one of the fixed restart vectors.
    Rst(u16),
    /// Return; `true` also re-enables the interrupt latch.
    Ret(bool),
    /// Push a register pair onto the stack.
    Push(Reg16),
    /// Pop from the stack into a register pair.
    Pop(Reg16),
    /// Route through the ALU with the given operand source.
    Alu(AluOp, AluSrc),
    /// Store A at 0xFF00 + the 8-bit immediate.
    StoreHighImm,
    /// Load A from 0xFF00 + the 8-bit immediate.
    LoadHighImm,
    /// Fast I/O-page transfer at 0xFF00 + C (`true`: read into A).
    FastPage(bool),
    /// Store A at the 16-bit immediate address.
    StoreAImm16,
    /// Load A from the 16-bit immediate address.
    LoadAImm16,
    /// Set the interrupt-enable latch.
    SetInterrupt(bool),
    /// Enter the halted state.
    Halt,
    /// Enter the halted state (distinct instruction).
    Stop,
}

/// The operation variant of each base-namespace opcode; `None` for an
/// undefined opcode.  Opaque so that callers reason through `decode`'s
/// contract instead of carrying the whole table.
#[verifier::opaque]
pub open spec fn spec_decode(code: u8) -> Option<Op> {
    match code {
        0x00 => Some(Op::Nop),
        0x01 => Some(Op::Ld16Imm(Reg16::BC)),
        0x02 => Some(Op::StorePtr(Reg16::BC, Reg8::A)),
        0x03 => Some(Op::Inc16(Reg16::BC)),
        0x04 => Some(Op::Inc8(Reg8::B)),
        0x05 => Some(Op::Dec8(Reg8::B)),
        0x06 => Some(Op::Ld8Imm(Reg8::B)),
        0x0a => Some(Op::LoadPtr(Reg8::A, Reg16::BC)),
        0x0b => Some(Op::Dec16(Reg16::BC)),
        0x0c => Some(Op::Inc8(Reg8::C)),
        0x0d => Some(Op::Dec8(Reg8::C)),
        0x0e => Some(Op::Ld8Imm(Reg8::C)),
        0x10 => Some(Op::Stop),
        0x11 => Some(Op::Ld16Imm(Reg16::DE)),
        0x12 => Some(Op::StorePtr(Reg16::DE, Reg8::A)),
        0x13 => Some(Op::Inc16(Reg16::DE)),
        0x14 => Some(Op::Inc8(Reg8::D)),
        0x15 => Some(Op::Dec8(Reg8::D)),
        0x16 => Some(Op::Ld8Imm(Reg8::D)),
        0x18 => Some(Op::JumpRel),
        0x1a => Some(Op::LoadPtr(Reg8::A, Reg16::DE)),
        0x1b => Some(Op::Dec16(Reg16::BC)),
        0x1c => Some(Op::Inc8(Reg8::D)),
        0x1d => Some(Op::Dec8(Reg8::D)),
        0x1e => Some(Op::Ld8Imm(Reg8::E)),
        0x21 => Some(Op::Ld16Imm(Reg16::HL)),
        0x22 => Some(Op::LddSpecial(true, true)),
        0x23 => Some(Op::Inc16(Reg16::HL)),
        0x24 => Some(Op::Inc8(Reg8::H)),
        0x25 => Some(Op::Dec8(Reg8::H)),
        0x26 => Some(Op::Ld8Imm(Reg8::H)),
        0x2a => Some(Op::LddSpecial(false, true)),
        0x2b => Some(Op::Dec16(Reg16::HL)),
        0x2c => Some(Op::Inc8(Reg8::L)),
        0x2d => Some(Op::Dec8(Reg8::L)),
        0x2e => Some(Op::Ld8Imm(Reg8::L)),
        0x31 => Some(Op::Ld16Imm(Reg16::SP)),
        0x32 => Some(Op::LddSpecial(true, false)),
        0x33 => Some(Op::Inc16(Reg16::HL)),
        0x34 => Some(Op::HlPtrIncDec(true)),
        0x35 => Some(Op::HlPtrIncDec(false)),
        0x36 => Some(Op::StoreImmHl),
        0x3a => Some(Op::LddSpecial(false, false)),
        0x3b => Some(Op::Dec16(Reg16::SP)),
        0x3c => Some(Op::Inc8(Reg8::A)),
        0x3d => Some(Op::Dec8(Reg8::A)),
        0x3e => Some(Op::Ld8Imm(Reg8::A)),
        0x40 => Some(Op::CopyReg(Reg8::B, Reg8::B)),
        0x41 => Some(Op::CopyReg(Reg8::B, Reg8::C)),
        0x42 => Some(Op::CopyReg(Reg8::B, Reg8::D)),
        0x43 => Some(Op::CopyReg(Reg8::B, Reg8::E)),
        0x44 => Some(Op::CopyReg(Reg8::B, Reg8::H)),
        0x45 => Some(Op::CopyReg(Reg8::B, Reg8::L)),
        0x46 => Some(Op::LoadPtr(Reg8::B, Reg16::HL)),
        0x47 => Some(Op::CopyReg(Reg8::B, Reg8::A)),
        0x48 => Some(Op::CopyReg(Reg8::C, Reg8::B)),
        0x49 => Some(Op::CopyReg(Reg8::C, Reg8::C)),
        0x4a => Some(Op::CopyReg(Reg8::C, Reg8::D)),
        0x4b => Some(Op::CopyReg(Reg8::C, Reg8::E)),
        0x4c => Some(Op::CopyReg(Reg8::C, Reg8::H)),
        0x4d => Some(Op::CopyReg(Reg8::C, Reg8::L)),
        0x4e => Some(Op::LoadPtr(Reg8::C, Reg16::HL)),
        0x4f => Some(Op::CopyReg(Reg8::C, Reg8::A)),
        0x50 => Some(Op::CopyReg(Reg8::D, Reg8::B)),
        0x51 => Some(Op::CopyReg(Reg8::D, Reg8::C)),
        0x52 => Some(Op::CopyReg(Reg8::D, Reg8::D)),
        0x53 => Some(Op::CopyReg(Reg8::D, Reg8::E)),
        0x54 => Some(Op::CopyReg(Reg8::D, Reg8::H)),
        0x55 => Some(Op::CopyReg(Reg8::D, Reg8::L)),
        0x56 => Some(Op::LoadPtr(Reg8::D, Reg16::HL)),
        0x57 => Some(Op::CopyReg(Reg8::D, Reg8::A)),
        0x58 => Some(Op::CopyReg(Reg8::E, Reg8::B)),
        0x59 => Some(Op::CopyReg(Reg8::E, Reg8::C)),
        0x5a => Some(Op::CopyReg(Reg8::E, Reg8::D)),
        0x5b => Some(Op::CopyReg(Reg8::E, Reg8::E)),
        0x5c => Some(Op::CopyReg(Reg8::E, Reg8::H)),
        0x5d => Some(Op::CopyReg(Reg8::E, Reg8::L)),
        0x5e => Some(Op::LoadPtr(Reg8::E, Reg16::HL)),
        0x5f => Some(Op::CopyReg(Reg8::E, Reg8::A)),
        0x60 => Some(Op::CopyReg(Reg8::H, Reg8::B)),
        0x61 => Some(Op::CopyReg(Reg8::H, Reg8::C)),
        0x62 => Some(Op::CopyReg(Reg8::H, Reg8::D)),
        0x63 => Some(Op::CopyReg(Reg8::H, Reg8::E)),
        0x64 => Some(Op::CopyReg(Reg8::H, Reg8::H)),
        0x65 => Some(Op::CopyReg(Reg8::H, Reg8::L)),
        0x66 => Some(Op::LoadPtr(Reg8::H, Reg16::HL)),
        0x67 => Some(Op::CopyReg(Reg8::H, Reg8::A)),
        0x68 => Some(Op::CopyReg(Reg8::L, Reg8::B)),
        0x69 => Some(Op::CopyReg(Reg8::L, Reg8::C)),
        0x6a => Some(Op::CopyReg(Reg8::L, Reg8::D)),
        0x6b => Some(Op::CopyReg(Reg8::L, Reg8::E)),
        0x6c => Some(Op::CopyReg(Reg8::L, Reg8::H)),
        0x6d => Some(Op::CopyReg(Reg8::L, Reg8::L)),
        0x6e => Some(Op::LoadPtr(Reg8::L, Reg16::HL)),
        0x6f => Some(Op::CopyReg(Reg8::L, Reg8::A)),
        0x70 => Some(Op::StorePtr(Reg16::HL, Reg8::B)),
        0x71 => Some(Op::StorePtr(Reg16::HL, Reg8::C)),
        0x72 => Some(Op::StorePtr(Reg16::HL, Reg8::D)),
        0x73 => Some(Op::StorePtr(Reg16::HL, Reg8::E)),
        0x74 => Some(Op::StorePtr(Reg16::HL, Reg8::H)),
        0x75 => Some(Op::StorePtr(Reg16::HL, Reg8::L)),
        0x76 => Some(Op::Halt),
        0x77 => Some(Op::StorePtr(Reg16::HL, Reg8::A)),
        0x78 => Some(Op::CopyReg(Reg8::A, Reg8::B)),
        0x79 => Some(Op::CopyReg(Reg8::A, Reg8::C)),
        0x7a => Some(Op::CopyReg(Reg8::A, Reg8::D)),
        0x7b => Some(Op::CopyReg(Reg8::A, Reg8::E)),
        0x7c => Some(Op::CopyReg(Reg8::A, Reg8::H)),
        0x7d => Some(Op::CopyReg(Reg8::A, Reg8::L)),
        0x7e => Some(Op::LoadPtr(Reg8::A, Reg16::HL)),
        0x7f => Some(Op::CopyReg(Reg8::A, Reg8::A)),
        0x80 => Some(Op::Alu(AluOp::Add, AluSrc::Reg(Reg8::B))),
        0x81 => Some(Op::Alu(AluOp::Add, AluSrc::Reg(Reg8::C))),
        0x82 => Some(Op::Alu(AluOp::Add, AluSrc::Reg(Reg8::D))),
        0x83 => Some(Op::Alu(AluOp::Add, AluSrc::Reg(Reg8::E))),
        0x84 => Some(Op::Alu(AluOp::Add, AluSrc::Reg(Reg8::H))),
        0x85 => Some(Op::Alu(AluOp::Add, AluSrc::Reg(Reg8::L))),
        0x86 => Some(Op::Alu(AluOp::Add, AluSrc::HlPtr)),
        0x87 => Some(Op::Alu(AluOp::Add, AluSrc::Reg(Reg8::A))),
        0x88 => Some(Op::Alu(AluOp::AddCarry, AluSrc::Reg(Reg8::B))),
        0x89 => Some(Op::Alu(AluOp::AddCarry, AluSrc::Reg(Reg8::C))),
        0x8a => Some(Op::Alu(AluOp::AddCarry, AluSrc::Reg(Reg8::D))),
        0x8b => Some(Op::Alu(AluOp::AddCarry, AluSrc::Reg(Reg8::E))),
        0x8c => Some(Op::Alu(AluOp::AddCarry, AluSrc::Reg(Reg8::H))),
        0x8d => Some(Op::Alu(AluOp::AddCarry, AluSrc::Reg(Reg8::L))),
        0x8e => Some(Op::Alu(AluOp::AddCarry, AluSrc::HlPtr)),
        0x8f => Some(Op::Alu(AluOp::AddCarry, AluSrc::Reg(Reg8::A))),
        0x90 => Some(Op::Alu(AluOp::Sub, AluSrc::Reg(Reg8::B))),
        0x91 => Some(Op::Alu(AluOp::Sub, AluSrc::Reg(Reg8::C))),
        0x92 => Some(Op::Alu(AluOp::Sub, AluSrc::Reg(Reg8::D))),
        0x93 => Some(Op::Alu(AluOp::Sub, AluSrc::Reg(Reg8::E))),
        0x94 => Some(Op::Alu(AluOp::Sub, AluSrc::Reg(Reg8::H))),
        0x95 => Some(Op::Alu(AluOp::Sub, AluSrc::Reg(Reg8::L))),
        0x96 => Some(Op::Alu(AluOp::Sub, AluSrc::HlPtr)),
        0x97 => Some(Op::Alu(AluOp::Sub, AluSrc::Reg(Reg8::A))),
        0x98 => Some(Op::Alu(AluOp::SubCarry, AluSrc::Reg(Reg8::B))),
        0x99 => Some(Op::Alu(AluOp::SubCarry, AluSrc::Reg(Reg8::C))),
        0x9a => Some(Op::Alu(AluOp::SubCarry, AluSrc::Reg(Reg8::D))),
        0x9b => Some(Op::Alu(AluOp::SubCarry, AluSrc::Reg(Reg8::E))),
        0x9c => Some(Op::Alu(AluOp::SubCarry, AluSrc::Reg(Reg8::H))),
        0x9d => Some(Op::Alu(AluOp::SubCarry, AluSrc::Reg(Reg8::L))),
        0x9e => Some(Op::Alu(AluOp::SubCarry, AluSrc::HlPtr)),
        0x9f => Some(Op::Alu(AluOp::SubCarry, AluSrc::Reg(Reg8::A))),
        0xa0 => Some(Op::Alu(AluOp::And, AluSrc::Reg(Reg8::B))),
        0xa1 => Some(Op::Alu(AluOp::And, AluSrc::Reg(Reg8::C))),
        0xa2 => Some(Op::Alu(AluOp::And, AluSrc::Reg(Reg8::D))),
        0xa3 => Some(Op::Alu(AluOp::And, AluSrc::Reg(Reg8::E))),
        0xa4 => Some(Op::Alu(AluOp::And, AluSrc::Reg(Reg8::H))),
        0xa5 => Some(Op::Alu(AluOp::And, AluSrc::Reg(Reg8::L))),
        0xa6 => Some(Op::Alu(AluOp::And, AluSrc::HlPtr)),
        0xa7 => Some(Op::Alu(AluOp::And, AluSrc::Reg(Reg8::A))),
        0xa8 => Some(Op::Alu(AluOp::Xor, AluSrc::Reg(Reg8::B))),
        0xa9 => Some(Op::Alu(AluOp::Xor, AluSrc::Reg(Reg8::C))),
        0xaa => Some(Op::Alu(AluOp::Xor, AluSrc::Reg(Reg8::D))),
        0xab => Some(Op::Alu(AluOp::Xor, AluSrc::Reg(Reg8::E))),
        0xac => Some(Op::Alu(AluOp::Xor, AluSrc::Reg(Reg8::H))),
        0xad => Some(Op::Alu(AluOp::Xor, AluSrc::Reg(Reg8::L))),
        0xae => Some(Op::Alu(AluOp::Xor, AluSrc::HlPtr)),
        0xaf => Some(Op::Alu(AluOp::Xor, AluSrc::Reg(Reg8::A))),
        0xb0 => Some(Op::Alu(AluOp::Or, AluSrc::Reg(Reg8::B))),
        0xb1 => Some(Op::Alu(AluOp::Or, AluSrc::Reg(Reg8::C))),
        0xb2 => Some(Op::Alu(AluOp::Or, AluSrc::Reg(Reg8::D))),
        0xb3 => Some(Op::Alu(AluOp::Or, AluSrc::Reg(Reg8::E))),
        0xb4 => Some(Op::Alu(AluOp::Or, AluSrc::Reg(Reg8::H))),
        0xb5 => Some(Op::Alu(AluOp::Or, AluSrc::Reg(Reg8::L))),
        0xb6 => Some(Op::Alu(AluOp::Or, AluSrc::HlPtr)),
        0xb7 => Some(Op::Alu(AluOp::Or, AluSrc::Reg(Reg8::A))),
        0xb8 => Some(Op::Alu(AluOp::Comp, AluSrc::Reg(Reg8::B))),
        0xb9 => Some(Op::Alu(AluOp::Comp, AluSrc::Reg(Reg8::C))),
        0xba => Some(Op::Alu(AluOp::Comp, AluSrc::Reg(Reg8::D))),
        0xbb => Some(Op::Alu(AluOp::Comp, AluSrc::Reg(Reg8::E))),
        0xbc => Some(Op::Alu(AluOp::Comp, AluSrc::Reg(Reg8::H))),
        0xbd => Some(Op::Alu(AluOp::Comp, AluSrc::Reg(Reg8::L))),
        0xbe => Some(Op::Alu(AluOp::Comp, AluSrc::HlPtr)),
        0xbf => Some(Op::Alu(AluOp::Comp, AluSrc::Reg(Reg8::A))),
        0xc1 => Some(Op::Pop(Reg16::BC)),
        0xc3 => Some(Op::JumpAbs),
        0xc5 => Some(Op::Push(Reg16::BC)),
        0xc6 => Some(Op::Alu(AluOp::Add, AluSrc::Imm)),
        0xc7 => Some(Op::Rst(0x00)),
        0xc9 => Some(Op::Ret(false)),
        0xcd => Some(Op::CallImm),
        0xce => Some(Op::Alu(AluOp::AddCarry, AluSrc::Imm)),
        0xcf => Some(Op::Rst(0x08)),
        0xd1 => Some(Op::Pop(Reg16::DE)),
        0xd5 => Some(Op::Push(Reg16::DE)),
        0xd6 => Some(Op::Alu(AluOp::Sub, AluSrc::Imm)),
        0xd7 => Some(Op::Rst(0x10)),
        0xd9 => Some(Op::Ret(true)),
        0xde => Some(Op::Alu(AluOp::SubCarry, AluSrc::Imm)),
        0xdf => Some(Op::Rst(0x18)),
        0xe0 => Some(Op::StoreHighImm),
        0xe1 => Some(Op::Pop(Reg16::HL)),
        0xe2 => Some(Op::FastPage(true)),
        0xe5 => Some(Op::Push(Reg16::HL)),
        0xe6 => Some(Op::Alu(AluOp::And, AluSrc::Imm)),
        0xe7 => Some(Op::Rst(0x20)),
        0xea => Some(Op::StoreAImm16),
        0xee => Some(Op::Alu(AluOp::Xor, AluSrc::Imm)),
        0xef => Some(Op::Rst(0x28)),
        0xf0 => Some(Op::LoadHighImm),
        0xf1 => Some(Op::Pop(Reg16::AF)),
        0xf2 => Some(Op::FastPage(false)),
        0xf3 => Some(Op::SetInterrupt(false)),
        0xf5 => Some(Op::Push(Reg16::AF)),
        0xf6 => Some(Op::Alu(AluOp::Or, AluSrc::Imm)),
        0xf7 => Some(Op::Rst(0x30)),
        0xfa => Some(Op::LoadAImm16),
        0xfb => Some(Op::SetInterrupt(true)),
        0xfe => Some(Op::Alu(AluOp::Comp, AluSrc::Imm)),
        0xff => Some(Op::Rst(0x38)),
        _ => None,
    }
}

/// Resolve an opcode byte to its operation variant.
pub fn decode(code: u8) -> (r: Option<Op>)
    ensures
        r == spec_decode(code),
{
    proof {
        reveal(spec_decode);
    }
    match code {
        0x00 => Some(Op::Nop),
        0x01 => Some(Op::Ld16Imm(Reg16::BC)),
        0x02 => Some(Op::StorePtr(Reg16::BC, Reg8::A)),
        0x03 => Some(Op::Inc16(Reg16::BC)),
        0x04 => Some(Op::Inc8(Reg8::B)),
        0x05 => Some(Op::Dec8(Reg8::B)),
        0x06 => Some(Op::Ld8Imm(Reg8::B)),
        0x0a => Some(Op::LoadPtr(Reg8::A, Reg16::BC)),
        0x0b => Some(Op::Dec16(Reg16::BC)),
        0x0c => Some(Op::Inc8(Reg8::C)),
        0x0d => Some(Op::Dec8(Reg8::C)),
        0x0e => Some(Op::Ld8Imm(Reg8::C)),
        0x10 => Some(Op::Stop),
        0x11 => Some(Op::Ld16Imm(Reg16::DE)),
        0x12 => Some(Op::StorePtr(Reg16::DE, Reg8::A)),
        0x13 => Some(Op::Inc16(Reg16::DE)),
        0x14 => Some(Op::Inc8(Reg8::D)),
        0x15 => Some(Op::Dec8(Reg8::D)),
        0x16 => Some(Op::Ld8Imm(Reg8::D)),
        0x18 => Some(Op::JumpRel),
        0x1a => Some(Op::LoadPtr(Reg8::A, Reg16::DE)),
        0x1b => Some(Op::Dec16(Reg16::BC)),
        0x1c => Some(Op::Inc8(Reg8::D)),
        0x1d => Some(Op::Dec8(Reg8::D)),
        0x1e => Some(Op::Ld8Imm(Reg8::E)),
        0x21 => Some(Op::Ld16Imm(Reg16::HL)),
        0x22 => Some(Op::LddSpecial(true, true)),
        0x23 => Some(Op::Inc16(Reg16::HL)),
        0x24 => Some(Op::Inc8(Reg8::H)),
        0x25 => Some(Op::Dec8(Reg8::H)),
        0x26 => Some(Op::Ld8Imm(Reg8::H)),
        0x2a => Some(Op::LddSpecial(false, true)),
        0x2b => Some(Op::Dec16(Reg16::HL)),
        0x2c => Some(Op::Inc8(Reg8::L)),
        0x2d => Some(Op::Dec8(Reg8::L)),
        0x2e => Some(Op::Ld8Imm(Reg8::L)),
        0x31 => Some(Op::Ld16Imm(Reg16::SP)),
        0x32 => Some(Op::LddSpecial(true, false)),
        0x33 => Some(Op::Inc16(Reg16::HL)),
        0x34 => Some(Op::HlPtrIncDec(true)),
        0x35 => Some(Op::HlPtrIncDec(false)),
        0x36 => Some(Op::StoreImmHl),
        0x3a => Some(Op::LddSpecial(false, false)),
        0x3b => Some(Op::Dec16(Reg16::SP)),
        0x3c => Some(Op::Inc8(Reg8::A)),
        0x3d => Some(Op::Dec8(Reg8::A)),
        0x3e => Some(Op::Ld8Imm(Reg8::A)),
        0x40 => Some(Op::CopyReg(Reg8::B, Reg8::B)),
        0x41 => Some(Op::CopyReg(Reg8::B, Reg8::C)),
        0x42 => Some(Op::CopyReg(Reg8::B, Reg8::D)),
        0x43 => Some(Op::CopyReg(Reg8::B, Reg8::E)),
        0x44 => Some(Op::CopyReg(Reg8::B, Reg8::H)),
        0x45 => Some(Op::CopyReg(Reg8::B, Reg8::L)),
        0x46 => Some(Op::LoadPtr(Reg8::B, Reg16::HL)),
        0x47 => Some(Op::CopyReg(Reg8::B, Reg8::A)),
        0x48 => Some(Op::CopyReg(Reg8::C, Reg8::B)),
        0x49 => Some(Op::CopyReg(Reg8::C, Reg8::C)),
        0x4a => Some(Op::CopyReg(Reg8::C, Reg8::D)),
        0x4b => Some(Op::CopyReg(Reg8::C, Reg8::E)),
        0x4c => Some(Op::CopyReg(Reg8::C, Reg8::H)),
        0x4d => Some(Op::CopyReg(Reg8::C, Reg8::L)),
        0x4e => Some(Op::LoadPtr(Reg8::C, Reg16::HL)),
        0x4f => Some(Op::CopyReg(Reg8::C, Reg8::A)),
        0x50 => Some(Op::CopyReg(Reg8::D, Reg8::B)),
        0x51 => Some(Op::CopyReg(Reg8::D, Reg8::C)),
        0x52 => Some(Op::CopyReg(Reg8::D, Reg8::D)),
        0x53 => Some(Op::CopyReg(Reg8::D, Reg8::E)),
        0x54 => Some(Op::CopyReg(Reg8::D, Reg8::H)),
        0x55 => Some(Op::CopyReg(Reg8::D, Reg8::L)),
        0x56 => Some(Op::LoadPtr(Reg8::D, Reg16::HL)),
        0x57 => Some(Op::CopyReg(Reg8::D, Reg8::A)),
        0x58 => Some(Op::CopyReg(Reg8::E, Reg8::B)),
        0x59 => Some(Op::CopyReg(Reg8::E, Reg8::C)),
        0x5a => Some(Op::CopyReg(Reg8::E, Reg8::D)),
        0x5b => Some(Op::CopyReg(Reg8::E, Reg8::E)),
        0x5c => Some(Op::CopyReg(Reg8::E, Reg8::H)),
        0x5d => Some(Op::CopyReg(Reg8::E, Reg8::L)),
        0x5e => Some(Op::LoadPtr(Reg8::E, Reg16::HL)),
        0x5f => Some(Op::CopyReg(Reg8::E, Reg8::A)),
        0x60 => Some(Op::CopyReg(Reg8::H, Reg8::B)),
        0x61 => Some(Op::CopyReg(Reg8::H, Reg8::C)),
        0x62 => Some(Op::CopyReg(Reg8::H, Reg8::D)),
        0x63 => Some(Op::CopyReg(Reg8::H, Reg8::E)),
        0x64 => Some(Op::CopyReg(Reg8::H, Reg8::H)),
        0x65 => Some(Op::CopyReg(Reg8::H, Reg8::L)),
        0x66 => Some(Op::LoadPtr(Reg8::H, Reg16::HL)),
        0x67 => Some(Op::CopyReg(Reg8::H, Reg8::A)),
        0x68 => Some(Op::CopyReg(Reg8::L, Reg8::B)),
        0x69 => Some(Op::CopyReg(Reg8::L, Reg8::C)),
        0x6a => Some(Op::CopyReg(Reg8::L, Reg8::D)),
        0x6b => Some(Op::CopyReg(Reg8::L, Reg8::E)),
        0x6c => Some(Op::CopyReg(Reg8::L, Reg8::H)),
        0x6d => Some(Op::CopyReg(Reg8::L, Reg8::L)),
        0x6e => Some(Op::LoadPtr(Reg8::L, Reg16::HL)),
        0x6f => Some(Op::CopyReg(Reg8::L, Reg8::A)),
        0x70 => Some(Op::StorePtr(Reg16::HL, Reg8::B)),
        0x71 => Some(Op::StorePtr(Reg16::HL, Reg8::C)),
        0x72 => Some(Op::StorePtr(Reg16::HL, Reg8::D)),
        0x73 => Some(Op::StorePtr(Reg16::HL, Reg8::E)),
        0x74 => Some(Op::StorePtr(Reg16::HL, Reg8::H)),
        0x75 => Some(Op::StorePtr(Reg16::HL, Reg8::L)),
        0x76 => Some(Op::Halt),
        0x77 => Some(Op::StorePtr(Reg16::HL, Reg8::A)),
        0x78 => Some(Op::CopyReg(Reg8::A, Reg8::B)),
        0x79 => Some(Op::CopyReg(Reg8::A, Reg8::C)),
        0x7a => Some(Op::CopyReg(Reg8::A, Reg8::D)),
        0x7b => Some(Op::CopyReg(Reg8::A, Reg8::E)),
        0x7c => Some(Op::CopyReg(Reg8::A, Reg8::H)),
        0x7d => Some(Op::CopyReg(Reg8::A, Reg8::L)),
        0x7e => Some(Op::LoadPtr(Reg8::A, Reg16::HL)),
        0x7f => Some(Op::CopyReg(Reg8::A, Reg8::A)),
        0x80 => Some(Op::Alu(AluOp::Add, AluSrc::Reg(Reg8::B))),
        0x81 => Some(Op::Alu(AluOp::Add, AluSrc::Reg(Reg8::C))),
        0x82 => Some(Op::Alu(AluOp::Add, AluSrc::Reg(Reg8::D))),
        0x83 => Some(Op::Alu(AluOp::Add, AluSrc::Reg(Reg8::E))),
        0x84 => Some(Op::Alu(AluOp::Add, AluSrc::Reg(Reg8::H))),
        0x85 => Some(Op::Alu(AluOp::Add, AluSrc::Reg(Reg8::L))),
        0x86 => Some(Op::Alu(AluOp::Add, AluSrc::HlPtr)),
        0x87 => Some(Op::Alu(AluOp::Add, AluSrc::Reg(Reg8::A))),
        0x88 => Some(Op::Alu(AluOp::AddCarry, AluSrc::Reg(Reg8::B))),
        0x89 => Some(Op::Alu(AluOp::AddCarry, AluSrc::Reg(Reg8::C))),
        0x8a => Some(Op::Alu(AluOp::AddCarry, AluSrc::Reg(Reg8::D))),
        0x8b => Some(Op::Alu(AluOp::AddCarry, AluSrc::Reg(Reg8::E))),
        0x8c => Some(Op::Alu(AluOp::AddCarry, AluSrc::Reg(Reg8::H))),
        0x8d => Some(Op::Alu(AluOp::AddCarry, AluSrc::Reg(Reg8::L))),
        0x8e => Some(Op::Alu(AluOp::AddCarry, AluSrc::HlPtr)),
        0x8f => Some(Op::Alu(AluOp::AddCarry, AluSrc::Reg(Reg8::A))),
        0x90 => Some(Op::Alu(AluOp::Sub, AluSrc::Reg(Reg8::B))),
        0x91 => Some(Op::Alu(AluOp::Sub, AluSrc::Reg(Reg8::C))),
        0x92 => Some(Op::Alu(AluOp::Sub, AluSrc::Reg(Reg8::D))),
        0x93 => Some(Op::Alu(AluOp::Sub, AluSrc::Reg(Reg8::E))),
        0x94 => Some(Op::Alu(AluOp::Sub, AluSrc::Reg(Reg8::H))),
        0x95 => Some(Op::Alu(AluOp::Sub, AluSrc::Reg(Reg8::L))),
        0x96 => Some(Op::Alu(AluOp::Sub, AluSrc::HlPtr)),
        0x97 => Some(Op::Alu(AluOp::Sub, AluSrc::Reg(Reg8::A))),
        0x98 => Some(Op::Alu(AluOp::SubCarry, AluSrc::Reg(Reg8::B))),
        0x99 => Some(Op::Alu(AluOp::SubCarry, AluSrc::Reg(Reg8::C))),
        0x9a => Some(Op::Alu(AluOp::SubCarry, AluSrc::Reg(Reg8::D))),
        0x9b => Some(Op::Alu(AluOp::SubCarry, AluSrc::Reg(Reg8::E))),
        0x9c => Some(Op::Alu(AluOp::SubCarry, AluSrc::Reg(Reg8::H))),
        0x9d => Some(Op::Alu(AluOp::SubCarry, AluSrc::Reg(Reg8::L))),
        0x9e => Some(Op::Alu(AluOp::SubCarry, AluSrc::HlPtr)),
        0x9f => Some(Op::Alu(AluOp::SubCarry, AluSrc::Reg(Reg8::A))),
        0xa0 => Some(Op::Alu(AluOp::And, AluSrc::Reg(Reg8::B))),
        0xa1 => Some(Op::Alu(AluOp::And, AluSrc::Reg(Reg8::C))),
        0xa2 => Some(Op::Alu(AluOp::And, AluSrc::Reg(Reg8::D))),
        0xa3 => Some(Op::Alu(AluOp::And, AluSrc::Reg(Reg8::E))),
        0xa4 => Some(Op::Alu(AluOp::And, AluSrc::Reg(Reg8::H))),
        0xa5 => Some(Op::Alu(AluOp::And, AluSrc::Reg(Reg8::L))),
        0xa6 => Some(Op::Alu(AluOp::And, AluSrc::HlPtr)),
        0xa7 => Some(Op::Alu(AluOp::And, AluSrc::Reg(Reg8::A))),
        0xa8 => Some(Op::Alu(AluOp::Xor, AluSrc::Reg(Reg8::B))),
        0xa9 => Some(Op::Alu(AluOp::Xor, AluSrc::Reg(Reg8::C))),
        0xaa => Some(Op::Alu(AluOp::Xor, AluSrc::Reg(Reg8::D))),
        0xab => Some(Op::Alu(AluOp::Xor, AluSrc::Reg(Reg8::E))),
        0xac => Some(Op::Alu(AluOp::Xor, AluSrc::Reg(Reg8::H))),
        0xad => Some(Op::Alu(AluOp::Xor, AluSrc::Reg(Reg8::L))),
        0xae => Some(Op::Alu(AluOp::Xor, AluSrc::HlPtr)),
        0xaf => Some(Op::Alu(AluOp::Xor, AluSrc::Reg(Reg8::A))),
        0xb0 => Some(Op::Alu(AluOp::Or, AluSrc::Reg(Reg8::B))),
        0xb1 => Some(Op::Alu(AluOp::Or, AluSrc::Reg(Reg8::C))),
        0xb2 => Some(Op::Alu(AluOp::Or, AluSrc::Reg(Reg8::D))),
        0xb3 => Some(Op::Alu(AluOp::Or, AluSrc::Reg(Reg8::E))),
        0xb4 => Some(Op::Alu(AluOp::Or, AluSrc::Reg(Reg8::H))),
        0xb5 => Some(Op::Alu(AluOp::Or, AluSrc::Reg(Reg8::L))),
        0xb6 => Some(Op::Alu(AluOp::Or, AluSrc::HlPtr)),
        0xb7 => Some(Op::Alu(AluOp::Or, AluSrc::Reg(Reg8::A))),
        0xb8 => Some(Op::Alu(AluOp::Comp, AluSrc::Reg(Reg8::B))),
        0xb9 => Some(Op::Alu(AluOp::Comp, AluSrc::Reg(Reg8::C))),
        0xba => Some(Op::Alu(AluOp::Comp, AluSrc::Reg(Reg8::D))),
        0xbb => Some(Op::Alu(AluOp::Comp, AluSrc::Reg(Reg8::E))),
        0xbc => Some(Op::Alu(AluOp::Comp, AluSrc::Reg(Reg8::H))),
        0xbd => Some(Op::Alu(AluOp::Comp, AluSrc::Reg(Reg8::L))),
        0xbe => Some(Op::Alu(AluOp::Comp, AluSrc::HlPtr)),
        0xbf => Some(Op::Alu(AluOp::Comp, AluSrc::Reg(Reg8::A))),
        0xc1 => Some(Op::Pop(Reg16::BC)),
        0xc3 => Some(Op::JumpAbs),
        0xc5 => Some(Op::Push(Reg16::BC)),
        0xc6 => Some(Op::Alu(AluOp::Add, AluSrc::Imm)),
        0xc7 => Some(Op::Rst(0x00)),
        0xc9 => Some(Op::Ret(false)),
        0xcd => Some(Op::CallImm),
        0xce => Some(Op::Alu(AluOp::AddCarry, AluSrc::Imm)),
        0xcf => Some(Op::Rst(0x08)),
        0xd1 => Some(Op::Pop(Reg16::DE)),
        0xd5 => Some(Op::Push(Reg16::DE)),
        0xd6 => Some(Op::Alu(AluOp::Sub, AluSrc::Imm)),
        0xd7 => Some(Op::Rst(0x10)),
        0xd9 => Some(Op::Ret(true)),
        0xde => Some(Op::Alu(AluOp::SubCarry, AluSrc::Imm)),
        0xdf => Some(Op::Rst(0x18)),
        0xe0 => Some(Op::StoreHighImm),
        0xe1 => Some(Op::Pop(Reg16::HL)),
        0xe2 => Some(Op::FastPage(true)),
        0xe5 => Some(Op::Push(Reg16::HL)),
        0xe6 => Some(Op::Alu(AluOp::And, AluSrc::Imm)),
        0xe7 => Some(Op::Rst(0x20)),
        0xea => Some(Op::StoreAImm16),
        0xee => Some(Op::Alu(AluOp::Xor, AluSrc::Imm)),
        0xef => Some(Op::Rst(0x28)),
        0xf0 => Some(Op::LoadHighImm),
        0xf1 => Some(Op::Pop(Reg16::AF)),
        0xf2 => Some(Op::FastPage(false)),
        0xf3 => Some(Op::SetInterrupt(false)),
        0xf5 => Some(Op::Push(Reg16::AF)),
        0xf6 => Some(Op::Alu(AluOp::Or, AluSrc::Imm)),
        0xf7 => Some(Op::Rst(0x30)),
        0xfa => Some(Op::LoadAImm16),
        0xfb => Some(Op::SetInterrupt(true)),
        0xfe => Some(Op::Alu(AluOp::Comp, AluSrc::Imm)),
        0xff => Some(Op::Rst(0x38)),
        _ => None,
    }
}

} // verus!
