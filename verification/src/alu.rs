//! The arithmetic/logic unit: register-to-register/immediate operations on
//! the accumulator, with all four flags computed as a pure function of the
//! operation and its operands.
//!
//! - Zero: the 8-bit result is zero.
//! - Subtract: set for the subtract, subtract-with-carry and complement
//!   operations, clear otherwise.
//! - Half-Carry: a carry or borrow out of bit 3 of the low nibble.
//! - Carry: the 8-bit result overflowed or underflowed; forced clear for the
//!   bitwise operations.
//!
//! The `-with-carry` variants read the Carry flag as it stands before the
//! flag register is overwritten.

use vstd::prelude::*;

use crate::registers::Flag;
use crate::registers::Reg8;
use crate::registers::RegOps;
use crate::registers::RegisterCache;
use crate::registers::lemma_flags_byte;

verus! {

/// One ALU operation.
#[derive(Clone, Copy, Debug, PartialEq, Eq, Structural)]
pub enum AluOp {
    Add,
    AddCarry,
    Sub,
    SubCarry,
    And,
    Xor,
    Or,
    Comp,
}

/// The carry-in used by an operation: the current Carry flag for the
/// `-with-carry` variants, zero for every other operation.
pub open spec fn carry_in(regs: RegisterCache, op: AluOp) -> u8 {
    match op {
        AluOp::AddCarry | AluOp::SubCarry => if regs.spec_get_flag(Flag::CY) {
            1u8
        } else {
            0u8
        },
        _ => 0u8,
    }
}

/// The 8-bit result written to the accumulator.
pub open spec fn alu_val(op: AluOp, a: u8, v: u8, cy: u8) -> u8 {
    match op {
        AluOp::Add => ((a + v) % 0x100) as u8,
        AluOp::AddCarry => ((a + v + cy) % 0x100) as u8,
        AluOp::Sub => ((a + 0x100 - v) % 0x100) as u8,
        AluOp::SubCarry => ((a + 0x200 - v - cy) % 0x100) as u8,
        AluOp::And => a & v,
        AluOp::Xor => a ^ v,
        AluOp::Or => a | v,
        AluOp::Comp => !v,
    }
}

/// The Subtract flag.
pub open spec fn alu_n(op: AluOp) -> bool {
    op is Sub || op is SubCarry || op is Comp
}

/// The Half-Carry flag: a carry or borrow out of bit 3.
pub open spec fn alu_h(op: AluOp, a: u8, v: u8, cy: u8) -> bool {
    match op {
        AluOp::Add => (a % 16) + (v % 16) > 15,
        AluOp::AddCarry => (a % 16) + (v % 16) + cy > 15,
        AluOp::Sub => (a % 16) < (v % 16),
        AluOp::SubCarry => (a % 16) < (v % 16) + cy,
        _ => false,
    }
}

/// The Carry flag: 8-bit overflow or underflow; false for bitwise operations.
pub open spec fn alu_c(op: AluOp, a: u8, v: u8, cy: u8) -> bool {
    match op {
        AluOp::Add => a + v > 255,
        AluOp::AddCarry => a + v + cy > 255,
        AluOp::Sub => a < v,
        AluOp::SubCarry => a < v + cy,
        _ => false,
    }
}

/// The register file after one ALU operation: the result goes to the
/// accumulator and the flag register is overwritten with the four flags.
pub open spec fn spec_alu(regs: RegisterCache, op: AluOp, val: u8) -> RegisterCache {
    let a = regs.spec_get8(Reg8::A);
    let cy = carry_in(regs, op);
    let r = alu_val(op, a, val, cy);
    regs.spec_set8(Reg8::A, r).spec_set_flags(
        r == 0,
        alu_n(op),
        alu_h(op, a, val, cy),
        alu_c(op, a, val, cy),
    )
}

/// Perform one ALU operation on the accumulator and flag register.
/// Nothing but the AF pair changes.
pub fn alu_apply(regs: &mut RegisterCache, op: AluOp, val: u8)
    ensures
        *final(regs) == spec_alu(*old(regs), op, val),
        final(regs).spec_get8(Reg8::A) == alu_val(
            op,
            old(regs).spec_get8(Reg8::A),
            val,
            carry_in(*old(regs), op),
        ),
        final(regs).spec_get_flag(Flag::Z) == (final(regs).spec_get8(Reg8::A) == 0),
        final(regs).spec_get_flag(Flag::N) == alu_n(op),
        final(regs).spec_get_flag(Flag::H) == alu_h(
            op,
            old(regs).spec_get8(Reg8::A),
            val,
            carry_in(*old(regs), op),
        ),
        final(regs).spec_get_flag(Flag::CY) == alu_c(
            op,
            old(regs).spec_get8(Reg8::A),
            val,
            carry_in(*old(regs), op),
        ),
{
    let a = regs.get(Reg8::A);
    let cy: u8 = match op {
        AluOp::AddCarry | AluOp::SubCarry => if regs.get_flag(Flag::CY) {
            1
        } else {
            0
        },
        _ => 0,
    };
    let result: u8 = match op {
        AluOp::Add => a.wrapping_add(val),
        AluOp::AddCarry => a.wrapping_add(val).wrapping_add(cy),
        AluOp::Sub => a.wrapping_sub(val),
        AluOp::SubCarry => a.wrapping_sub(val).wrapping_sub(cy),
        AluOp::And => a & val,
        AluOp::Xor => a ^ val,
        AluOp::Or => a | val,
        AluOp::Comp => !val,
    };
    let z = result == 0;
    let n = matches!(op, AluOp::Sub | AluOp::SubCarry | AluOp::Comp);
    let h = match op {
        AluOp::Add => (a % 16) + (val % 16) > 15,
        AluOp::AddCarry => (a % 16) + (val % 16) + cy > 15,
        AluOp::Sub => (a % 16) < (val % 16),
        AluOp::SubCarry => ((a % 16) as u16) < ((val % 16) as u16) + (cy as u16),
        _ => false,
    };
    let c = match op {
        AluOp::Add => (a as u16) + (val as u16) > 255,
        AluOp::AddCarry => (a as u16) + (val as u16) + (cy as u16) > 255,
        AluOp::Sub => a < val,
        AluOp::SubCarry => (a as u16) < (val as u16) + (cy as u16),
        _ => false,
    };
    regs.set(Reg8::A, result);
    regs.set_flags(z, n, h, c);
    proof {
        lemma_flags_byte(z, n, h, c);
    }
}

} // verus!
