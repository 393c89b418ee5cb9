//! The instruction interpreter: a fetch/decode/execute step over the
//! register file and the memory bus.
//!
//! `step` is the abstract machine: a specification-level function from one
//! interpreter state to the next.  `process` is the executable interpreter
//! and is proved to implement `step` exactly, one instruction per call.

use std::collections::HashMap;

use vstd::prelude::*;

use crate::alu::AluOp;
use crate::alu::alu_apply;
use crate::alu::spec_alu;
use crate::lookup::AluSrc;
use crate::lookup::Op;
use crate::lookup::Opcode;
use crate::lookup::decode;
use crate::lookup::spec_decode;
use crate::memory::MemClient;
use crate::memory::Memory;
use crate::registers::Reg16;
use crate::registers::Reg8;
use crate::registers::RegOps;
use crate::registers::RegisterCache;
use crate::util::addr_add;
use crate::util::hi_byte;
use crate::util::lo_byte;
use crate::util::split_u16;
use crate::util::word_of;

verus! {

broadcast use vstd::std_specs::hash::group_hash_axioms;

/// The interpreter's execution state.  `Halted` and `Faulted` are terminal:
/// once entered, no further step changes anything.
#[derive(Clone, Copy, Debug, PartialEq, Eq, Structural)]
pub enum CpuState {
    /// Instructions are being executed.
    Running,
    /// A halt or stop instruction was executed.
    Halted,
    /// An undefined opcode or an out-of-range relative jump was met.
    Faulted,
}

/// The abstract value of the interpreter: the register file, the byte at
/// each memory address, the descriptor table, the interrupt-enable latch
/// and the execution state.
#[verifier::ext_equal]
pub ghost struct CpuModel {
    pub regs: RegisterCache,
    pub mem: Seq<u8>,
    pub table: Map<u8, Opcode>,
    pub ir_enabled: bool,
    pub state: CpuState,
}

/// The 16-bit little-endian value starting at `addr`, the address of the
/// high byte wrapping around the address space.
pub open spec fn spec_parse_u16(mem: Seq<u8>, addr: u16) -> u16 {
    word_of(mem[addr as int], mem[addr_add(addr, 1) as int])
}

/// Push the value of `src`: the stack pointer moves down by two, then the
/// value is written at the new stack pointer, low byte first.
pub open spec fn spec_push(m: CpuModel, src: Reg16) -> CpuModel {
    let r1 = m.regs.spec_sub(Reg16::SP, 2u16);
    let sp = r1.spec_get16(Reg16::SP);
    let v = r1.spec_get16(src);
    CpuModel {
        regs: r1,
        mem: m.mem.update(sp as int, lo_byte(v)).update(addr_add(sp, 1) as int, hi_byte(v)),
        ..m
    }
}

/// Pop into `dst`: the 16-bit value at the stack pointer is read, low byte
/// first, the stack pointer moves up by two, and the value lands in `dst`.
pub open spec fn spec_pop(m: CpuModel, dst: Reg16) -> CpuModel {
    let sp = m.regs.spec_get16(Reg16::SP);
    let val = spec_parse_u16(m.mem, sp);
    CpuModel { regs: m.regs.spec_add(Reg16::SP, 2u16).spec_set16(dst, val), ..m }
}

/// Call: push the current program counter (the return address), then jump.
pub open spec fn spec_call(m: CpuModel, jump_addr: u16) -> CpuModel {
    let m1 = spec_push(m, Reg16::PC);
    CpuModel { regs: m1.regs.spec_set16(Reg16::PC, jump_addr), ..m1 }
}

/// Return: pop the top of stack into the program counter; `enable_ir`
/// additionally re-enables the interrupt latch.
pub open spec fn spec_ret(m: CpuModel, enable_ir: bool) -> CpuModel {
    let m1 = spec_pop(m, Reg16::PC);
    CpuModel { ir_enabled: m1.ir_enabled || enable_ir, ..m1 }
}

/// Store register `src` at the address held in pair `dst`.
pub open spec fn spec_set_reg_ptr(m: CpuModel, dst: Reg16, src: Reg8) -> CpuModel {
    CpuModel {
        mem: m.mem.update(m.regs.spec_get16(dst) as int, m.regs.spec_get8(src)),
        ..m
    }
}

/// Load register `dst` from the address held in pair `src`.
pub open spec fn spec_get_reg_ptr(m: CpuModel, dst: Reg8, src: Reg16) -> CpuModel {
    CpuModel { regs: m.regs.spec_set8(dst, m.mem[m.regs.spec_get16(src) as int]), ..m }
}

/// Copy between A and the byte at HL (`is_get`: read into A), then add or
/// subtract one from HL, wrapping.
pub open spec fn spec_ldd_special(m: CpuModel, is_get: bool, is_add: bool) -> CpuModel {
    let m1 = if is_get {
        spec_get_reg_ptr(m, Reg8::A, Reg16::HL)
    } else {
        spec_set_reg_ptr(m, Reg16::HL, Reg8::A)
    };
    let r2 = if is_add {
        m1.regs.spec_add(Reg16::HL, 1u16)
    } else {
        m1.regs.spec_sub(Reg16::HL, 1u16)
    };
    CpuModel { regs: r2, ..m1 }
}

/// Fast I/O-page transfer at 0xFF00 + C: read into A, or store A there.
pub open spec fn spec_ld_fast_page(m: CpuModel, is_get: bool) -> CpuModel {
    let addr = (0xFF00 + m.regs.spec_get8(Reg8::C)) as u16;
    if is_get {
        CpuModel { regs: m.regs.spec_set8(Reg8::A, m.mem[addr as int]), ..m }
    } else {
        CpuModel { mem: m.mem.update(addr as int, m.regs.spec_get8(Reg8::A)), ..m }
    }
}

/// Wrapping increment or decrement of the byte pointed to by HL.
pub open spec fn spec_hl_ptr_inc_dec(m: CpuModel, is_add: bool) -> CpuModel {
    let addr = m.regs.spec_get16(Reg16::HL);
    let v = m.mem[addr as int];
    let v2 = if is_add {
        ((v + 1) % 0x100) as u8
    } else {
        ((v + 0xFF) % 0x100) as u8
    };
    CpuModel { mem: m.mem.update(addr as int, v2), ..m }
}

/// The target of a relative jump: the already-advanced program counter plus
/// the two's-complement reading of the offset byte, as an unbounded integer.
pub open spec fn rel_target(pc: u16, offset: u8) -> int {
    pc + (if offset < 0x80 {
        offset as int
    } else {
        offset - 0x100
    })
}

/// Relative jump: a target outside the 16-bit address space is a fatal
/// emulation error and faults the interpreter with nothing else changed.
pub open spec fn spec_jump_relative(m: CpuModel, offset: u8) -> CpuModel {
    let t = rel_target(m.regs.spec_get16(Reg16::PC), offset);
    if t < 0 || t > 0xFFFF {
        CpuModel { state: CpuState::Faulted, ..m }
    } else {
        CpuModel { regs: m.regs.spec_set16(Reg16::PC, t as u16), ..m }
    }
}

/// The effect of one decoded operation on the already-advanced state.
/// `op8` and `op16` are the immediate operands that follow the opcode byte.
/// Opaque so that reasoning about a whole step need not carry every arm;
/// proofs about a single operation reveal it.
#[verifier::opaque]
pub open spec fn apply_op(m: CpuModel, op: Op, op8: u8, op16: u16) -> CpuModel {
    match op {
        Op::Nop => m,
        Op::Ld16Imm(rr) => CpuModel { regs: m.regs.spec_set16(rr, op16), ..m },
        Op::Ld8Imm(r) => CpuModel { regs: m.regs.spec_set8(r, op8), ..m },
        Op::CopyReg(d, s) => CpuModel {
            regs: m.regs.spec_set8(d, m.regs.spec_get8(s)),
            ..m
        },
        Op::LoadPtr(d, p) => spec_get_reg_ptr(m, d, p),
        Op::StorePtr(p, s) => spec_set_reg_ptr(m, p, s),
        Op::Inc16(rr) => CpuModel { regs: m.regs.spec_add(rr, 1u16), ..m },
        Op::Dec16(rr) => CpuModel { regs: m.regs.spec_sub(rr, 1u16), ..m },
        Op::Inc8(r) => CpuModel { regs: m.regs.spec_add(r, 1u8), ..m },
        Op::Dec8(r) => CpuModel { regs: m.regs.spec_sub(r, 1u8), ..m },
        Op::LddSpecial(g, a) => spec_ldd_special(m, g, a),
        Op::HlPtrIncDec(a) => spec_hl_ptr_inc_dec(m, a),
        Op::StoreImmHl => CpuModel {
            mem: m.mem.update(m.regs.spec_get16(Reg16::HL) as int, op8),
            ..m
        },
        Op::JumpRel => spec_jump_relative(m, op8),
        Op::JumpAbs => CpuModel { regs: m.regs.spec_set16(Reg16::PC, op16), ..m },
        Op::CallImm => spec_call(m, op16),
        Op::Rst(t) => spec_call(m, t),
        Op::Ret(e) => spec_ret(m, e),
        Op::Push(rr) => spec_push(m, rr),
        Op::Pop(rr) => spec_pop(m, rr),
        Op::Alu(aop, src) => {
            let v = match src {
                AluSrc::Reg(r) => m.regs.spec_get8(r),
                AluSrc::HlPtr => m.mem[m.regs.spec_get16(Reg16::HL) as int],
                AluSrc::Imm => op8,
            };
            CpuModel { regs: spec_alu(m.regs, aop, v), ..m }
        },
        Op::StoreHighImm => CpuModel {
            mem: m.mem.update(0xFF00 + op8 as int, m.regs.spec_get8(Reg8::A)),
            ..m
        },
        Op::LoadHighImm => CpuModel {
            regs: m.regs.spec_set8(Reg8::A, m.mem[0xFF00 + op8 as int]),
            ..m
        },
        Op::FastPage(g) => spec_ld_fast_page(m, g),
        Op::StoreAImm16 => CpuModel {
            mem: m.mem.update(op16 as int, m.regs.spec_get8(Reg8::A)),
            ..m
        },
        Op::LoadAImm16 => CpuModel { regs: m.regs.spec_set8(Reg8::A, m.mem[op16 as int]), ..m },
        Op::SetInterrupt(b) => CpuModel { ir_enabled: b, ..m },
        Op::Halt => CpuModel { state: CpuState::Halted, ..m },
        Op::Stop => CpuModel { state: CpuState::Halted, ..m },
    }
}

/// One interpreter step.
///
/// A terminal state steps to itself.  Otherwise the opcode byte at the
/// program counter is read; the escape byte 0xCB selects the extended
/// namespace, which this table format leaves empty, so it faults.  An opcode
/// with no descriptor or no operation variant faults with nothing changed.
/// Otherwise the program counter first advances past the encoded length and
/// the operation's effect is then applied, so control-flow instructions
/// simply overwrite the program counter.
pub open spec fn step(m: CpuModel) -> CpuModel {
    if !(m.state is Running) {
        m
    } else {
        let pc = m.regs.spec_get16(Reg16::PC);
        let opcode = m.mem[pc as int];
        if opcode == 0xCB {
            CpuModel { state: CpuState::Faulted, ..m }
        } else {
            match spec_decode(opcode) {
                None => CpuModel { state: CpuState::Faulted, ..m },
                Some(op) => if !m.table.contains_key(opcode) {
                    CpuModel { state: CpuState::Faulted, ..m }
                } else {
                    let op8 = m.mem[addr_add(pc, 1) as int];
                    let op16 = spec_parse_u16(m.mem, addr_add(pc, 1));
                    let bytes = m.table[opcode].bytes as u16;
                    let m1 = CpuModel {
                        regs: m.regs.spec_set16(Reg16::PC, addr_add(pc, bytes)),
                        ..m
                    };
                    apply_op(m1, op, op8, op16)
                },
            }
        }
    }
}

/// Whether the interpreter may continue after one step.
pub open spec fn step_continues(m: CpuModel) -> bool {
    step(m).state is Running
}

/// The instruction interpreter.
pub struct CPU {
    pub regs: RegisterCache,
    pub mem: Memory,
    pub table: HashMap<u8, Opcode>,
    pub ir_enabled: bool,
    pub state: CpuState,
}

impl CPU {
    /// The abstract value of the interpreter.
    pub open spec fn view(&self) -> CpuModel {
        CpuModel {
            regs: self.regs,
            mem: self.mem@,
            table: self.table@,
            ir_enabled: self.ir_enabled,
            state: self.state,
        }
    }

    /// Well-formedness: the memory bus covers the whole address space.
    pub open spec fn wf(&self) -> bool {
        self.mem.wf()
    }

    /// A fresh interpreter over the given memory image and descriptor table:
    /// every register zero (the program counter at the reset vector), the
    /// interrupt latch enabled, the state `Running`.
    pub fn new(mem: Memory, table: HashMap<u8, Opcode>) -> (cpu: CPU)
        requires
            mem.wf(),
        ensures
            cpu.wf(),
            cpu@ == (CpuModel {
                regs: RegisterCache::initial(),
                mem: mem@,
                table: table@,
                ir_enabled: true,
                state: CpuState::Running,
            }),
    {
        CPU {
            regs: RegisterCache::new(),
            mem,
            table,
            ir_enabled: true,
            state: CpuState::Running,
        }
    }

    /// The current program counter.
    pub fn get_pc(&self) -> (r: u16)
        ensures
            r == self@.regs.spec_get16(Reg16::PC),
    {
        self.regs.get(Reg16::PC)
    }

    /// The 16-bit value starting at `addr`, little endian.
    fn parse_u16(&self, addr: u16) -> (r: u16)
        requires
            self.wf(),
        ensures
            r == spec_parse_u16(self@.mem, addr),
    {
        let lo = self.mem.get(addr, MemClient::CPU);
        let hi = self.mem.get(addr.wrapping_add(1), MemClient::CPU);
        crate::util::join_u8((lo, hi))
    }

    /// Push the value of the given register pair onto the stack.
    pub fn push(&mut self, src: Reg16)
        requires
            old(self).wf(),
        ensures
            final(self).wf(),
            final(self)@ == spec_push(old(self)@, src),
    {
        self.regs.sub(Reg16::SP, 2);
        let sp_val = self.regs.get(Reg16::SP);
        let split_addr = split_u16(self.regs.get(src));
        self.mem.set(split_addr.0, sp_val, MemClient::CPU);
        self.mem.set(split_addr.1, sp_val.wrapping_add(1), MemClient::CPU);
    }

    /// Pop the topmost 16-bit value from the stack into the given register pair.
    pub fn pop(&mut self, dst: Reg16)
        requires
            old(self).wf(),
        ensures
            final(self).wf(),
            final(self)@ == spec_pop(old(self)@, dst),
    {
        let sp = self.regs.get(Reg16::SP);
        let stack_val = self.parse_u16(sp);
        self.regs.add(Reg16::SP, 2);
        self.regs.set(dst, stack_val);
    }

    /// Push the return address onto the stack and jump to `jump_addr`.
    pub fn call(&mut self, jump_addr: u16)
        requires
            old(self).wf(),
        ensures
            final(self).wf(),
            final(self)@ == spec_call(old(self)@, jump_addr),
    {
        self.push(Reg16::PC);
        self.regs.set(Reg16::PC, jump_addr);
    }

    /// Pop the topmost address from the stack and jump to it; `enable_ir`
    /// additionally re-enables the interrupt latch.
    pub fn ret(&mut self, enable_ir: bool)
        requires
            old(self).wf(),
        ensures
            final(self).wf(),
            final(self)@ == spec_ret(old(self)@, enable_ir),
    {
        self.pop(Reg16::PC);
        if enable_ir {
            self.ir_enabled = true;
        }
    }

    /// Store the given register at the address held in the given pair.
    fn set_reg_ptr(&mut self, dst: Reg16, src: Reg8)
        requires
            old(self).wf(),
        ensures
            final(self).wf(),
            final(self)@ == spec_set_reg_ptr(old(self)@, dst, src),
    {
        let val = self.regs.get(src);
        let addr = self.regs.get(dst);
        self.mem.set(val, addr, MemClient::CPU);
    }

    /// Load the given register from the address held in the given pair.
    fn get_reg_ptr(&mut self, dst: Reg8, src: Reg16)
        requires
            old(self).wf(),
        ensures
            final(self).wf(),
            final(self)@ == spec_get_reg_ptr(old(self)@, dst, src),
    {
        let addr = self.regs.get(src);
        let val = self.mem.get(addr, MemClient::CPU);
        self.regs.set(dst, val);
    }

    /// Copy between A and the byte at HL, then add or subtract one from HL.
    fn ldd_special(&mut self, is_get: bool, is_add: bool)
        requires
            old(self).wf(),
        ensures
            final(self).wf(),
            final(self)@ == spec_ldd_special(old(self)@, is_get, is_add),
    {
        if is_get {
            self.get_reg_ptr(Reg8::A, Reg16::HL);
        } else {
            self.set_reg_ptr(Reg16::HL, Reg8::A);
        }
        if is_add {
            self.regs.add(Reg16::HL, 1);
        } else {
            self.regs.sub(Reg16::HL, 1);
        }
    }

    /// Fast I/O-page transfer at 0xFF00 + C.
    fn ld_fast_page(&mut self, is_get: bool)
        requires
            old(self).wf(),
        ensures
            final(self).wf(),
            final(self)@ == spec_ld_fast_page(old(self)@, is_get),
    {
        let addr = 0xFF00 + self.regs.get(Reg8::C) as u16;
        if is_get {
            let val = self.mem.get(addr, MemClient::CPU);
            self.regs.set(Reg8::A, val);
        } else {
            let val = self.regs.get(Reg8::A);
            self.mem.set(val, addr, MemClient::CPU);
        }
    }

    /// Wrapping increment or decrement of the byte pointed to by HL.
    fn hl_ptr_inc_dec(&mut self, is_add: bool)
        requires
            old(self).wf(),
        ensures
            final(self).wf(),
            final(self)@ == spec_hl_ptr_inc_dec(old(self)@, is_add),
    {
        let addr = self.regs.get(Reg16::HL);
        let val = self.mem.get(addr, MemClient::CPU);
        let val = if is_add {
            val.wrapping_add(1)
        } else {
            val.wrapping_sub(1)
        };
        self.mem.set(val, addr, MemClient::CPU);
    }

    /// Jump relative to the current program counter, where the offset byte
    /// is a two's-complement 8-bit signed displacement.  A target outside
    /// the address space faults the interpreter instead of wrapping.
    pub fn jump_relative(&mut self, offset: u8)
        requires
            old(self).wf(),
        ensures
            final(self).wf(),
            final(self)@ == spec_jump_relative(old(self)@, offset),
    {
        let pc = self.regs.get(Reg16::PC);
        let delta: i32 = if offset < 0x80 {
            offset as i32
        } else {
            offset as i32 - 0x100
        };
        let addr: i32 = pc as i32 + delta;
        if addr < 0 || addr > 0xFFFF {
            self.state = CpuState::Faulted;
            return ;
        }
        self.regs.set(Reg16::PC, addr as u16);
    }

    /// Route one operation through the ALU with the given operand.
    pub fn alu(&mut self, op: AluOp, val: u8)
        ensures
            final(self).wf() == old(self).wf(),
            final(self)@ == (CpuModel { regs: spec_alu(old(self)@.regs, op, val), ..old(self)@ }),
    {
        alu_apply(&mut self.regs, op, val);
    }

    /// Enter the halted state.
    fn halt(&mut self)
        ensures
            final(self).wf() == old(self).wf(),
            final(self)@ == (CpuModel { state: CpuState::Halted, ..old(self)@ }),
    {
        self.state = CpuState::Halted;
    }

    /// Enter the halted state by the distinct stop instruction.
    fn stop(&mut self)
        ensures
            final(self).wf() == old(self).wf(),
            final(self)@ == (CpuModel { state: CpuState::Halted, ..old(self)@ }),
    {
        self.state = CpuState::Halted;
    }

    /// Apply one decoded load- or store-class operation.
    fn execute_load(&mut self, op: Op, op8: u8, op16: u16)
        requires
            old(self).wf(),
            op is Nop || op is Ld16Imm || op is Ld8Imm || op is CopyReg || op is LoadPtr
                || op is StorePtr || op is LddSpecial || op is StoreImmHl || op is FastPage
                || op is StoreHighImm || op is LoadHighImm || op is StoreAImm16
                || op is LoadAImm16,
        ensures
            final(self).wf(),
            final(self)@ == apply_op(old(self)@, op, op8, op16),
    {
        proof {
            reveal(apply_op);
        }
        match op {
            Op::Ld16Imm(rr) => self.regs.set(rr, op16),
            Op::Ld8Imm(r) => self.regs.set(r, op8),
            Op::CopyReg(d, s) => self.regs.copy(d, s),
            Op::LoadPtr(d, p) => self.get_reg_ptr(d, p),
            Op::StorePtr(p, s) => self.set_reg_ptr(p, s),
            Op::LddSpecial(g, a) => self.ldd_special(g, a),
            Op::StoreImmHl => {
                let hl = self.regs.get(Reg16::HL);
                self.mem.set(op8, hl, MemClient::CPU);
            },
            Op::StoreHighImm => {
                let a = self.regs.get(Reg8::A);
                self.mem.set(a, 0xFF00 + op8 as u16, MemClient::CPU);
            },
            Op::LoadHighImm => {
                let val = self.mem.get(0xFF00 + op8 as u16, MemClient::CPU);
                self.regs.set(Reg8::A, val);
            },
            Op::FastPage(g) => self.ld_fast_page(g),
            Op::StoreAImm16 => {
                let a = self.regs.get(Reg8::A);
                self.mem.set(a, op16, MemClient::CPU);
            },
            Op::LoadAImm16 => {
                let val = self.mem.get(op16, MemClient::CPU);
                self.regs.set(Reg8::A, val);
            },
            _ => (),
        }
    }

    /// Apply one decoded arithmetic-class operation.
    fn execute_arith(&mut self, op: Op, op8: u8)
        requires
            old(self).wf(),
            op is Inc16 || op is Dec16 || op is Inc8 || op is Dec8 || op is HlPtrIncDec
                || op is Alu,
        ensures
            final(self).wf(),
            final(self)@ == apply_op(old(self)@, op, op8, 0u16),
    {
        proof {
            reveal(apply_op);
        }
        match op {
            Op::Inc16(rr) => self.regs.add(rr, 1),
            Op::Dec16(rr) => self.regs.sub(rr, 1),
            Op::Inc8(r) => self.regs.add(r, 1),
            Op::Dec8(r) => self.regs.sub(r, 1),
            Op::HlPtrIncDec(a) => self.hl_ptr_inc_dec(a),
            Op::Alu(aop, src) => {
                let v = match src {
                    AluSrc::Reg(r) => self.regs.get(r),
                    AluSrc::HlPtr => {
                        let hl = self.regs.get(Reg16::HL);
                        self.mem.get(hl, MemClient::CPU)
                    },
                    AluSrc::Imm => op8,
                };
                self.alu(aop, v);
            },
            _ => (),
        }
    }

    /// Apply one decoded control-flow or latch operation.
    fn execute_flow(&mut self, op: Op, op8: u8, op16: u16)
        requires
            old(self).wf(),
            op is JumpRel || op is JumpAbs || op is CallImm || op is Rst || op is Ret
                || op is Push || op is Pop || op is SetInterrupt || op is Halt || op is Stop,
        ensures
            final(self).wf(),
            final(self)@ == apply_op(old(self)@, op, op8, op16),
    {
        proof {
            reveal(apply_op);
        }
        match op {
            Op::JumpRel => self.jump_relative(op8),
            Op::JumpAbs => self.regs.set(Reg16::PC, op16),
            Op::CallImm => self.call(op16),
            Op::Rst(t) => self.call(t),
            Op::Ret(e) => self.ret(e),
            Op::Push(rr) => self.push(rr),
            Op::Pop(rr) => self.pop(rr),
            Op::SetInterrupt(b) => {
                self.ir_enabled = b;
            },
            Op::Halt => self.halt(),
            Op::Stop => self.stop(),
            _ => (),
        }
    }

    /// Apply one decoded operation to the already-advanced state.
    fn execute(&mut self, op: Op, op8: u8, op16: u16)
        requires
            old(self).wf(),
        ensures
            final(self).wf(),
            final(self)@ == apply_op(old(self)@, op, op8, op16),
    {
        match op {
            Op::Nop | Op::Ld16Imm(_) | Op::Ld8Imm(_) | Op::CopyReg(_, _) | Op::LoadPtr(_, _)
            | Op::StorePtr(_, _) | Op::LddSpecial(_, _) | Op::StoreImmHl | Op::FastPage(_)
            | Op::StoreHighImm | Op::LoadHighImm | Op::StoreAImm16 | Op::LoadAImm16 => {
                self.execute_load(op, op8, op16);
            },
            Op::Inc16(_) | Op::Dec16(_) | Op::Inc8(_) | Op::Dec8(_) | Op::HlPtrIncDec(_)
            | Op::Alu(_, _) => {
                self.execute_arith(op, op8);
                proof {
                    reveal(apply_op);
                    assert(apply_op(old(self)@, op, op8, 0u16) == apply_op(
                        old(self)@,
                        op,
                        op8,
                        op16,
                    ));
                }
            },
            Op::JumpRel | Op::JumpAbs | Op::CallImm | Op::Rst(_) | Op::Ret(_) | Op::Push(_)
            | Op::Pop(_) | Op::SetInterrupt(_) | Op::Halt | Op::Stop => {
                self.execute_flow(op, op8, op16);
            },
        }
    }

    /// Run the instruction at the current program counter: exactly one
    /// `step` of the abstract machine.  Returns whether the interpreter may
    /// continue, i.e. it is still `Running` afterwards.
    #[verifier::rlimit(100)]
    pub fn process(&mut self) -> (r: bool)
        requires
            old(self).wf(),
        ensures
            final(self).wf(),
            final(self)@ == step(old(self)@),
            r == step_continues(old(self)@),
    {
        match self.state {
            CpuState::Running => (),
            _ => {
                return false;
            },
        }
        let old_pc = self.regs.get(Reg16::PC);
        let opcode = self.mem.get(old_pc, MemClient::CPU);
        if opcode == 0xCB {
            self.state = CpuState::Faulted;
            return false;
        }
        let operand8 = self.mem.get(old_pc.wrapping_add(1), MemClient::CPU);
        let operand16 = self.parse_u16(old_pc.wrapping_add(1));
        let decoded = decode(opcode);
        let bytes_opt: Option<u8> = match self.table.get(&opcode) {
            Some(inst) => Some(inst.bytes),
            None => None,
        };
        match (decoded, bytes_opt) {
            (Some(op), Some(bytes)) => {
                self.regs.set(Reg16::PC, old_pc.wrapping_add(bytes as u16));
                self.execute(op, operand8, operand16);
                self.state == CpuState::Running
            },
            _ => {
                self.state = CpuState::Faulted;
                false
            },
        }
    }
}

/// A terminal interpreter never moves: stepping a halted or faulted machine
/// changes nothing and reports failure.
pub proof fn lemma_terminal_step_stalls(m: CpuModel)
    requires
        !(m.state is Running),
    ensures
        step(m) == m,
        !step_continues(m),
{
}

/// An undefined opcode — the escape byte, one with no operation variant, or
/// one missing from the descriptor table — faults the interpreter and
/// touches nothing else: registers, memory, the table and the interrupt
/// latch all stay as they were.
pub proof fn lemma_undefined_opcode_faults(m: CpuModel)
    requires
        m.state is Running,
        ({
            let opcode = m.mem[m.regs.spec_get16(Reg16::PC) as int];
            opcode == 0xCB || spec_decode(opcode) is None || !m.table.contains_key(opcode)
        }),
    ensures
        step(m) == (CpuModel { state: CpuState::Faulted, ..m }),
        !step_continues(m),
{
}

/// Pushing a register pair and popping it back delivers the pushed value
/// and restores the stack pointer, whatever the starting state: after the
/// push the stack pointer has moved down by two (wrapping), and after the
/// pop it is back and `dst` holds the value `src` had.
pub proof fn lemma_push_pop_round_trip(m: CpuModel, src: Reg16, dst: Reg16)
    requires
        m.mem.len() == 0x10000,
        !(src is SP),
        !(dst is SP),
    ensures
        ({
            let m1 = spec_push(m, src);
            let m2 = spec_pop(m1, dst);
            &&& m1.regs.spec_get16(Reg16::SP) == (m.regs.spec_get16(Reg16::SP) + 0x10000 - 2)
                % 0x10000
            &&& m2.regs.spec_get16(dst) == m.regs.spec_get16(src)
            &&& m2.regs.spec_get16(Reg16::SP) == m.regs.spec_get16(Reg16::SP)
        }),
{
    let v = m.regs.spec_get16(src);
    crate::util::lemma_word_bytes(v);
}

/// Calling pushes the post-advance return address and jumps to the target;
/// the following return restores both the program counter and the stack
/// pointer to their pre-call values.
pub proof fn lemma_call_ret_round_trip(m: CpuModel, target: u16)
    requires
        m.mem.len() == 0x10000,
    ensures
        ({
            let m1 = spec_call(m, target);
            let m2 = spec_ret(m1, false);
            &&& m1.regs.spec_get16(Reg16::PC) == target
            &&& m1.regs.spec_get16(Reg16::SP) == (m.regs.spec_get16(Reg16::SP) + 0x10000 - 2)
                % 0x10000
            &&& m2.regs.spec_get16(Reg16::PC) == m.regs.spec_get16(Reg16::PC)
            &&& m2.regs.spec_get16(Reg16::SP) == m.regs.spec_get16(Reg16::SP)
        }),
{
    let v = m.regs.spec_get16(Reg16::PC);
    crate::util::lemma_word_bytes(v);
}

} // verus!
