//! The processor's register file: seven 8-bit registers, the flag register,
//! and the 16-bit stack pointer and program counter.  B/C, D/E, H/L and
//! A/Flags are addressable both as 8-bit halves and as 16-bit pairs; the
//! value of a pair is always exactly `(high << 8) | low` of its halves.

use vstd::prelude::*;

use crate::util::hi_byte;
use crate::util::lo_byte;
use crate::util::word_of;

verus! {

/// One of the seven general-purpose 8-bit registers.
#[derive(Clone, Copy, Debug, PartialEq, Eq, Structural)]
pub enum Reg8 {
    A,
    B,
    C,
    D,
    E,
    H,
    L,
}

/// One of the 16-bit register pairs, or the stack pointer / program counter.
#[derive(Clone, Copy, Debug, PartialEq, Eq, Structural)]
pub enum Reg16 {
    AF,
    BC,
    DE,
    HL,
    SP,
    PC,
}

/// A bit of the flag register: Zero, Subtract, Half-Carry, Carry.
#[derive(Clone, Copy, Debug, PartialEq, Eq, Structural)]
pub enum Flag {
    Z,
    N,
    H,
    CY,
}

/// Whether the given flag bit is set in a flag-register byte.
/// Z, N, H and CY occupy bits 7, 6, 5 and 4 respectively.
pub open spec fn flag_set_in(f: u8, fl: Flag) -> bool {
    match fl {
        Flag::Z => f & 0x80 != 0,
        Flag::N => f & 0x40 != 0,
        Flag::H => f & 0x20 != 0,
        Flag::CY => f & 0x10 != 0,
    }
}

/// The flag-register byte with the given flag values and a zero low nibble.
pub open spec fn flags_byte(z: bool, n: bool, h: bool, cy: bool) -> u8 {
    ((if z {
        0x80int
    } else {
        0int
    }) + (if n {
        0x40int
    } else {
        0int
    }) + (if h {
        0x20int
    } else {
        0int
    }) + (if cy {
        0x10int
    } else {
        0int
    })) as u8
}

/// Reading a flag out of a freshly built flag byte gives the value it was
/// built with, and the low nibble of such a byte is zero.
pub proof fn lemma_flags_byte(z: bool, n: bool, h: bool, cy: bool)
    ensures
        flag_set_in(flags_byte(z, n, h, cy), Flag::Z) == z,
        flag_set_in(flags_byte(z, n, h, cy), Flag::N) == n,
        flag_set_in(flags_byte(z, n, h, cy), Flag::H) == h,
        flag_set_in(flags_byte(z, n, h, cy), Flag::CY) == cy,
        flags_byte(z, n, h, cy) & 0x0F == 0,
{
    let zb: u8 = if z { 0x80 } else { 0 };
    let nb: u8 = if n { 0x40 } else { 0 };
    let hb: u8 = if h { 0x20 } else { 0 };
    let cb: u8 = if cy { 0x10 } else { 0 };
    assert((zb == 0x80 || zb == 0) && (nb == 0x40 || nb == 0) && (hb == 0x20 || hb == 0) && (cb
        == 0x10 || cb == 0) ==> {
        &&& ((zb + nb + hb + cb) as u8) & 0x80 != 0 <==> zb == 0x80
        &&& ((zb + nb + hb + cb) as u8) & 0x40 != 0 <==> nb == 0x40
        &&& ((zb + nb + hb + cb) as u8) & 0x20 != 0 <==> hb == 0x20
        &&& ((zb + nb + hb + cb) as u8) & 0x10 != 0 <==> cb == 0x10
        &&& ((zb + nb + hb + cb) as u8) & 0x0F == 0
    }) by (bit_vector);
}

/// Two 8-bit registers that together form one 16-bit pair:
/// `a` is the high half, `b` the low half.
#[derive(Clone, Copy, Debug, PartialEq, Eq, Structural)]
pub struct DoubleRegister {
    pub a: u8,
    pub b: u8,
}

impl DoubleRegister {
    /// The combined 16-bit value of the pair.
    pub open spec fn spec_double(self) -> u16 {
        word_of(self.b, self.a)
    }

    pub fn get_first(&self) -> (r: u8)
        ensures
            r == self.a,
    {
        self.a
    }

    pub fn set_first(&mut self, val: u8)
        ensures
            *final(self) == (DoubleRegister { a: val, b: old(self).b }),
    {
        self.a = val;
    }

    pub fn get_second(&self) -> (r: u8)
        ensures
            r == self.b,
    {
        self.b
    }

    pub fn set_second(&mut self, val: u8)
        ensures
            *final(self) == (DoubleRegister { a: old(self).a, b: val }),
    {
        self.b = val;
    }

    pub fn get_double(&self) -> (r: u16)
        ensures
            r == self.spec_double(),
    {
        self.a as u16 * 0x100 + self.b as u16
    }

    /// Writing a pair sets the high byte into the first register and the
    /// low byte into the second, e.g. `BC <- 0xFF11` means `B = 0xFF, C = 0x11`.
    pub fn set_double(&mut self, val: u16)
        ensures
            *final(self) == (DoubleRegister { a: hi_byte(val), b: lo_byte(val) }),
    {
        self.a = (val / 0x100) as u8;
        self.b = (val % 0x100) as u8;
    }
}

/// Typed access to a register bank: `R` names a register, `T` is its width.
pub trait RegOps<R, T>: Sized {
    /// The current value of register `src`.
    spec fn spec_get(&self, src: R) -> T;

    /// The register file after writing `v` to `dst`.
    spec fn spec_set(&self, dst: R, v: T) -> Self;

    /// The register file after a wrapping add of `delta` to `dst`.
    spec fn spec_add(&self, dst: R, delta: T) -> Self;

    /// The register file after a wrapping subtract of `delta` from `dst`.
    spec fn spec_sub(&self, dst: R, delta: T) -> Self;

    fn get(&self, src: R) -> (r: T)
        ensures
            r == self.spec_get(src),
    ;

    fn set(&mut self, dst: R, src: T)
        ensures
            *final(self) == old(self).spec_set(dst, src),
    ;

    fn copy(&mut self, dst: R, src: R)
        ensures
            *final(self) == old(self).spec_set(dst, old(self).spec_get(src)),
    ;

    fn add(&mut self, dst: R, delta: T)
        ensures
            *final(self) == old(self).spec_add(dst, delta),
    ;

    fn sub(&mut self, dst: R, delta: T)
        ensures
            *final(self) == old(self).spec_sub(dst, delta),
    ;
}

/// The whole register file.
#[derive(Clone, Copy, Debug, PartialEq, Eq, Structural)]
pub struct RegisterCache {
    pub af: DoubleRegister,
    pub bc: DoubleRegister,
    pub de: DoubleRegister,
    pub hl: DoubleRegister,
    pub sp: u16,
    pub pc: u16,
}

impl RegisterCache {
    /// The reset state: every register zero.
    pub open spec fn initial() -> RegisterCache {
        RegisterCache {
            af: DoubleRegister { a: 0, b: 0 },
            bc: DoubleRegister { a: 0, b: 0 },
            de: DoubleRegister { a: 0, b: 0 },
            hl: DoubleRegister { a: 0, b: 0 },
            sp: 0,
            pc: 0,
        }
    }

    pub fn new() -> (r: RegisterCache)
        ensures
            r == RegisterCache::initial(),
    {
        RegisterCache {
            af: DoubleRegister { a: 0x0, b: 0x0 },
            bc: DoubleRegister { a: 0x0, b: 0x0 },
            de: DoubleRegister { a: 0x0, b: 0x0 },
            hl: DoubleRegister { a: 0x0, b: 0x0 },
            sp: 0x0,
            pc: 0x0,
        }
    }

    pub open spec fn spec_get8(self, r: Reg8) -> u8 {
        match r {
            Reg8::A => self.af.a,
            Reg8::B => self.bc.a,
            Reg8::C => self.bc.b,
            Reg8::D => self.de.a,
            Reg8::E => self.de.b,
            Reg8::H => self.hl.a,
            Reg8::L => self.hl.b,
        }
    }

    pub open spec fn spec_set8(self, r: Reg8, v: u8) -> RegisterCache {
        match r {
            Reg8::A => RegisterCache { af: DoubleRegister { a: v, b: self.af.b }, ..self },
            Reg8::B => RegisterCache { bc: DoubleRegister { a: v, b: self.bc.b }, ..self },
            Reg8::C => RegisterCache { bc: DoubleRegister { a: self.bc.a, b: v }, ..self },
            Reg8::D => RegisterCache { de: DoubleRegister { a: v, b: self.de.b }, ..self },
            Reg8::E => RegisterCache { de: DoubleRegister { a: self.de.a, b: v }, ..self },
            Reg8::H => RegisterCache { hl: DoubleRegister { a: v, b: self.hl.b }, ..self },
            Reg8::L => RegisterCache { hl: DoubleRegister { a: self.hl.a, b: v }, ..self },
        }
    }

    pub open spec fn spec_get16(self, r: Reg16) -> u16 {
        match r {
            Reg16::AF => self.af.spec_double(),
            Reg16::BC => self.bc.spec_double(),
            Reg16::DE => self.de.spec_double(),
            Reg16::HL => self.hl.spec_double(),
            Reg16::SP => self.sp,
            Reg16::PC => self.pc,
        }
    }

    pub open spec fn spec_set16(self, r: Reg16, v: u16) -> RegisterCache {
        match r {
            Reg16::AF => RegisterCache {
                af: DoubleRegister { a: hi_byte(v), b: lo_byte(v) },
                ..self
            },
            Reg16::BC => RegisterCache {
                bc: DoubleRegister { a: hi_byte(v), b: lo_byte(v) },
                ..self
            },
            Reg16::DE => RegisterCache {
                de: DoubleRegister { a: hi_byte(v), b: lo_byte(v) },
                ..self
            },
            Reg16::HL => RegisterCache {
                hl: DoubleRegister { a: hi_byte(v), b: lo_byte(v) },
                ..self
            },
            Reg16::SP => RegisterCache { sp: v, ..self },
            Reg16::PC => RegisterCache { pc: v, ..self },
        }
    }

    /// Whether the given flag is set in the flag register (the low half of AF).
    pub open spec fn spec_get_flag(self, fl: Flag) -> bool {
        flag_set_in(self.af.b, fl)
    }

    /// The register file after overwriting the whole flag register.
    pub open spec fn spec_set_flags(self, z: bool, n: bool, h: bool, cy: bool) -> RegisterCache {
        RegisterCache { af: DoubleRegister { a: self.af.a, b: flags_byte(z, n, h, cy) }, ..self }
    }

    pub fn get_flag(&self, fl: Flag) -> (r: bool)
        ensures
            r == self.spec_get_flag(fl),
    {
        match fl {
            Flag::Z => self.af.b & 0x80 != 0,
            Flag::N => self.af.b & 0x40 != 0,
            Flag::H => self.af.b & 0x20 != 0,
            Flag::CY => self.af.b & 0x10 != 0,
        }
    }

    /// Overwrite the whole flag register with the given flag values;
    /// the low nibble becomes zero.
    pub fn set_flags(&mut self, z: bool, n: bool, h: bool, cy: bool)
        ensures
            *final(self) == old(self).spec_set_flags(z, n, h, cy),
    {
        let f: u8 = (if z {
            0x80
        } else {
            0
        }) + (if n {
            0x40
        } else {
            0
        }) + (if h {
            0x20
        } else {
            0
        }) + (if cy {
            0x10
        } else {
            0
        });
        self.af.b = f;
    }
}

impl RegOps<Reg8, u8> for RegisterCache {
    open spec fn spec_get(&self, src: Reg8) -> u8 {
        self.spec_get8(src)
    }

    open spec fn spec_set(&self, dst: Reg8, v: u8) -> RegisterCache {
        self.spec_set8(dst, v)
    }

    open spec fn spec_add(&self, dst: Reg8, delta: u8) -> RegisterCache {
        self.spec_set8(dst, ((self.spec_get8(dst) + delta) % 0x100) as u8)
    }

    open spec fn spec_sub(&self, dst: Reg8, delta: u8) -> RegisterCache {
        self.spec_set8(dst, ((self.spec_get8(dst) + 0x100 - delta) % 0x100) as u8)
    }

    fn get(&self, src: Reg8) -> u8 {
        match src {
            Reg8::A => self.af.get_first(),
            Reg8::B => self.bc.get_first(),
            Reg8::C => self.bc.get_second(),
            Reg8::D => self.de.get_first(),
            Reg8::E => self.de.get_second(),
            Reg8::H => self.hl.get_first(),
            Reg8::L => self.hl.get_second(),
        }
    }

    fn set(&mut self, dst: Reg8, src: u8) {
        match dst {
            Reg8::A => self.af.set_first(src),
            Reg8::B => self.bc.set_first(src),
            Reg8::C => self.bc.set_second(src),
            Reg8::D => self.de.set_first(src),
            Reg8::E => self.de.set_second(src),
            Reg8::H => self.hl.set_first(src),
            Reg8::L => self.hl.set_second(src),
        }
    }

    fn copy(&mut self, dst: Reg8, src: Reg8) {
        let val = self.get(src);
        self.set(dst, val);
    }

    fn add(&mut self, dst: Reg8, delta: u8) {
        let val: u8 = self.get(dst);
        self.set(dst, val.wrapping_add(delta));
    }

    fn sub(&mut self, dst: Reg8, delta: u8) {
        let val: u8 = self.get(dst);
        self.set(dst, val.wrapping_sub(delta));
    }
}

impl RegOps<Reg16, u16> for RegisterCache {
    open spec fn spec_get(&self, src: Reg16) -> u16 {
        self.spec_get16(src)
    }

    open spec fn spec_set(&self, dst: Reg16, v: u16) -> RegisterCache {
        self.spec_set16(dst, v)
    }

    open spec fn spec_add(&self, dst: Reg16, delta: u16) -> RegisterCache {
        self.spec_set16(dst, ((self.spec_get16(dst) + delta) % 0x10000) as u16)
    }

    open spec fn spec_sub(&self, dst: Reg16, delta: u16) -> RegisterCache {
        self.spec_set16(dst, ((self.spec_get16(dst) + 0x10000 - delta) % 0x10000) as u16)
    }

    fn get(&self, src: Reg16) -> u16 {
        match src {
            Reg16::AF => self.af.get_double(),
            Reg16::BC => self.bc.get_double(),
            Reg16::DE => self.de.get_double(),
            Reg16::HL => self.hl.get_double(),
            Reg16::SP => self.sp,
            Reg16::PC => self.pc,
        }
    }

    fn set(&mut self, dst: Reg16, src: u16) {
        match dst {
            Reg16::AF => self.af.set_double(src),
            Reg16::BC => self.bc.set_double(src),
            Reg16::DE => self.de.set_double(src),
            Reg16::HL => self.hl.set_double(src),
            Reg16::SP => {
                self.sp = src;
            },
            Reg16::PC => {
                self.pc = src;
            },
        }
    }

    fn copy(&mut self, dst: Reg16, src: Reg16) {
        let val = self.get(src);
        self.set(dst, val);
    }

    fn add(&mut self, dst: Reg16, delta: u16) {
        let val: u16 = self.get(dst);
        self.set(dst, val.wrapping_add(delta));
    }

    fn sub(&mut self, dst: Reg16, delta: u16) {
        let val: u16 = self.get(dst);
        self.set(dst, val.wrapping_sub(delta));
    }
}

/// The high 8-bit half of a register pair, as an `Option` so that SP and PC,
/// which have no 8-bit halves, map to `None`.
pub open spec fn pair_high(regs: RegisterCache, p: Reg16) -> Option<u8> {
    match p {
        Reg16::AF => Some(regs.af.a),
        Reg16::BC => Some(regs.bc.a),
        Reg16::DE => Some(regs.de.a),
        Reg16::HL => Some(regs.hl.a),
        Reg16::SP => None,
        Reg16::PC => None,
    }
}

/// The low 8-bit half of a register pair, `None` for SP and PC.
pub open spec fn pair_low(regs: RegisterCache, p: Reg16) -> Option<u8> {
    match p {
        Reg16::AF => Some(regs.af.b),
        Reg16::BC => Some(regs.bc.b),
        Reg16::DE => Some(regs.de.b),
        Reg16::HL => Some(regs.hl.b),
        Reg16::SP => None,
        Reg16::PC => None,
    }
}

/// Writing a 16-bit value to any register pair puts the value's high byte in
/// the pair's first register and its low byte in the second, and reading the
/// pair back gives the value again.
pub proof fn lemma_pair_round_trip(regs: RegisterCache, p: Reg16, v: u16)
    requires
        !(p is SP),
        !(p is PC),
    ensures
        pair_high(regs.spec_set16(p, v), p) == Some(hi_byte(v)),
        pair_low(regs.spec_set16(p, v), p) == Some(lo_byte(v)),
        regs.spec_set16(p, v).spec_get16(p) == v,
{
    assert(word_of(lo_byte(v), hi_byte(v)) == v);
}

} // verus!
