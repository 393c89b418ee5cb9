//! A Game Boy-class processor and display-timing emulator core.
//!
//! The crate models the register file, the flat 16-bit memory bus, the
//! arithmetic/logic unit with its flag rules, the instruction interpreter,
//! and the per-dot video timing state machine.  Everything here is pure
//! computation; loading program images, the opcode metadata file and the
//! platform window live outside the library.

pub mod alu;
pub mod cpu;
pub mod lookup;
pub mod memory;
pub mod ppu;
pub mod registers;
pub mod util;
