//! The memory bus: one flat mapping from 16-bit address to byte, covering
//! ROM, video RAM, object attribute memory, I/O registers, work RAM and the
//! stack region.  Reads and writes carry a client tag so that bus masters
//! can be told apart if access control is ever enforced.

use vstd::prelude::*;

verus! {

/// Which component is issuing a bus access.
#[derive(Clone, Copy, Debug, PartialEq, Eq, Structural)]
pub enum MemClient {
    CPU,
    PPU,
}

/// The number of addressable bytes.
pub const MEM_SIZE: usize = 0x10000;

/// The memory image.  Its abstract value is a sequence of exactly
/// `MEM_SIZE` bytes, one per address.
pub struct Memory {
    bytes: Vec<u8>,
}

impl Memory {
    /// The byte at each address.
    pub closed spec fn view(&self) -> Seq<u8> {
        self.bytes@
    }

    /// Well-formedness: the store covers the whole address space.
    pub open spec fn wf(&self) -> bool {
        self.view().len() == MEM_SIZE
    }

    /// Build the memory image from a program image: the image fills the low
    /// addresses, every other address reads as zero.  Image bytes beyond the
    /// end of the address space are ignored.
    pub fn new(image: Vec<u8>) -> (m: Memory)
        ensures
            m.wf(),
            forall|i: int|
                0 <= i < MEM_SIZE ==> m@[i] == (if i < image@.len() {
                    image@[i]
                } else {
                    0u8
                }),
    {
        let mut bytes: Vec<u8> = Vec::new();
        let mut i: usize = 0;
        while i < MEM_SIZE
            invariant
                i <= MEM_SIZE,
                bytes@.len() == i,
                forall|j: int|
                    0 <= j < i ==> bytes@[j] == (if j < image@.len() {
                        image@[j]
                    } else {
                        0u8
                    }),
            decreases MEM_SIZE - i,
        {
            if i < image.len() {
                bytes.push(image[i]);
            } else {
                bytes.push(0);
            }
            i += 1;
        }
        Memory { bytes }
    }

    /// Read the byte at `addr`.
    pub fn get(&self, addr: u16, _client: MemClient) -> (r: u8)
        requires
            self.wf(),
        ensures
            r == self@[addr as int],
    {
        self.bytes[addr as usize]
    }

    /// Write `val` at `addr`.
    pub fn set(&mut self, val: u8, addr: u16, _client: MemClient)
        requires
            old(self).wf(),
        ensures
            final(self).wf(),
            final(self)@ == old(self)@.update(addr as int, val),
    {
        self.bytes[addr as usize] = val;
    }
}

} // verus!
