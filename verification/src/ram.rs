//! Flat 2KB work memory with unmirrored read/write access.

use vstd::prelude::*;

verus! {

/// The console's 2KB of work RAM, addressed directly by an offset that the
/// bus has already reduced modulo the RAM size.
pub struct RAM {
    content: Vec<u8>,
}

impl RAM {
    /// The memory cells as a mathematical sequence of bytes.
    pub closed spec fn view(&self) -> Seq<u8> {
        self.content@
    }

    /// A well-formed RAM holds exactly 2048 bytes.
    pub open spec fn wf(&self) -> bool {
        self@.len() == 2048
    }

    pub fn new() -> (r: RAM)
        ensures
            r.wf(),
            forall|i: int| 0 <= i < 2048 ==> r@[i] == 0u8,
    {
        let mut content: Vec<u8> = Vec::new();
        let mut i: usize = 0;
        while i < 2048
            invariant
                i <= 2048,
                content@.len() == i,
                forall|j: int| 0 <= j < i ==> content@[j] == 0u8,
            decreases 2048 - i,
        {
            content.push(0u8);
            i = i + 1;
        }
        RAM { content }
    }

    pub fn read(&self, address: u16) -> (r: u8)
        requires
            self.wf(),
            address < 2048,
        ensures
            r == self@[address as int],
    {
        self.content[address as usize]
    }

    pub fn write(&mut self, address: u16, value: u8)
        requires
            old(self).wf(),
            address < 2048,
        ensures
            final(self).wf(),
            final(self)@ == old(self)@.update(address as int, value),
    {
        self.content[address as usize] = value;
    }
}

} // verus!
