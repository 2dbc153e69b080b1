//! A flat 64KB memory with little-endian 16-bit access, for driving the
//! processor without the full bus.

use vstd::prelude::*;

verus! {

/// A flat memory of 0xFFFF cells.
pub struct Memmory {
    pub array: Vec<u8>,
}

impl Memmory {
    pub open spec fn view(&self) -> Seq<u8> {
        self.array@
    }

    pub open spec fn wf(&self) -> bool {
        self@.len() == 0xFFFF
    }

    pub fn new() -> (r: Memmory)
        ensures
            r.wf(),
            forall|i: int| 0 <= i < 0xFFFF ==> r@[i] == 0u8,
    {
        let mut array: Vec<u8> = Vec::new();
        let mut i: usize = 0;
        while i < 0xFFFF
            invariant
                i <= 0xFFFF,
                array@.len() == i,
                forall|j: int| 0 <= j < i ==> array@[j] == 0u8,
            decreases 0xFFFF - i,
        {
            array.push(0u8);
            i = i + 1;
        }
        Memmory { array }
    }

    pub fn read(&self, address: u16) -> (r: u8)
        requires
            self.wf(),
            address < 0xFFFF,
        ensures
            r == self@[address as int],
    {
        self.array[address as usize]
    }

    pub fn write(&mut self, address: u16, data: u8)
        requires
            old(self).wf(),
            address < 0xFFFF,
        ensures
            final(self).wf(),
            final(self)@ == old(self)@.update(address as int, data),
    {
        self.array[address as usize] = data;
    }

    /// Two consecutive cells read as one little-endian 16-bit value.
    pub fn read_u16(&self, address: u16) -> (r: u16)
        requires
            self.wf(),
            address + 1 < 0xFFFF,
        ensures
            r == (self@[address as int] as u16) | ((self@[address + 1] as u16) << 8),
    {
        let low = self.read(address);
        let high = self.read(address + 1);

        (low as u16) | ((high as u16) << 8)
    }

    /// One 16-bit value written across two consecutive cells,
    /// little-endian.
    pub fn write_u16(&mut self, address: u16, data: u16)
        requires
            old(self).wf(),
            address + 1 < 0xFFFF,
        ensures
            final(self).wf(),
            final(self)@ == old(self)@.update(address as int, (data & 0xFF) as u8).update(
                address + 1,
                (data >> 8) as u8,
            ),
    {
        let low = (data & 0xFF) as u8;
        let high = (data >> 8) as u8;

        self.write(address, low);
        self.write(address + 1, high)
    }
}

} // verus!
