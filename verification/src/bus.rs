//! The memory bus: the single address space the processor sees, decoding
//! into work RAM, graphics-unit registers, the controller latch, and
//! cartridge ROM, and advancing the graphics unit in lockstep.

use vstd::prelude::*;

use crate::cartridges::ROM;
use crate::joypads::{joypad_read_step, joypad_read_value, joypad_write, Joypad};
use crate::ppu::{
    ppu_read_data, ppu_read_status, ppu_tick, ppu_write_control, ppu_write_data,
    ppu_write_oam_data, oam_dma_fold, MaskRegister, PpuView, PPU,
};
use crate::ram::RAM;

verus! {

/// A write the hardware model treats as fatal.
#[derive(Debug, Clone, Copy, PartialEq, Eq, Structural)]
pub enum BusFault {
    /// A write aimed at the read-only cartridge ROM range.
    RomWrite(u16),
    /// A write aimed at the graphics unit's read-only status register.
    StatusWrite(u16),
}

/// Mathematical image of the whole bus.
#[verifier::ext_equal]
pub struct BusView {
    pub cpu_vram: Seq<u8>,
    pub prg_rom: Seq<u8>,
    pub ppu: PpuView,
    pub cycles: usize,
    pub joypad1: Joypad,
}

impl BusView {
    pub open spec fn wf(self) -> bool {
        &&& self.cpu_vram.len() == 2048
        &&& self.ppu.wf()
    }
}

/// Byte visible at a cartridge-ROM address: a 16KB image repeats across
/// the 32KB window; addresses beyond the image read as zero.
pub open spec fn prg_byte(prg: Seq<u8>, address: u16) -> u8 {
    let off = address - 0x8000;
    let off2 = if prg.len() == 0x4000 && off >= 0x4000 {
        off % 0x4000
    } else {
        off
    };
    if 0 <= off2 < prg.len() {
        prg[off2]
    } else {
        0u8
    }
}

/// Addresses the processor may write: everything except the cartridge-ROM
/// range and the graphics unit's status register (with its mirrors).
pub open spec fn writable(address: u16) -> bool {
    &&& address < 0x8000
    &&& !(0x2000 <= address <= 0x3fff && address & 0x2007 == 0x2002)
}

/// Effect and value of one bus read. Reads of the graphics unit's status
/// and data registers carry their documented side effects; unmapped
/// addresses read as zero.
pub open spec fn bus_read(b: BusView, address: u16) -> (BusView, u8) {
    if address <= 0x1fff {
        (b, b.cpu_vram[(address & 0x7ff) as int])
    } else if address <= 0x3fff {
        let reg = address & 0x2007;
        if reg == 0x2002 {
            let stepped = ppu_read_status(b.ppu);
            (BusView { ppu: stepped.0, ..b }, stepped.1)
        } else if reg == 0x2004 {
            (b, b.ppu.oam_data[b.ppu.oam_address as int])
        } else if reg == 0x2007 {
            let stepped = ppu_read_data(b.ppu);
            (BusView { ppu: stepped.0, ..b }, stepped.1)
        } else {
            // the write-only registers read as zero
            (b, 0u8)
        }
    } else if address == 0x4016 {
        (BusView { joypad1: joypad_read_step(b.joypad1), ..b }, joypad_read_value(b.joypad1))
    } else if address >= 0x8000 {
        (b, prg_byte(b.prg_rom, address))
    } else {
        (b, 0u8)
    }
}

/// The bus state and the bytes gathered after the first `count` reads of a
/// bulk sprite-memory transfer sourced at `base`.
pub open spec fn dma_gather(b: BusView, base: u16, count: int) -> (BusView, Seq<u8>)
    decreases count,
{
    if count <= 0 {
        (b, Seq::empty())
    } else {
        let prefix = dma_gather(b, base, count - 1);
        let stepped = bus_read(prefix.0, (base + count - 1) as u16);
        (stepped.0, prefix.1.push(stepped.1))
    }
}

/// Effect of one bus write on a writable address. A write to the transfer
/// register performs the 256-byte sprite-memory transfer through ordinary
/// bus reads; unmapped addresses ignore the write.
pub open spec fn bus_write(b: BusView, address: u16, value: u8) -> BusView {
    if address <= 0x1fff {
        BusView { cpu_vram: b.cpu_vram.update((address & 0x7ff) as int, value), ..b }
    } else if address <= 0x3fff {
        let reg = address & 0x2007;
        if reg == 0x2000 {
            BusView { ppu: ppu_write_control(b.ppu, value), ..b }
        } else if reg == 0x2001 {
            BusView { ppu: PpuView { mask: MaskRegister { bits: value }, ..b.ppu }, ..b }
        } else if reg == 0x2003 {
            BusView { ppu: PpuView { oam_address: value, ..b.ppu }, ..b }
        } else if reg == 0x2004 {
            BusView { ppu: ppu_write_oam_data(b.ppu, value), ..b }
        } else if reg == 0x2005 {
            BusView { ppu: PpuView { scroll: b.ppu.scroll.spec_write(value), ..b.ppu }, ..b }
        } else if reg == 0x2006 {
            BusView { ppu: PpuView { address: b.ppu.address.spec_update(value), ..b.ppu }, ..b }
        } else if reg == 0x2007 {
            BusView { ppu: ppu_write_data(b.ppu, value), ..b }
        } else {
            b
        }
    } else if address == 0x4014 {
        let base = (value as u16) << 8;
        let gathered = dma_gather(b, base, 256);
        BusView {
            ppu: PpuView {
                oam_data: oam_dma_fold(
                    gathered.0.ppu.oam_data,
                    gathered.0.ppu.oam_address,
                    gathered.1,
                    256,
                ),
                ..gathered.0.ppu
            },
            ..gathered.0
        }
    } else if address == 0x4016 {
        BusView { joypad1: joypad_write(b.joypad1, value), ..b }
    } else {
        b
    }
}

/// Effect of two consecutive reads forming a little-endian 16-bit value.
pub open spec fn bus_read16(b: BusView, address: u16) -> (BusView, u16) {
    let first = bus_read(b, address);
    let second = bus_read(first.0, address.wrapping_add(1));
    (second.0, ((second.1 as u16) << 8) | (first.1 as u16))
}

/// Effect of reporting processor cycles: the graphics unit advances three
/// dots per cycle; the result reports a completed frame.
pub open spec fn bus_tick(b: BusView, cycles: u8) -> (BusView, bool) {
    let stepped = ppu_tick(b.ppu, (3 * cycles) as u16);
    (BusView { ppu: stepped.0, cycles: b.cycles.wrapping_add(cycles as usize), ..b }, stepped.1)
}

/// The memory bus.
pub struct BUS {
    pub cpu_vram: RAM,
    pub prg_rom: Vec<u8>,
    pub ppu: PPU,
    pub cycles: usize,
    pub joypad1: Joypad,
}

impl View for BUS {
    type V = BusView;

    open spec fn view(&self) -> BusView {
        BusView {
            cpu_vram: self.cpu_vram@,
            prg_rom: self.prg_rom@,
            ppu: self.ppu@,
            cycles: self.cycles,
            joypad1: self.joypad1,
        }
    }
}

impl BUS {
    pub open spec fn wf(self) -> bool {
        self@.wf()
    }

    /// A bus over a parsed cartridge, with cleared RAM and a fresh
    /// graphics unit.
    pub fn new(rom: ROM) -> (r: BUS)
        ensures
            r.wf(),
            r@.prg_rom == rom.prg_rom@,
            r@.ppu.chr_rom == rom.chr_rom@,
            r@.ppu.mirroring == rom.screen_mirroring,
            r@.cycles == 0,
            r@.ppu.scanline == 0,
            r@.ppu.cycles == 0,
            r@.ppu.nmi_interrupt is None,
            forall|i: int| 0 <= i < 2048 ==> r@.cpu_vram[i] == 0u8,
            r@.joypad1 == (Joypad { strobe_mode: false, button_index: 0, button_status: 0 }),
    {
        let ppu = PPU::new(rom.chr_rom, rom.screen_mirroring);
        BUS {
            cpu_vram: RAM::new(),
            prg_rom: rom.prg_rom,
            ppu,
            cycles: 0,
            joypad1: Joypad::new(),
        }
    }

    /// One read of the unified address space.
    pub fn memory_read(&mut self, address: u16) -> (r: u8)
        requires
            old(self).wf(),
        ensures
            final(self).wf(),
            (final(self)@, r) == bus_read(old(self)@, address),
    {
        if address <= 0x1fff {
            proof {
                assert(address & 0x7ff < 2048) by (bit_vector);
            }
            let mirror_down_address = address & 0x7ff;
            self.cpu_vram.read(mirror_down_address)
        } else if address <= 0x3fff {
            let reg = address & 0x2007;
            if reg == 0x2002 {
                let r = self.ppu.read_status();
                proof {
                    assert(self@ =~= bus_read(old(self)@, address).0);
                }
                r
            } else if reg == 0x2004 {
                self.ppu.read_oam_data()
            } else if reg == 0x2007 {
                let r = self.ppu.read_data();
                proof {
                    assert(self@ =~= bus_read(old(self)@, address).0);
                }
                r
            } else {
                // write-only graphics registers read as zero
                0
            }
        } else if address == 0x4016 {
            let r = self.joypad1.read();
            proof {
                assert(self@ =~= bus_read(old(self)@, address).0);
            }
            r
        } else if address >= 0x8000 {
            self.read_prg_rom(address)
        } else {
            // the audio unit and expansion space are not modelled
            0
        }
    }

    /// One write to the unified address space; a write into the ROM range
    /// or at the graphics status register is refused as a fault.
    pub fn memory_write(&mut self, address: u16, data: u8) -> (r: Result<(), BusFault>)
        requires
            old(self).wf(),
        ensures
            final(self).wf(),
            r is Ok <==> writable(address),
            writable(address) ==> final(self)@ == bus_write(old(self)@, address, data),
            address >= 0x8000 ==> (*final(self) == *old(self) && r == Result::<(),
            BusFault>::Err(BusFault::RomWrite(address))),
            !writable(address) && address < 0x8000 ==> (*final(self) == *old(self) && r
                == Result::<(), BusFault>::Err(BusFault::StatusWrite(address))),
    {
        if address <= 0x1fff {
            proof {
                assert(address & 0x7ff < 2048) by (bit_vector);
            }
            let mirror_down_address = address & 0x7ff;
            self.cpu_vram.write(mirror_down_address, data);
            proof {
                assert(self@ =~= bus_write(old(self)@, address, data));
            }
            Ok(())
        } else if address <= 0x3fff {
            let reg = address & 0x2007;
            if reg == 0x2000 {
                self.ppu.write_to_control(data);
            } else if reg == 0x2001 {
                self.ppu.write_to_mask(data);
            } else if reg == 0x2002 {
                return Err(BusFault::StatusWrite(address));
            } else if reg == 0x2003 {
                self.ppu.write_to_oam_address(data);
            } else if reg == 0x2004 {
                self.ppu.write_to_oam_data(data);
            } else if reg == 0x2005 {
                self.ppu.write_to_scroll(data);
            } else if reg == 0x2006 {
                self.ppu.write_to_ppu_address(data);
            } else if reg == 0x2007 {
                self.ppu.write_to_data(data);
            }
            proof {
                assert(self@ =~= bus_write(old(self)@, address, data));
            }
            Ok(())
        } else if address >= 0x8000 {
            Err(BusFault::RomWrite(address))
        } else if address == 0x4014 {
            let base = (data as u16) << 8;
            let mut buffer: Vec<u8> = Vec::new();
            let mut i: usize = 0;
            proof {
                assert(base <= 0xff00) by (bit_vector)
                    requires base == (data as u16) << 8;
            }
            while i < 256
                invariant
                    i <= 256,
                    base <= 0xff00,
                    self.wf(),
                    buffer@.len() == i,
                    self@ == dma_gather(old(self)@, base, i as int).0,
                    buffer@ == dma_gather(old(self)@, base, i as int).1,
                decreases 256 - i,
            {
                let value = self.memory_read(base + (i as u16));
                buffer.push(value);
                i = i + 1;
            }
            self.ppu.write_oam_dma(&buffer);
            proof {
                assert(self@ =~= bus_write(old(self)@, address, data));
            }
            Ok(())
        } else if address == 0x4016 {
            self.joypad1.write(data);
            proof {
                assert(self@ =~= bus_write(old(self)@, address, data));
            }
            Ok(())
        } else {
            // the audio unit and expansion space ignore writes
            Ok(())
        }
    }

    /// Little-endian 16-bit read.
    pub fn memory_read_u16(&mut self, address: u16) -> (r: u16)
        requires
            old(self).wf(),
        ensures
            final(self).wf(),
            (final(self)@, r) == bus_read16(old(self)@, address),
    {
        let low = self.memory_read(address);
        let high = self.memory_read(address.wrapping_add(1));
        ((high as u16) << 8) | (low as u16)
    }

    /// Little-endian 16-bit write.
    pub fn memory_write_u16(&mut self, pos: u16, data: u16) -> (r: Result<(), BusFault>)
        requires
            old(self).wf(),
        ensures
            final(self).wf(),
            r is Ok <==> (writable(pos) && writable(pos.wrapping_add(1))),
            r is Ok ==> final(self)@ == bus_write(
                bus_write(old(self)@, pos, (data & 0xff) as u8),
                pos.wrapping_add(1),
                (data >> 8) as u8,
            ),
    {
        let high = (data >> 8) as u8;
        let low = (data & 0xff) as u8;

        self.memory_write(pos, low)?;
        self.memory_write(pos.wrapping_add(1), high)
    }

    fn read_prg_rom(&self, address: u16) -> (r: u8)
        requires
            address >= 0x8000,
        ensures
            r == prg_byte(self@.prg_rom, address),
    {
        let mut offset = address - 0x8000;
        if self.prg_rom.len() == 0x4000 && offset >= 0x4000 {
            // a 16KB image repeats across the 32KB window
            offset = offset % 0x4000;
        }
        if (offset as usize) < self.prg_rom.len() {
            self.prg_rom[offset as usize]
        } else {
            0
        }
    }

    /// Reports elapsed processor cycles; the graphics unit advances three
    /// dots per cycle. The result reports a completed frame.
    pub fn tick(&mut self, cycles: u8) -> (r: bool)
        requires
            old(self).wf(),
            cycles <= 85,
        ensures
            final(self).wf(),
            (final(self)@, r) == bus_tick(old(self)@, cycles),
    {
        self.cycles = self.cycles.wrapping_add(cycles as usize);
        let frame = self.ppu.tick(cycles * 3);
        proof {
            assert(self@ =~= bus_tick(old(self)@, cycles).0);
        }
        frame
    }

    /// Hands out the graphics unit's pending interrupt request, if any,
    /// consuming it.
    pub fn poll_nmi_status(&mut self) -> (r: Option<u8>)
        ensures
            r == old(self)@.ppu.nmi_interrupt,
            final(self)@ == (BusView {
                ppu: PpuView { nmi_interrupt: None, ..old(self)@.ppu },
                ..old(self)@
            }),
            final(self).wf() == old(self).wf(),
    {
        let r = self.ppu.poll_nmi_interrupt();
        proof {
            assert(self@ =~= (BusView {
                ppu: PpuView { nmi_interrupt: None, ..old(self)@.ppu },
                ..old(self)@
            }));
        }
        r
    }
}

} // verus!

verus! {

/// A bus read never changes the session cycle counter.
pub broadcast proof fn lemma_bus_read_keeps_cycles(b: BusView, address: u16)
    ensures
        (#[trigger] bus_read(b, address)).0.cycles == b.cycles,
{
}

/// Gathering transfer bytes never changes the session cycle counter.
pub broadcast proof fn lemma_dma_gather_keeps_cycles(b: BusView, base: u16, count: int)
    ensures
        (#[trigger] dma_gather(b, base, count)).0.cycles == b.cycles,
    decreases count,
{
    if count > 0 {
        lemma_dma_gather_keeps_cycles(b, base, count - 1);
        lemma_bus_read_keeps_cycles(dma_gather(b, base, count - 1).0, (base + count - 1) as u16);
    }
}

/// A bus write never changes the session cycle counter.
pub broadcast proof fn lemma_bus_write_keeps_cycles(b: BusView, address: u16, value: u8)
    ensures
        (#[trigger] bus_write(b, address, value)).cycles == b.cycles,
{
    if !(address <= 0x3fff) && address == 0x4014 {
        let base = (value as u16) << 8;
        lemma_dma_gather_keeps_cycles(b, base, 256);
    }
}

/// A 16-bit bus read never changes the session cycle counter.
pub broadcast proof fn lemma_bus_read16_keeps_cycles(b: BusView, address: u16)
    ensures
        (#[trigger] bus_read16(b, address)).0.cycles == b.cycles,
{
    lemma_bus_read_keeps_cycles(b, address);
    lemma_bus_read_keeps_cycles(bus_read(b, address).0, address.wrapping_add(1));
}

} // verus!
