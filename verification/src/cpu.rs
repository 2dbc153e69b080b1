//! The processor: registers, flags, stack, operand addressing, and one
//! handler per instruction, each with an exact contract over the bus model.

use vstd::prelude::*;

use crate::bus::{
    bus_read, bus_read16, bus_tick, bus_write, writable, BusFault, BusView, BUS,
};
use crate::ppu::set_bit;

verus! {

/// Flag bit: carry.
pub const CARRY: u8 = 0b0000_0001;
/// Flag bit: zero.
pub const ZERO: u8 = 0b0000_0010;
/// Flag bit: interrupt disable.
pub const INTERRUPT_DISABLE: u8 = 0b0000_0100;
/// Flag bit: decimal mode (present but unused by this console).
pub const DECIMAL_MODE: u8 = 0b0000_1000;
/// Flag bit: break command.
pub const BREAK: u8 = 0b0001_0000;
/// Flag bit: always pushed as set; has no meaning of its own.
pub const UNUSED: u8 = 0b0010_0000;
/// Flag bit: signed overflow.
pub const OVERFLOW: u8 = 0b0100_0000;
/// Flag bit: negative (bit 7 of the last result).
pub const NEGATIVE: u8 = 0b1000_0000;

/// Base address of the fixed stack page.
pub const STACK: u16 = 0x0100;
/// Stack pointer value after a reset.
pub const STACK_RESET: u8 = 0xfd;

/// The packed processor status byte.
#[derive(Debug, Clone, Copy, PartialEq, Eq, Structural)]
pub struct CpuFlags {
    pub bits: u8,
}

impl CpuFlags {
    pub open spec fn has(self, mask: u8) -> bool {
        self.bits & mask != 0
    }

    pub fn from_bits_truncate(bits: u8) -> (r: CpuFlags)
        ensures
            r.bits == bits,
    {
        CpuFlags { bits }
    }

    pub fn contains(&self, mask: u8) -> (r: bool)
        ensures
            r == self.has(mask),
    {
        self.bits & mask != 0
    }

    pub fn insert(&mut self, mask: u8)
        ensures
            final(self).bits == (old(self).bits | mask),
    {
        self.bits = self.bits | mask;
    }

    pub fn remove(&mut self, mask: u8)
        ensures
            final(self).bits == (old(self).bits & !mask),
    {
        self.bits = self.bits & !mask;
    }

    pub fn set(&mut self, mask: u8, on: bool)
        ensures
            final(self).bits == set_bit(old(self).bits, mask, on),
    {
        if on {
            self.bits = self.bits | mask;
        } else {
            self.bits = self.bits & !mask;
        }
    }
}

/// The operand-address algorithms an instruction can use.
#[derive(Debug, Clone, Copy, PartialEq, Eq, Structural)]
pub enum AddressingMode {
    Immediate,
    ZeroPage,
    ZeroPageX,
    ZeroPageY,
    Absolute,
    AbsoluteX,
    AbsoluteY,
    IndirectX,
    IndirectY,
    NoneAddressing,
}

/// Whether two addresses fall on different 256-byte pages.
pub open spec fn page_cross(address1: u16, address2: u16) -> bool {
    address1 & 0xFF00 != address2 & 0xFF00
}

/// A status byte with zero and negative recomputed from a result value.
pub open spec fn zn_update(p: u8, result: u8) -> u8 {
    set_bit(set_bit(p, ZERO, result == 0), NEGATIVE, result & 0x80 != 0)
}

/// A status byte with only negative recomputed from a result value.
pub open spec fn n_update(p: u8, result: u8) -> u8 {
    set_bit(p, NEGATIVE, result & 0x80 != 0)
}

/// Result and status of add-with-carry: the sum of the accumulator, the
/// operand, and the incoming carry; carry out when the sum exceeds 0xFF;
/// signed overflow by the documented sign-bit rule; zero and negative
/// from the truncated result.
pub open spec fn adc_spec(a: u8, value: u8, p: u8) -> (u8, u8) {
    let carry_in: int = if p & CARRY != 0 {
        1
    } else {
        0
    };
    let sum = a + value + carry_in;
    let result = sum as u8;
    let p1 = set_bit(p, CARRY, sum > 0xff);
    let p2 = set_bit(p1, OVERFLOW, (value ^ result) & (result ^ a) & 0x80 != 0);
    (result, zn_update(p2, result))
}

/// Subtraction reuses addition on the bitwise complement of the operand,
/// exactly as the hardware implements subtract-via-add.
pub open spec fn sbc_spec(a: u8, value: u8, p: u8) -> (u8, u8) {
    adc_spec(a, value ^ 0xff, p)
}

/// Status after a compare: carry exactly when the memory operand is not
/// above the register value, zero and negative from the wrapping
/// difference.
pub open spec fn compare_spec(p: u8, value: u8, compare_with: u8) -> u8 {
    zn_update(set_bit(p, CARRY, value <= compare_with), compare_with.wrapping_sub(value))
}

/// A branch displacement sign-extended to sixteen bits.
pub open spec fn sign_extend(b: u8) -> u16 {
    if b >= 0x80 {
        (b as u16) | 0xff00
    } else {
        b as u16
    }
}

/// State change and resolved operand address of every addressing mode that
/// reads its operand bytes at `address`, with the page-cross report.
/// Immediate and implied modes resolve nothing here.
pub open spec fn resolve_at(
    b: BusView,
    x: u8,
    y: u8,
    mode: AddressingMode,
    address: u16,
) -> (BusView, u16, bool) {
    match mode {
        AddressingMode::ZeroPage => {
            let step = bus_read(b, address);
            (step.0, step.1 as u16, false)
        },
        AddressingMode::Absolute => {
            let step = bus_read16(b, address);
            (step.0, step.1, false)
        },
        AddressingMode::ZeroPageX => {
            let step = bus_read(b, address);
            (step.0, step.1.wrapping_add(x) as u16, false)
        },
        AddressingMode::ZeroPageY => {
            let step = bus_read(b, address);
            (step.0, step.1.wrapping_add(y) as u16, false)
        },
        AddressingMode::AbsoluteX => {
            let step = bus_read16(b, address);
            let addr = step.1.wrapping_add(x as u16);
            (step.0, addr, page_cross(step.1, addr))
        },
        AddressingMode::AbsoluteY => {
            let step = bus_read16(b, address);
            let addr = step.1.wrapping_add(y as u16);
            (step.0, addr, page_cross(step.1, addr))
        },
        AddressingMode::IndirectX => {
            let step = bus_read(b, address);
            let ptr = step.1.wrapping_add(x);
            let lo = bus_read(step.0, ptr as u16);
            let hi = bus_read(lo.0, ptr.wrapping_add(1) as u16);
            (hi.0, ((hi.1 as u16) << 8) | (lo.1 as u16), false)
        },
        AddressingMode::IndirectY => {
            let step = bus_read(b, address);
            let lo = bus_read(step.0, step.1 as u16);
            let hi = bus_read(lo.0, step.1.wrapping_add(1) as u16);
            let deref_base = ((hi.1 as u16) << 8) | (lo.1 as u16);
            let deref = deref_base.wrapping_add(y as u16);
            (hi.0, deref, page_cross(deref, deref_base))
        },
        _ => (b, 0, false),
    }
}

/// State change and operand address as seen from the program counter:
/// immediate operands are addressed at the counter itself.
pub open spec fn resolve_op(
    b: BusView,
    x: u8,
    y: u8,
    pc: u16,
    mode: AddressingMode,
) -> (BusView, u16) {
    if mode is Immediate {
        (b, pc)
    } else {
        let step = resolve_at(b, x, y, mode, pc);
        (step.0, step.1)
    }
}

/// The fault a refused write to `address` reports.
pub open spec fn write_fault(address: u16) -> BusFault {
    if address >= 0x8000 {
        BusFault::RomWrite(address)
    } else {
        BusFault::StatusWrite(address)
    }
}

/// Kinds of interrupt the processor services.
#[derive(Debug, Clone, Copy, PartialEq, Eq, Structural)]
pub enum InterruptType {
    NMI,
}

/// Descriptor of one interrupt source: its vector location, the status
/// byte mask it pushes, and the cycles it costs to service.
pub struct Interrupt {
    pub interrupt_type: InterruptType,
    pub vector_address: u16,
    pub binary_flag_mask: u8,
    pub cpu_cycles: u8,
}

impl Interrupt {
    /// The graphics unit's non-maskable interrupt: vectored through
    /// 0xFFFA, pushing the status with the unused bit set, in two cycles.
    pub fn nmi() -> (r: Interrupt)
        ensures
            r.interrupt_type == InterruptType::NMI,
            r.vector_address == 0xFFFA,
            r.binary_flag_mask == 0b0010_0000,
            r.cpu_cycles == 2,
    {
        Interrupt {
            interrupt_type: InterruptType::NMI,
            vector_address: 0xFFFA,
            binary_flag_mask: 0b0010_0000,
            cpu_cycles: 2,
        }
    }
}

/// The processor.
pub struct CPU {
    pub register_a: u8,
    pub register_x: u8,
    pub register_y: u8,
    pub register_p: CpuFlags,
    pub register_pc: u16,
    pub register_sp: u8,
    pub bus: BUS,
}

/// Mathematical image of the whole machine: the six processor registers
/// and the bus behind them.
pub struct CpuState {
    pub a: u8,
    pub x: u8,
    pub y: u8,
    pub p: u8,
    pub sp: u8,
    pub pc: u16,
    pub bus: BusView,
}

/// Effect of servicing the graphics interrupt from a machine state: the
/// counter and a status byte with break clear and unused set are pushed,
/// further interrupts are blocked, two cycles pass, and control moves to
/// the vector at 0xFFFA. The second component reports a frame completed
/// by those cycles.
pub open spec fn nmi_spec(s: CpuState) -> (CpuState, bool) {
    let b1 = bus_write(
        bus_write(s.bus, (STACK + s.sp as u16) as u16, (s.pc >> 8) as u8),
        (STACK + s.sp.wrapping_sub(1) as u16) as u16,
        (s.pc & 0xff) as u8,
    );
    let b2 = bus_write(b1, (STACK + s.sp.wrapping_sub(2) as u16) as u16, (s.p & !BREAK) | UNUSED);
    let t = bus_tick(b2, 2);
    let rd = bus_read16(t.0, 0xFFFA);
    (
        CpuState {
            bus: rd.0,
            pc: rd.1,
            sp: s.sp.wrapping_sub(3),
            p: s.p | INTERRUPT_DISABLE,
            ..s
        },
        t.1,
    )
}

impl CPU {
    pub open spec fn wf(self) -> bool {
        self.bus.wf()
    }

    /// This machine's mathematical state.
    pub open spec fn spec_state(self) -> CpuState {
        CpuState {
            a: self.register_a,
            x: self.register_x,
            y: self.register_y,
            p: self.register_p.bits,
            sp: self.register_sp,
            pc: self.register_pc,
            bus: self.bus@,
        }
    }

    /// The three index/accumulator registers, the stack pointer, and the
    /// program counter agree between two processor states.
    pub open spec fn same_regs(a: CPU, b: CPU) -> bool {
        &&& b.register_a == a.register_a
        &&& b.register_x == a.register_x
        &&& b.register_y == a.register_y
        &&& b.register_sp == a.register_sp
        &&& b.register_pc == a.register_pc
    }

    pub fn new(bus: BUS) -> (r: CPU)
        ensures
            r.register_a == 0,
            r.register_x == 0,
            r.register_y == 0,
            r.register_sp == STACK_RESET,
            r.register_pc == 0,
            r.register_p.bits == 0b0010_0100,
            r.bus == bus,
    {
        CPU {
            register_a: 0,
            register_x: 0,
            register_y: 0,
            register_sp: STACK_RESET,
            register_pc: 0,
            register_p: CpuFlags { bits: 0b0010_0100 },
            bus,
        }
    }

    pub fn memory_read(&mut self, address: u16) -> (r: u8)
        requires
            old(self).wf(),
        ensures
            final(self).wf(),
            (final(self).bus@, r) == bus_read(old(self).bus@, address),
            Self::same_regs(*old(self), *final(self)),
            final(self).register_p == old(self).register_p,
    {
        self.bus.memory_read(address)
    }

    pub fn memory_write(&mut self, address: u16, value: u8) -> (r: Result<(), BusFault>)
        requires
            old(self).wf(),
        ensures
            final(self).wf(),
            r is Ok <==> writable(address),
            writable(address) ==> final(self).bus@ == bus_write(old(self).bus@, address, value),
            !writable(address) ==> (final(self).bus@ == old(self).bus@ && r == Result::<(),
            BusFault>::Err(write_fault(address))),
            Self::same_regs(*old(self), *final(self)),
            final(self).register_p == old(self).register_p,
    {
        self.bus.memory_write(address, value)
    }

    pub fn memory_read_u16(&mut self, address: u16) -> (r: u16)
        requires
            old(self).wf(),
        ensures
            final(self).wf(),
            (final(self).bus@, r) == bus_read16(old(self).bus@, address),
            Self::same_regs(*old(self), *final(self)),
            final(self).register_p == old(self).register_p,
    {
        self.bus.memory_read_u16(address)
    }

    pub fn memory_write_u16(&mut self, address: u16, value: u16) -> (r: Result<(), BusFault>)
        requires
            old(self).wf(),
        ensures
            final(self).wf(),
            r is Ok <==> (writable(address) && writable(address.wrapping_add(1))),
            r is Ok ==> final(self).bus@ == bus_write(
                bus_write(old(self).bus@, address, (value & 0xff) as u8),
                address.wrapping_add(1),
                (value >> 8) as u8,
            ),
            Self::same_regs(*old(self), *final(self)),
            final(self).register_p == old(self).register_p,
    {
        self.bus.memory_write_u16(address, value)
    }

    /// Loads the accumulator and recomputes the zero and negative flags.
    pub fn set_register_a(&mut self, value: u8)
        ensures
            final(self).register_a == value,
            final(self).register_p.bits == zn_update(old(self).register_p.bits, value),
            final(self).register_x == old(self).register_x,
            final(self).register_y == old(self).register_y,
            final(self).register_sp == old(self).register_sp,
            final(self).register_pc == old(self).register_pc,
            final(self).bus == old(self).bus,
    {
        self.register_a = value;
        let a = self.register_a;
        self.update_zero_and_negative_flags(a);
    }

    /// Zero set exactly when the result is zero; negative set exactly when
    /// bit 7 of the result is set.
    pub fn update_zero_and_negative_flags(&mut self, result: u8)
        ensures
            final(self).register_p.bits == zn_update(old(self).register_p.bits, result),
            Self::same_regs(*old(self), *final(self)),
            final(self).bus == old(self).bus,
    {
        if result == 0 {
            self.register_p.insert(ZERO);
        } else {
            self.register_p.remove(ZERO);
        }

        if result >> 7 == 1 {
            self.register_p.insert(NEGATIVE);
        } else {
            self.register_p.remove(NEGATIVE);
        }
        proof {
            assert((result >> 7 == 1) == (result & 0x80 != 0)) by (bit_vector);
        }
    }

    pub fn update_negative_flags(&mut self, result: u8)
        ensures
            final(self).register_p.bits == n_update(old(self).register_p.bits, result),
            Self::same_regs(*old(self), *final(self)),
            final(self).bus == old(self).bus,
    {
        if result >> 7 == 1 {
            self.register_p.insert(NEGATIVE)
        } else {
            self.register_p.remove(NEGATIVE)
        }
        proof {
            assert((result >> 7 == 1) == (result & 0x80 != 0)) by (bit_vector);
        }
    }

    /// Clears the registers, restores the reset stack pointer and flag
    /// byte, and fetches the entry point from the reset vector.
    pub fn reset(&mut self)
        requires
            old(self).wf(),
        ensures
            final(self).wf(),
            final(self).register_a == 0,
            final(self).register_x == 0,
            final(self).register_y == 0,
            final(self).register_sp == STACK_RESET,
            final(self).register_p.bits == 0b0010_0100,
            (final(self).bus@, final(self).register_pc) == bus_read16(old(self).bus@, 0xFFFC),
    {
        self.register_a = 0;
        self.register_x = 0;
        self.register_y = 0;
        self.register_sp = STACK_RESET;
        self.register_p = CpuFlags { bits: 0b0010_0100 };

        self.register_pc = self.memory_read_u16(0xFFFC);
    }

    pub fn set_carry_flag(&mut self)
        ensures
            final(self).register_p.bits == (old(self).register_p.bits | CARRY),
            Self::same_regs(*old(self), *final(self)),
            final(self).bus == old(self).bus,
    {
        self.register_p.insert(CARRY)
    }

    pub fn clear_carry_flag(&mut self)
        ensures
            final(self).register_p.bits == (old(self).register_p.bits & !CARRY),
            Self::same_regs(*old(self), *final(self)),
            final(self).bus == old(self).bus,
    {
        self.register_p.remove(CARRY)
    }

    /// Adds the operand and the carry into the accumulator, with the
    /// documented carry and signed-overflow rules.
    pub fn add_to_register_a(&mut self, value: u8)
        ensures
            (final(self).register_a, final(self).register_p.bits) == adc_spec(
                old(self).register_a,
                value,
                old(self).register_p.bits,
            ),
            final(self).register_x == old(self).register_x,
            final(self).register_y == old(self).register_y,
            final(self).register_sp == old(self).register_sp,
            final(self).register_pc == old(self).register_pc,
            final(self).bus == old(self).bus,
    {
        let sum: u16 = self.register_a as u16 + value as u16 + (if self.register_p.contains(CARRY) {
            1
        } else {
            0
        });

        let carry = sum > 0xff;

        if carry {
            self.register_p.insert(CARRY);
        } else {
            self.register_p.remove(CARRY);
        }

        let result = sum as u8;

        if (value ^ result) & (result ^ self.register_a) & 0x80 != 0 {
            self.register_p.insert(OVERFLOW);
        } else {
            self.register_p.remove(OVERFLOW)
        }

        self.set_register_a(result);
    }

    fn sub_from_register_a(&mut self, value: u8)
        ensures
            (final(self).register_a, final(self).register_p.bits) == sbc_spec(
                old(self).register_a,
                value,
                old(self).register_p.bits,
            ),
            final(self).register_x == old(self).register_x,
            final(self).register_y == old(self).register_y,
            final(self).register_sp == old(self).register_sp,
            final(self).register_pc == old(self).register_pc,
            final(self).bus == old(self).bus,
    {
        self.add_to_register_a(value ^ 0xff);
    }

    /// Pops one byte: the pointer steps up first, then the byte under it
    /// is read.
    pub fn stack_pop(&mut self) -> (r: u8)
        requires
            old(self).wf(),
        ensures
            final(self).wf(),
            final(self).register_sp == old(self).register_sp.wrapping_add(1),
            (final(self).bus@, r) == bus_read(
                old(self).bus@,
                (STACK + old(self).register_sp.wrapping_add(1) as u16) as u16,
            ),
            final(self).register_a == old(self).register_a,
            final(self).register_x == old(self).register_x,
            final(self).register_y == old(self).register_y,
            final(self).register_pc == old(self).register_pc,
            final(self).register_p == old(self).register_p,
    {
        self.register_sp = self.register_sp.wrapping_add(1);
        self.memory_read(STACK + self.register_sp as u16)
    }

    /// Pushes one byte: it lands under the pointer, which then steps down.
    pub fn stack_push(&mut self, value: u8)
        requires
            old(self).wf(),
        ensures
            final(self).wf(),
            final(self).register_sp == old(self).register_sp.wrapping_sub(1),
            final(self).bus@ == bus_write(
                old(self).bus@,
                (STACK + old(self).register_sp as u16) as u16,
                value,
            ),
            final(self).register_a == old(self).register_a,
            final(self).register_x == old(self).register_x,
            final(self).register_y == old(self).register_y,
            final(self).register_pc == old(self).register_pc,
            final(self).register_p == old(self).register_p,
    {
        let address = STACK + self.register_sp as u16;
        proof {
            assert(writable(address)) by {
                assert(address < 0x2000);
            }
        }
        let _ = self.memory_write(address, value);
        self.register_sp = self.register_sp.wrapping_sub(1)
    }

    /// Pushes a 16-bit value, high byte first.
    pub fn stack_push_u16(&mut self, value: u16)
        requires
            old(self).wf(),
        ensures
            final(self).wf(),
            final(self).register_sp == old(self).register_sp.wrapping_sub(2),
            final(self).bus@ == bus_write(
                bus_write(
                    old(self).bus@,
                    (STACK + old(self).register_sp as u16) as u16,
                    (value >> 8) as u8,
                ),
                (STACK + old(self).register_sp.wrapping_sub(1) as u16) as u16,
                (value & 0xff) as u8,
            ),
            final(self).register_a == old(self).register_a,
            final(self).register_x == old(self).register_x,
            final(self).register_y == old(self).register_y,
            final(self).register_pc == old(self).register_pc,
            final(self).register_p == old(self).register_p,
    {
        let high = (value >> 8) as u8;
        let low = (value & 0xff) as u8;
        self.stack_push(high);
        self.stack_push(low);
    }

    /// Pops a 16-bit value, low byte first.
    pub fn stack_pop_u16(&mut self) -> (r: u16)
        requires
            old(self).wf(),
        ensures
            final(self).wf(),
            final(self).register_sp == old(self).register_sp.wrapping_add(2),
            ({
                let lo = bus_read(
                    old(self).bus@,
                    (STACK + old(self).register_sp.wrapping_add(1) as u16) as u16,
                );
                let hi = bus_read(
                    lo.0,
                    (STACK + old(self).register_sp.wrapping_add(2) as u16) as u16,
                );
                final(self).bus@ == hi.0 && r == (((hi.1 as u16) << 8) | (lo.1 as u16))
            }),
            final(self).register_a == old(self).register_a,
            final(self).register_x == old(self).register_x,
            final(self).register_y == old(self).register_y,
            final(self).register_pc == old(self).register_pc,
            final(self).register_p == old(self).register_p,
    {
        let low = self.stack_pop() as u16;
        let high = self.stack_pop() as u16;

        (high << 8) | low
    }
}

} // verus!

verus! {

impl CPU {
    /// Resolves the operand address for every mode that reads its operand
    /// bytes at `address`, reporting whether an index addition crossed a
    /// 256-byte page.
    pub fn get_absolute_address(&mut self, mode: AddressingMode, address: u16) -> (r: (u16, bool))
        requires
            old(self).wf(),
            mode != AddressingMode::NoneAddressing,
            mode != AddressingMode::Immediate,
        ensures
            final(self).wf(),
            ({
                let s = resolve_at(
                    old(self).bus@,
                    old(self).register_x,
                    old(self).register_y,
                    mode,
                    address,
                );
                final(self).bus@ == s.0 && r.0 == s.1 && r.1 == s.2
            }),
            Self::same_regs(*old(self), *final(self)),
            final(self).register_p == old(self).register_p,
    {
        match mode {
            AddressingMode::ZeroPage => (self.memory_read(address) as u16, false),
            AddressingMode::Absolute => (self.memory_read_u16(address), false),
            AddressingMode::ZeroPageX => {
                let pos = self.memory_read(address);
                let addr = pos.wrapping_add(self.register_x) as u16;
                (addr, false)
            },
            AddressingMode::ZeroPageY => {
                let pos = self.memory_read(address);
                let addr = pos.wrapping_add(self.register_y) as u16;
                (addr, false)
            },
            AddressingMode::AbsoluteX => {
                let base = self.memory_read_u16(address);
                let addr = base.wrapping_add(self.register_x as u16);
                (addr, base & 0xFF00 != addr & 0xFF00)
            },
            AddressingMode::AbsoluteY => {
                let base = self.memory_read_u16(address);
                let addr = base.wrapping_add(self.register_y as u16);
                (addr, base & 0xFF00 != addr & 0xFF00)
            },
            AddressingMode::IndirectX => {
                let base = self.memory_read(address);
                let ptr: u8 = base.wrapping_add(self.register_x);
                let low = self.memory_read(ptr as u16);
                let high = self.memory_read(ptr.wrapping_add(1) as u16);
                (((high as u16) << 8) | (low as u16), false)
            },
            AddressingMode::IndirectY => {
                let base = self.memory_read(address);
                let low = self.memory_read(base as u16);
                let high = self.memory_read(base.wrapping_add(1) as u16);
                let deref_base = ((high as u16) << 8) | (low as u16);
                let deref = deref_base.wrapping_add(self.register_y as u16);
                (deref, deref & 0xFF00 != deref_base & 0xFF00)
            },
            _ => (0, false),
        }
    }

    /// Resolves the operand address from the program counter; an immediate
    /// operand sits at the counter itself.
    pub fn get_operand_address(&mut self, mode: AddressingMode) -> (r: u16)
        requires
            old(self).wf(),
            mode != AddressingMode::NoneAddressing,
        ensures
            final(self).wf(),
            ({
                let s = resolve_op(
                    old(self).bus@,
                    old(self).register_x,
                    old(self).register_y,
                    old(self).register_pc,
                    mode,
                );
                final(self).bus@ == s.0 && r == s.1
            }),
            Self::same_regs(*old(self), *final(self)),
            final(self).register_p == old(self).register_p,
    {
        match mode {
            AddressingMode::Immediate => self.register_pc,
            _ => {
                let r = self.get_absolute_address(mode, self.register_pc);
                r.0
            },
        }
    }

    pub fn adc(&mut self, mode: AddressingMode)
        requires
            old(self).wf(),
            mode != AddressingMode::NoneAddressing,
        ensures
            final(self).wf(),
            ({
                let s = resolve_op(
                    old(self).bus@,
                    old(self).register_x,
                    old(self).register_y,
                    old(self).register_pc,
                    mode,
                );
                let rd = bus_read(s.0, s.1);
                &&& final(self).bus@ == rd.0
                &&& (final(self).register_a, final(self).register_p.bits) == adc_spec(
                    old(self).register_a,
                    rd.1,
                    old(self).register_p.bits,
                )
            }),
            final(self).register_x == old(self).register_x,
            final(self).register_y == old(self).register_y,
            final(self).register_sp == old(self).register_sp,
            final(self).register_pc == old(self).register_pc,
    {
        let addr = self.get_operand_address(mode);
        let value = self.memory_read(addr);
        self.add_to_register_a(value);
    }

    pub fn sbc(&mut self, mode: AddressingMode)
        requires
            old(self).wf(),
            mode != AddressingMode::NoneAddressing,
        ensures
            final(self).wf(),
            ({
                let s = resolve_op(
                    old(self).bus@,
                    old(self).register_x,
                    old(self).register_y,
                    old(self).register_pc,
                    mode,
                );
                let rd = bus_read(s.0, s.1);
                &&& final(self).bus@ == rd.0
                &&& (final(self).register_a, final(self).register_p.bits) == sbc_spec(
                    old(self).register_a,
                    rd.1,
                    old(self).register_p.bits,
                )
            }),
            final(self).register_x == old(self).register_x,
            final(self).register_y == old(self).register_y,
            final(self).register_sp == old(self).register_sp,
            final(self).register_pc == old(self).register_pc,
    {
        let addr = self.get_operand_address(mode);
        let value = self.memory_read(addr);
        self.sub_from_register_a(value);
    }

    pub fn and(&mut self, mode: AddressingMode)
        requires
            old(self).wf(),
            mode != AddressingMode::NoneAddressing,
        ensures
            final(self).wf(),
            ({
                let s = resolve_op(
                    old(self).bus@,
                    old(self).register_x,
                    old(self).register_y,
                    old(self).register_pc,
                    mode,
                );
                let rd = bus_read(s.0, s.1);
                &&& final(self).bus@ == rd.0
                &&& final(self).register_a == (rd.1 & old(self).register_a)
                &&& final(self).register_p.bits == zn_update(
                    old(self).register_p.bits,
                    rd.1 & old(self).register_a,
                )
            }),
            final(self).register_x == old(self).register_x,
            final(self).register_y == old(self).register_y,
            final(self).register_sp == old(self).register_sp,
            final(self).register_pc == old(self).register_pc,
    {
        let addr = self.get_operand_address(mode);
        let value = self.memory_read(addr);
        let a = self.register_a;
        self.set_register_a(value & a);
    }

    pub fn eor(&mut self, mode: AddressingMode)
        requires
            old(self).wf(),
            mode != AddressingMode::NoneAddressing,
        ensures
            final(self).wf(),
            ({
                let s = resolve_op(
                    old(self).bus@,
                    old(self).register_x,
                    old(self).register_y,
                    old(self).register_pc,
                    mode,
                );
                let rd = bus_read(s.0, s.1);
                &&& final(self).bus@ == rd.0
                &&& final(self).register_a == (rd.1 ^ old(self).register_a)
                &&& final(self).register_p.bits == zn_update(
                    old(self).register_p.bits,
                    rd.1 ^ old(self).register_a,
                )
            }),
            final(self).register_x == old(self).register_x,
            final(self).register_y == old(self).register_y,
            final(self).register_sp == old(self).register_sp,
            final(self).register_pc == old(self).register_pc,
    {
        let addr = self.get_operand_address(mode);
        let value = self.memory_read(addr);
        let a = self.register_a;
        self.set_register_a(value ^ a);
    }

    pub fn ora(&mut self, mode: AddressingMode)
        requires
            old(self).wf(),
            mode != AddressingMode::NoneAddressing,
        ensures
            final(self).wf(),
            ({
                let s = resolve_op(
                    old(self).bus@,
                    old(self).register_x,
                    old(self).register_y,
                    old(self).register_pc,
                    mode,
                );
                let rd = bus_read(s.0, s.1);
                &&& final(self).bus@ == rd.0
                &&& final(self).register_a == (rd.1 | old(self).register_a)
                &&& final(self).register_p.bits == zn_update(
                    old(self).register_p.bits,
                    rd.1 | old(self).register_a,
                )
            }),
            final(self).register_x == old(self).register_x,
            final(self).register_y == old(self).register_y,
            final(self).register_sp == old(self).register_sp,
            final(self).register_pc == old(self).register_pc,
    {
        let addr = self.get_operand_address(mode);
        let value = self.memory_read(addr);
        let a = self.register_a;
        self.set_register_a(value | a);
    }

    pub fn lda(&mut self, mode: AddressingMode)
        requires
            old(self).wf(),
            mode != AddressingMode::NoneAddressing,
        ensures
            final(self).wf(),
            ({
                let s = resolve_op(
                    old(self).bus@,
                    old(self).register_x,
                    old(self).register_y,
                    old(self).register_pc,
                    mode,
                );
                let rd = bus_read(s.0, s.1);
                &&& final(self).bus@ == rd.0
                &&& final(self).register_a == rd.1
                &&& final(self).register_p.bits == zn_update(old(self).register_p.bits, rd.1)
            }),
            final(self).register_x == old(self).register_x,
            final(self).register_y == old(self).register_y,
            final(self).register_sp == old(self).register_sp,
            final(self).register_pc == old(self).register_pc,
    {
        let addr = self.get_operand_address(mode);
        let value = self.memory_read(addr);
        self.set_register_a(value);
    }

    pub fn ldx(&mut self, mode: AddressingMode)
        requires
            old(self).wf(),
            mode != AddressingMode::NoneAddressing,
        ensures
            final(self).wf(),
            ({
                let s = resolve_op(
                    old(self).bus@,
                    old(self).register_x,
                    old(self).register_y,
                    old(self).register_pc,
                    mode,
                );
                let rd = bus_read(s.0, s.1);
                &&& final(self).bus@ == rd.0
                &&& final(self).register_x == rd.1
                &&& final(self).register_p.bits == zn_update(old(self).register_p.bits, rd.1)
            }),
            final(self).register_a == old(self).register_a,
            final(self).register_y == old(self).register_y,
            final(self).register_sp == old(self).register_sp,
            final(self).register_pc == old(self).register_pc,
    {
        let addr = self.get_operand_address(mode);
        let value = self.memory_read(addr);
        self.register_x = value;
        let x = self.register_x;
        self.update_zero_and_negative_flags(x);
    }

    pub fn ldy(&mut self, mode: AddressingMode)
        requires
            old(self).wf(),
            mode != AddressingMode::NoneAddressing,
        ensures
            final(self).wf(),
            ({
                let s = resolve_op(
                    old(self).bus@,
                    old(self).register_x,
                    old(self).register_y,
                    old(self).register_pc,
                    mode,
                );
                let rd = bus_read(s.0, s.1);
                &&& final(self).bus@ == rd.0
                &&& final(self).register_y == rd.1
                &&& final(self).register_p.bits == zn_update(old(self).register_p.bits, rd.1)
            }),
            final(self).register_a == old(self).register_a,
            final(self).register_x == old(self).register_x,
            final(self).register_sp == old(self).register_sp,
            final(self).register_pc == old(self).register_pc,
    {
        let addr = self.get_operand_address(mode);
        let value = self.memory_read(addr);
        self.register_y = value;
        let y = self.register_y;
        self.update_zero_and_negative_flags(y);
    }

    pub fn sta(&mut self, mode: AddressingMode) -> (r: Result<(), BusFault>)
        requires
            old(self).wf(),
            mode != AddressingMode::NoneAddressing,
        ensures
            final(self).wf(),
            ({
                let s = resolve_op(
                    old(self).bus@,
                    old(self).register_x,
                    old(self).register_y,
                    old(self).register_pc,
                    mode,
                );
                &&& (r is Ok <==> writable(s.1))
                &&& (writable(s.1) ==> final(self).bus@ == bus_write(
                    s.0,
                    s.1,
                    old(self).register_a,
                ))
                &&& (!writable(s.1) ==> final(self).bus@ == s.0 && r == Result::<(),
                BusFault>::Err(write_fault(s.1)))
            }),
            Self::same_regs(*old(self), *final(self)),
            final(self).register_p == old(self).register_p,
    {
        let addr = self.get_operand_address(mode);
        let a = self.register_a;
        self.memory_write(addr, a)
    }

    pub fn stx(&mut self, mode: AddressingMode) -> (r: Result<(), BusFault>)
        requires
            old(self).wf(),
            mode != AddressingMode::NoneAddressing,
        ensures
            final(self).wf(),
            ({
                let s = resolve_op(
                    old(self).bus@,
                    old(self).register_x,
                    old(self).register_y,
                    old(self).register_pc,
                    mode,
                );
                &&& (r is Ok <==> writable(s.1))
                &&& (writable(s.1) ==> final(self).bus@ == bus_write(
                    s.0,
                    s.1,
                    old(self).register_x,
                ))
                &&& (!writable(s.1) ==> final(self).bus@ == s.0 && r == Result::<(),
                BusFault>::Err(write_fault(s.1)))
            }),
            Self::same_regs(*old(self), *final(self)),
            final(self).register_p == old(self).register_p,
    {
        let addr = self.get_operand_address(mode);
        let x = self.register_x;
        self.memory_write(addr, x)
    }

    pub fn sty(&mut self, mode: AddressingMode) -> (r: Result<(), BusFault>)
        requires
            old(self).wf(),
            mode != AddressingMode::NoneAddressing,
        ensures
            final(self).wf(),
            ({
                let s = resolve_op(
                    old(self).bus@,
                    old(self).register_x,
                    old(self).register_y,
                    old(self).register_pc,
                    mode,
                );
                &&& (r is Ok <==> writable(s.1))
                &&& (writable(s.1) ==> final(self).bus@ == bus_write(
                    s.0,
                    s.1,
                    old(self).register_y,
                ))
                &&& (!writable(s.1) ==> final(self).bus@ == s.0 && r == Result::<(),
                BusFault>::Err(write_fault(s.1)))
            }),
            Self::same_regs(*old(self), *final(self)),
            final(self).register_p == old(self).register_p,
    {
        let addr = self.get_operand_address(mode);
        let y = self.register_y;
        self.memory_write(addr, y)
    }
}

} // verus!

verus! {

impl CPU {
    pub fn tax(&mut self)
        ensures
            final(self).register_x == old(self).register_a,
            final(self).register_p.bits == zn_update(old(self).register_p.bits, old(self).register_a),
            final(self).register_a == old(self).register_a,
            final(self).register_y == old(self).register_y,
            final(self).register_sp == old(self).register_sp,
            final(self).register_pc == old(self).register_pc,
            final(self).bus == old(self).bus,
    {
        self.register_x = self.register_a;
        let x = self.register_x;
        self.update_zero_and_negative_flags(x);
    }

    pub fn tay(&mut self)
        ensures
            final(self).register_y == old(self).register_a,
            final(self).register_p.bits == zn_update(old(self).register_p.bits, old(self).register_a),
            final(self).register_a == old(self).register_a,
            final(self).register_x == old(self).register_x,
            final(self).register_sp == old(self).register_sp,
            final(self).register_pc == old(self).register_pc,
            final(self).bus == old(self).bus,
    {
        self.register_y = self.register_a;
        let y = self.register_y;
        self.update_zero_and_negative_flags(y);
    }

    pub fn tsx(&mut self)
        ensures
            final(self).register_x == old(self).register_sp,
            final(self).register_p.bits == zn_update(old(self).register_p.bits, old(self).register_sp),
            final(self).register_a == old(self).register_a,
            final(self).register_y == old(self).register_y,
            final(self).register_sp == old(self).register_sp,
            final(self).register_pc == old(self).register_pc,
            final(self).bus == old(self).bus,
    {
        self.register_x = self.register_sp;
        let x = self.register_x;
        self.update_zero_and_negative_flags(x);
    }

    pub fn txa(&mut self)
        ensures
            final(self).register_a == old(self).register_x,
            final(self).register_p.bits == zn_update(old(self).register_p.bits, old(self).register_x),
            final(self).register_x == old(self).register_x,
            final(self).register_y == old(self).register_y,
            final(self).register_sp == old(self).register_sp,
            final(self).register_pc == old(self).register_pc,
            final(self).bus == old(self).bus,
    {
        self.register_a = self.register_x;
        let a = self.register_a;
        self.update_zero_and_negative_flags(a);
    }

    pub fn txs(&mut self)
        ensures
            final(self).register_sp == old(self).register_x,
            final(self).register_p == old(self).register_p,
            final(self).register_a == old(self).register_a,
            final(self).register_x == old(self).register_x,
            final(self).register_y == old(self).register_y,
            final(self).register_pc == old(self).register_pc,
            final(self).bus == old(self).bus,
    {
        self.register_sp = self.register_x;
    }

    pub fn tya(&mut self)
        ensures
            final(self).register_a == old(self).register_y,
            final(self).register_p.bits == zn_update(old(self).register_p.bits, old(self).register_y),
            final(self).register_x == old(self).register_x,
            final(self).register_y == old(self).register_y,
            final(self).register_sp == old(self).register_sp,
            final(self).register_pc == old(self).register_pc,
            final(self).bus == old(self).bus,
    {
        self.register_a = self.register_y;
        let a = self.register_a;
        self.update_zero_and_negative_flags(a);
    }

    /// Increments index X with 8-bit wraparound: 0xFF steps to 0x00 and
    /// onwards, never a fault.
    pub fn inx(&mut self)
        ensures
            final(self).register_x == old(self).register_x.wrapping_add(1),
            final(self).register_p.bits == zn_update(
                old(self).register_p.bits,
                old(self).register_x.wrapping_add(1),
            ),
            final(self).register_a == old(self).register_a,
            final(self).register_y == old(self).register_y,
            final(self).register_sp == old(self).register_sp,
            final(self).register_pc == old(self).register_pc,
            final(self).bus == old(self).bus,
    {
        self.register_x = self.register_x.wrapping_add(1);
        let x = self.register_x;
        self.update_zero_and_negative_flags(x);
    }

    pub fn iny(&mut self)
        ensures
            final(self).register_y == old(self).register_y.wrapping_add(1),
            final(self).register_p.bits == zn_update(
                old(self).register_p.bits,
                old(self).register_y.wrapping_add(1),
            ),
            final(self).register_a == old(self).register_a,
            final(self).register_x == old(self).register_x,
            final(self).register_sp == old(self).register_sp,
            final(self).register_pc == old(self).register_pc,
            final(self).bus == old(self).bus,
    {
        self.register_y = self.register_y.wrapping_add(1);
        let y = self.register_y;
        self.update_zero_and_negative_flags(y);
    }

    pub fn dex(&mut self)
        ensures
            final(self).register_x == old(self).register_x.wrapping_sub(1),
            final(self).register_p.bits == zn_update(
                old(self).register_p.bits,
                old(self).register_x.wrapping_sub(1),
            ),
            final(self).register_a == old(self).register_a,
            final(self).register_y == old(self).register_y,
            final(self).register_sp == old(self).register_sp,
            final(self).register_pc == old(self).register_pc,
            final(self).bus == old(self).bus,
    {
        self.register_x = self.register_x.wrapping_sub(1);
        let x = self.register_x;
        self.update_zero_and_negative_flags(x);
    }

    pub fn dey(&mut self)
        ensures
            final(self).register_y == old(self).register_y.wrapping_sub(1),
            final(self).register_p.bits == zn_update(
                old(self).register_p.bits,
                old(self).register_y.wrapping_sub(1),
            ),
            final(self).register_a == old(self).register_a,
            final(self).register_x == old(self).register_x,
            final(self).register_sp == old(self).register_sp,
            final(self).register_pc == old(self).register_pc,
            final(self).bus == old(self).bus,
    {
        self.register_y = self.register_y.wrapping_sub(1);
        let y = self.register_y;
        self.update_zero_and_negative_flags(y);
    }

    pub fn clc(&mut self)
        ensures
            final(self).register_p.bits == (old(self).register_p.bits & !CARRY),
            Self::same_regs(*old(self), *final(self)),
            final(self).bus == old(self).bus,
    {
        self.clear_carry_flag();
    }

    pub fn cld(&mut self)
        ensures
            final(self).register_p.bits == (old(self).register_p.bits & !DECIMAL_MODE),
            Self::same_regs(*old(self), *final(self)),
            final(self).bus == old(self).bus,
    {
        self.register_p.remove(DECIMAL_MODE);
    }

    pub fn cli(&mut self)
        ensures
            final(self).register_p.bits == (old(self).register_p.bits & !INTERRUPT_DISABLE),
            Self::same_regs(*old(self), *final(self)),
            final(self).bus == old(self).bus,
    {
        self.register_p.remove(INTERRUPT_DISABLE);
    }

    pub fn clv(&mut self)
        ensures
            final(self).register_p.bits == (old(self).register_p.bits & !OVERFLOW),
            Self::same_regs(*old(self), *final(self)),
            final(self).bus == old(self).bus,
    {
        self.register_p.remove(OVERFLOW);
    }

    pub fn sec(&mut self)
        ensures
            final(self).register_p.bits == (old(self).register_p.bits | CARRY),
            Self::same_regs(*old(self), *final(self)),
            final(self).bus == old(self).bus,
    {
        self.set_carry_flag();
    }

    pub fn sed(&mut self)
        ensures
            final(self).register_p.bits == (old(self).register_p.bits | DECIMAL_MODE),
            Self::same_regs(*old(self), *final(self)),
            final(self).bus == old(self).bus,
    {
        self.register_p.insert(DECIMAL_MODE);
    }

    pub fn sei(&mut self)
        ensures
            final(self).register_p.bits == (old(self).register_p.bits | INTERRUPT_DISABLE),
            Self::same_regs(*old(self), *final(self)),
            final(self).bus == old(self).bus,
    {
        self.register_p.insert(INTERRUPT_DISABLE);
    }

    /// Compares a register against the operand: carry set exactly when the
    /// operand does not exceed the register, zero and negative from the
    /// wrapping difference.
    pub fn compare(&mut self, mode: AddressingMode, compare_with: u8)
        requires
            old(self).wf(),
            mode != AddressingMode::NoneAddressing,
        ensures
            final(self).wf(),
            ({
                let s = resolve_op(
                    old(self).bus@,
                    old(self).register_x,
                    old(self).register_y,
                    old(self).register_pc,
                    mode,
                );
                let rd = bus_read(s.0, s.1);
                &&& final(self).bus@ == rd.0
                &&& final(self).register_p.bits == compare_spec(
                    old(self).register_p.bits,
                    rd.1,
                    compare_with,
                )
            }),
            Self::same_regs(*old(self), *final(self)),
    {
        let addr = self.get_operand_address(mode);
        let value = self.memory_read(addr);
        if value <= compare_with {
            self.register_p.insert(CARRY);
        } else {
            self.register_p.remove(CARRY);
        }

        self.update_zero_and_negative_flags(compare_with.wrapping_sub(value));
    }

    pub fn cmp(&mut self, mode: AddressingMode)
        requires
            old(self).wf(),
            mode != AddressingMode::NoneAddressing,
        ensures
            final(self).wf(),
            ({
                let s = resolve_op(
                    old(self).bus@,
                    old(self).register_x,
                    old(self).register_y,
                    old(self).register_pc,
                    mode,
                );
                let rd = bus_read(s.0, s.1);
                &&& final(self).bus@ == rd.0
                &&& final(self).register_p.bits == compare_spec(
                    old(self).register_p.bits,
                    rd.1,
                    old(self).register_a,
                )
            }),
            Self::same_regs(*old(self), *final(self)),
    {
        let a = self.register_a;
        self.compare(mode, a);
    }

    pub fn cpx(&mut self, mode: AddressingMode)
        requires
            old(self).wf(),
            mode != AddressingMode::NoneAddressing,
        ensures
            final(self).wf(),
            ({
                let s = resolve_op(
                    old(self).bus@,
                    old(self).register_x,
                    old(self).register_y,
                    old(self).register_pc,
                    mode,
                );
                let rd = bus_read(s.0, s.1);
                &&& final(self).bus@ == rd.0
                &&& final(self).register_p.bits == compare_spec(
                    old(self).register_p.bits,
                    rd.1,
                    old(self).register_x,
                )
            }),
            Self::same_regs(*old(self), *final(self)),
    {
        let x = self.register_x;
        self.compare(mode, x);
    }

    pub fn cpy(&mut self, mode: AddressingMode)
        requires
            old(self).wf(),
            mode != AddressingMode::NoneAddressing,
        ensures
            final(self).wf(),
            ({
                let s = resolve_op(
                    old(self).bus@,
                    old(self).register_x,
                    old(self).register_y,
                    old(self).register_pc,
                    mode,
                );
                let rd = bus_read(s.0, s.1);
                &&& final(self).bus@ == rd.0
                &&& final(self).register_p.bits == compare_spec(
                    old(self).register_p.bits,
                    rd.1,
                    old(self).register_y,
                )
            }),
            Self::same_regs(*old(self), *final(self)),
    {
        let y = self.register_y;
        self.compare(mode, y);
    }

    /// A taken branch reads the signed displacement after the opcode and
    /// adds it to the counter just past the two-byte instruction; an
    /// untaken branch changes nothing.
    pub fn branch(&mut self, condition: bool)
        requires
            old(self).wf(),
        ensures
            final(self).wf(),
            !condition ==> *final(self) == *old(self),
            condition ==> ({
                let rd = bus_read(old(self).bus@, old(self).register_pc);
                &&& final(self).bus@ == rd.0
                &&& final(self).register_pc == old(self).register_pc.wrapping_add(1).wrapping_add(
                    sign_extend(rd.1),
                )
                &&& final(self).register_a == old(self).register_a
                &&& final(self).register_x == old(self).register_x
                &&& final(self).register_y == old(self).register_y
                &&& final(self).register_sp == old(self).register_sp
                &&& final(self).register_p == old(self).register_p
            }),
    {
        if condition {
            let jump = self.memory_read(self.register_pc);
            let rel: u16 = if jump >= 0x80 {
                (jump as u16) | 0xff00
            } else {
                jump as u16
            };
            self.register_pc = self.register_pc.wrapping_add(1).wrapping_add(rel);
        }
    }

    pub fn bcc(&mut self)
        requires
            old(self).wf(),
        ensures
            final(self).wf(),
            old(self).register_p.has(CARRY) ==> *final(self) == *old(self),
            !old(self).register_p.has(CARRY) ==> ({
                let rd = bus_read(old(self).bus@, old(self).register_pc);
                &&& final(self).bus@ == rd.0
                &&& final(self).register_pc == old(self).register_pc.wrapping_add(1).wrapping_add(
                    sign_extend(rd.1),
                )
                &&& final(self).register_a == old(self).register_a
                &&& final(self).register_x == old(self).register_x
                &&& final(self).register_y == old(self).register_y
                &&& final(self).register_sp == old(self).register_sp
                &&& final(self).register_p == old(self).register_p
            }),
    {
        let c = self.register_p.contains(CARRY);
        self.branch(!c);
    }

    pub fn bcs(&mut self)
        requires
            old(self).wf(),
        ensures
            final(self).wf(),
            !old(self).register_p.has(CARRY) ==> *final(self) == *old(self),
            old(self).register_p.has(CARRY) ==> ({
                let rd = bus_read(old(self).bus@, old(self).register_pc);
                &&& final(self).bus@ == rd.0
                &&& final(self).register_pc == old(self).register_pc.wrapping_add(1).wrapping_add(
                    sign_extend(rd.1),
                )
                &&& final(self).register_a == old(self).register_a
                &&& final(self).register_x == old(self).register_x
                &&& final(self).register_y == old(self).register_y
                &&& final(self).register_sp == old(self).register_sp
                &&& final(self).register_p == old(self).register_p
            }),
    {
        let c = self.register_p.contains(CARRY);
        self.branch(c);
    }

    pub fn beq(&mut self)
        requires
            old(self).wf(),
        ensures
            final(self).wf(),
            !old(self).register_p.has(ZERO) ==> *final(self) == *old(self),
            old(self).register_p.has(ZERO) ==> ({
                let rd = bus_read(old(self).bus@, old(self).register_pc);
                &&& final(self).bus@ == rd.0
                &&& final(self).register_pc == old(self).register_pc.wrapping_add(1).wrapping_add(
                    sign_extend(rd.1),
                )
                &&& final(self).register_a == old(self).register_a
                &&& final(self).register_x == old(self).register_x
                &&& final(self).register_y == old(self).register_y
                &&& final(self).register_sp == old(self).register_sp
                &&& final(self).register_p == old(self).register_p
            }),
    {
        let z = self.register_p.contains(ZERO);
        self.branch(z);
    }

    pub fn bne(&mut self)
        requires
            old(self).wf(),
        ensures
            final(self).wf(),
            old(self).register_p.has(ZERO) ==> *final(self) == *old(self),
            !old(self).register_p.has(ZERO) ==> ({
                let rd = bus_read(old(self).bus@, old(self).register_pc);
                &&& final(self).bus@ == rd.0
                &&& final(self).register_pc == old(self).register_pc.wrapping_add(1).wrapping_add(
                    sign_extend(rd.1),
                )
                &&& final(self).register_a == old(self).register_a
                &&& final(self).register_x == old(self).register_x
                &&& final(self).register_y == old(self).register_y
                &&& final(self).register_sp == old(self).register_sp
                &&& final(self).register_p == old(self).register_p
            }),
    {
        let z = self.register_p.contains(ZERO);
        self.branch(!z);
    }

    pub fn bmi(&mut self)
        requires
            old(self).wf(),
        ensures
            final(self).wf(),
            !old(self).register_p.has(NEGATIVE) ==> *final(self) == *old(self),
            old(self).register_p.has(NEGATIVE) ==> ({
                let rd = bus_read(old(self).bus@, old(self).register_pc);
                &&& final(self).bus@ == rd.0
                &&& final(self).register_pc == old(self).register_pc.wrapping_add(1).wrapping_add(
                    sign_extend(rd.1),
                )
                &&& final(self).register_a == old(self).register_a
                &&& final(self).register_x == old(self).register_x
                &&& final(self).register_y == old(self).register_y
                &&& final(self).register_sp == old(self).register_sp
                &&& final(self).register_p == old(self).register_p
            }),
    {
        let n = self.register_p.contains(NEGATIVE);
        self.branch(n);
    }

    pub fn bpl(&mut self)
        requires
            old(self).wf(),
        ensures
            final(self).wf(),
            old(self).register_p.has(NEGATIVE) ==> *final(self) == *old(self),
            !old(self).register_p.has(NEGATIVE) ==> ({
                let rd = bus_read(old(self).bus@, old(self).register_pc);
                &&& final(self).bus@ == rd.0
                &&& final(self).register_pc == old(self).register_pc.wrapping_add(1).wrapping_add(
                    sign_extend(rd.1),
                )
                &&& final(self).register_a == old(self).register_a
                &&& final(self).register_x == old(self).register_x
                &&& final(self).register_y == old(self).register_y
                &&& final(self).register_sp == old(self).register_sp
                &&& final(self).register_p == old(self).register_p
            }),
    {
        let n = self.register_p.contains(NEGATIVE);
        self.branch(!n);
    }

    pub fn bvc(&mut self)
        requires
            old(self).wf(),
        ensures
            final(self).wf(),
            old(self).register_p.has(OVERFLOW) ==> *final(self) == *old(self),
            !old(self).register_p.has(OVERFLOW) ==> ({
                let rd = bus_read(old(self).bus@, old(self).register_pc);
                &&& final(self).bus@ == rd.0
                &&& final(self).register_pc == old(self).register_pc.wrapping_add(1).wrapping_add(
                    sign_extend(rd.1),
                )
                &&& final(self).register_a == old(self).register_a
                &&& final(self).register_x == old(self).register_x
                &&& final(self).register_y == old(self).register_y
                &&& final(self).register_sp == old(self).register_sp
                &&& final(self).register_p == old(self).register_p
            }),
    {
        let v = self.register_p.contains(OVERFLOW);
        self.branch(!v);
    }

    pub fn bvs(&mut self)
        requires
            old(self).wf(),
        ensures
            final(self).wf(),
            !old(self).register_p.has(OVERFLOW) ==> *final(self) == *old(self),
            old(self).register_p.has(OVERFLOW) ==> ({
                let rd = bus_read(old(self).bus@, old(self).register_pc);
                &&& final(self).bus@ == rd.0
                &&& final(self).register_pc == old(self).register_pc.wrapping_add(1).wrapping_add(
                    sign_extend(rd.1),
                )
                &&& final(self).register_a == old(self).register_a
                &&& final(self).register_x == old(self).register_x
                &&& final(self).register_y == old(self).register_y
                &&& final(self).register_sp == old(self).register_sp
                &&& final(self).register_p == old(self).register_p
            }),
    {
        let v = self.register_p.contains(OVERFLOW);
        self.branch(v);
    }

    /// Bit test: zero from the masked accumulator, negative and overflow
    /// copied from bits 7 and 6 of the operand.
    pub fn bit(&mut self, mode: AddressingMode)
        requires
            old(self).wf(),
            mode != AddressingMode::NoneAddressing,
        ensures
            final(self).wf(),
            ({
                let s = resolve_op(
                    old(self).bus@,
                    old(self).register_x,
                    old(self).register_y,
                    old(self).register_pc,
                    mode,
                );
                let rd = bus_read(s.0, s.1);
                &&& final(self).bus@ == rd.0
                &&& final(self).register_p.bits == set_bit(
                    set_bit(
                        set_bit(old(self).register_p.bits, ZERO, old(self).register_a & rd.1 == 0),
                        NEGATIVE,
                        rd.1 & 0x80 != 0,
                    ),
                    OVERFLOW,
                    rd.1 & 0x40 != 0,
                )
            }),
            Self::same_regs(*old(self), *final(self)),
    {
        let addr = self.get_operand_address(mode);
        let value = self.memory_read(addr);
        let and = self.register_a & value;
        if and == 0 {
            self.register_p.insert(ZERO);
        } else {
            self.register_p.remove(ZERO);
        }

        self.register_p.set(NEGATIVE, value & 0b1000_0000 > 0);
        self.register_p.set(OVERFLOW, value & 0b0100_0000 > 0);
    }

    pub fn jmp_absolute(&mut self)
        requires
            old(self).wf(),
        ensures
            final(self).wf(),
            ({
                let rd = bus_read16(old(self).bus@, old(self).register_pc);
                &&& final(self).bus@ == rd.0
                &&& final(self).register_pc == rd.1
            }),
            final(self).register_a == old(self).register_a,
            final(self).register_x == old(self).register_x,
            final(self).register_y == old(self).register_y,
            final(self).register_sp == old(self).register_sp,
            final(self).register_p == old(self).register_p,
    {
        let addr = self.memory_read_u16(self.register_pc);
        self.register_pc = addr;
    }

    /// Indirect jump, reproducing the hardware quirk: a pointer on a page
    /// boundary takes its high byte from the start of the same page.
    pub fn jmp_indirect(&mut self)
        requires
            old(self).wf(),
        ensures
            final(self).wf(),
            ({
                let rd = bus_read16(old(self).bus@, old(self).register_pc);
                let target = if rd.1 & 0x00FF == 0x00FF {
                    let lo = bus_read(rd.0, rd.1);
                    let hi = bus_read(lo.0, rd.1 & 0xFF00);
                    (hi.0, (((hi.1 as u16) << 8) | (lo.1 as u16)))
                } else {
                    bus_read16(rd.0, rd.1)
                };
                &&& final(self).bus@ == target.0
                &&& final(self).register_pc == target.1
            }),
            final(self).register_a == old(self).register_a,
            final(self).register_x == old(self).register_x,
            final(self).register_y == old(self).register_y,
            final(self).register_sp == old(self).register_sp,
            final(self).register_p == old(self).register_p,
    {
        let addr = self.memory_read_u16(self.register_pc);

        let target = if addr & 0x00FF == 0x00FF {
            let lo = self.memory_read(addr);
            let hi = self.memory_read(addr & 0xFF00);
            ((hi as u16) << 8) | (lo as u16)
        } else {
            self.memory_read_u16(addr)
        };

        self.register_pc = target;
    }

    /// Call: pushes the address of the last byte of the instruction, then
    /// jumps to the operand address.
    pub fn jsr(&mut self)
        requires
            old(self).wf(),
        ensures
            final(self).wf(),
            ({
                let pushed = bus_write(
                    bus_write(
                        old(self).bus@,
                        (STACK + old(self).register_sp as u16) as u16,
                        (old(self).register_pc.wrapping_add(1) >> 8) as u8,
                    ),
                    (STACK + old(self).register_sp.wrapping_sub(1) as u16) as u16,
                    (old(self).register_pc.wrapping_add(1) & 0xff) as u8,
                );
                let rd = bus_read16(pushed, old(self).register_pc);
                &&& final(self).bus@ == rd.0
                &&& final(self).register_pc == rd.1
            }),
            final(self).register_sp == old(self).register_sp.wrapping_sub(2),
            final(self).register_a == old(self).register_a,
            final(self).register_x == old(self).register_x,
            final(self).register_y == old(self).register_y,
            final(self).register_p == old(self).register_p,
    {
        let ret = self.register_pc.wrapping_add(1);
        self.stack_push_u16(ret);
        let target = self.memory_read_u16(self.register_pc);
        self.register_pc = target;
    }

    /// Return from a call: pops the saved address and resumes one byte
    /// after it.
    pub fn rts(&mut self)
        requires
            old(self).wf(),
        ensures
            final(self).wf(),
            ({
                let lo = bus_read(
                    old(self).bus@,
                    (STACK + old(self).register_sp.wrapping_add(1) as u16) as u16,
                );
                let hi = bus_read(
                    lo.0,
                    (STACK + old(self).register_sp.wrapping_add(2) as u16) as u16,
                );
                &&& final(self).bus@ == hi.0
                &&& final(self).register_pc == ((((hi.1 as u16) << 8) | (lo.1 as u16))).wrapping_add(
                    1,
                )
            }),
            final(self).register_sp == old(self).register_sp.wrapping_add(2),
            final(self).register_a == old(self).register_a,
            final(self).register_x == old(self).register_x,
            final(self).register_y == old(self).register_y,
            final(self).register_p == old(self).register_p,
    {
        let addr = self.stack_pop_u16();
        self.register_pc = addr.wrapping_add(1);
    }

    pub fn pha(&mut self)
        requires
            old(self).wf(),
        ensures
            final(self).wf(),
            final(self).register_sp == old(self).register_sp.wrapping_sub(1),
            final(self).bus@ == bus_write(
                old(self).bus@,
                (STACK + old(self).register_sp as u16) as u16,
                old(self).register_a,
            ),
            final(self).register_a == old(self).register_a,
            final(self).register_x == old(self).register_x,
            final(self).register_y == old(self).register_y,
            final(self).register_pc == old(self).register_pc,
            final(self).register_p == old(self).register_p,
    {
        let a = self.register_a;
        self.stack_push(a);
    }

    /// Pushes the status byte with the break and unused bits forced set,
    /// as the hardware does.
    pub fn php(&mut self)
        requires
            old(self).wf(),
        ensures
            final(self).wf(),
            final(self).register_sp == old(self).register_sp.wrapping_sub(1),
            final(self).bus@ == bus_write(
                old(self).bus@,
                (STACK + old(self).register_sp as u16) as u16,
                old(self).register_p.bits | BREAK | UNUSED,
            ),
            final(self).register_a == old(self).register_a,
            final(self).register_x == old(self).register_x,
            final(self).register_y == old(self).register_y,
            final(self).register_pc == old(self).register_pc,
            final(self).register_p == old(self).register_p,
    {
        let mut flags = self.register_p;
        flags.insert(BREAK);
        flags.insert(UNUSED);
        self.stack_push(flags.bits);
    }

    pub fn pla(&mut self)
        requires
            old(self).wf(),
        ensures
            final(self).wf(),
            final(self).register_sp == old(self).register_sp.wrapping_add(1),
            ({
                let rd = bus_read(
                    old(self).bus@,
                    (STACK + old(self).register_sp.wrapping_add(1) as u16) as u16,
                );
                &&& final(self).bus@ == rd.0
                &&& final(self).register_a == rd.1
                &&& final(self).register_p.bits == zn_update(old(self).register_p.bits, rd.1)
            }),
            final(self).register_x == old(self).register_x,
            final(self).register_y == old(self).register_y,
            final(self).register_pc == old(self).register_pc,
    {
        let value = self.stack_pop();
        self.set_register_a(value);
    }

    /// Pulls the status byte with the break bit cleared and the unused bit
    /// forced set, as the hardware does.
    pub fn plp(&mut self)
        requires
            old(self).wf(),
        ensures
            final(self).wf(),
            final(self).register_sp == old(self).register_sp.wrapping_add(1),
            ({
                let rd = bus_read(
                    old(self).bus@,
                    (STACK + old(self).register_sp.wrapping_add(1) as u16) as u16,
                );
                &&& final(self).bus@ == rd.0
                &&& final(self).register_p.bits == ((rd.1 & !BREAK) | UNUSED)
            }),
            final(self).register_a == old(self).register_a,
            final(self).register_x == old(self).register_x,
            final(self).register_y == old(self).register_y,
            final(self).register_pc == old(self).register_pc,
    {
        let value = self.stack_pop();
        self.register_p = CpuFlags { bits: value };
        self.register_p.remove(BREAK);
        self.register_p.insert(UNUSED);
    }

    /// Return from interrupt: pulls the status byte, then the counter.
    pub fn rti(&mut self)
        requires
            old(self).wf(),
        ensures
            final(self).wf(),
            final(self).register_sp == old(self).register_sp.wrapping_add(3),
            ({
                let p = bus_read(
                    old(self).bus@,
                    (STACK + old(self).register_sp.wrapping_add(1) as u16) as u16,
                );
                let lo = bus_read(
                    p.0,
                    (STACK + old(self).register_sp.wrapping_add(2) as u16) as u16,
                );
                let hi = bus_read(
                    lo.0,
                    (STACK + old(self).register_sp.wrapping_add(3) as u16) as u16,
                );
                &&& final(self).bus@ == hi.0
                &&& final(self).register_p.bits == ((p.1 & !BREAK) | UNUSED)
                &&& final(self).register_pc == (((hi.1 as u16) << 8) | (lo.1 as u16))
            }),
            final(self).register_a == old(self).register_a,
            final(self).register_x == old(self).register_x,
            final(self).register_y == old(self).register_y,
    {
        let value = self.stack_pop();
        self.register_p = CpuFlags { bits: value };
        self.register_p.remove(BREAK);
        self.register_p.insert(UNUSED);

        let addr = self.stack_pop_u16();
        self.register_pc = addr;
    }
}

} // verus!

verus! {

impl CPU {
    pub fn asl_accumulator(&mut self)
        ensures
            final(self).register_a == (old(self).register_a << 1),
            final(self).register_p.bits == zn_update(
                set_bit(old(self).register_p.bits, CARRY, old(self).register_a & 0x80 != 0),
                old(self).register_a << 1,
            ),
            final(self).register_x == old(self).register_x,
            final(self).register_y == old(self).register_y,
            final(self).register_sp == old(self).register_sp,
            final(self).register_pc == old(self).register_pc,
            final(self).bus == old(self).bus,
    {
        let value = self.register_a;
        if value >> 7 == 1 {
            self.set_carry_flag();
        } else {
            self.clear_carry_flag();
        }
        proof {
            assert((value >> 7 == 1) == (value & 0x80 != 0)) by (bit_vector);
        }
        self.set_register_a(value << 1);
    }

    /// Arithmetic shift left in memory: carry takes the old bit 7, zero
    /// and negative follow the shifted value.
    pub fn asl(&mut self, mode: AddressingMode) -> (r: Result<u8, BusFault>)
        requires
            old(self).wf(),
            mode != AddressingMode::NoneAddressing,
        ensures
            final(self).wf(),
            ({
                let s = resolve_op(
                    old(self).bus@,
                    old(self).register_x,
                    old(self).register_y,
                    old(self).register_pc,
                    mode,
                );
                let rd = bus_read(s.0, s.1);
                let nv = rd.1 << 1;
                &&& (r is Ok <==> writable(s.1))
                &&& (writable(s.1) ==> {
                    &&& r == Result::<u8, BusFault>::Ok(nv)
                    &&& final(self).bus@ == bus_write(rd.0, s.1, nv)
                    &&& final(self).register_p.bits == zn_update(
                        set_bit(old(self).register_p.bits, CARRY, rd.1 & 0x80 != 0),
                        nv,
                    )
                })
                &&& (!writable(s.1) ==> {
                    &&& r == Result::<u8, BusFault>::Err(write_fault(s.1))
                    &&& final(self).bus@ == rd.0
                    &&& final(self).register_p == old(self).register_p
                })
            }),
            Self::same_regs(*old(self), *final(self)),
    {
        let addr = self.get_operand_address(mode);
        let value = self.memory_read(addr);
        let nv = value << 1;
        match self.memory_write(addr, nv) {
            Err(e) => return Err(e),
            Ok(()) => {},
        }
        if value >> 7 == 1 {
            self.set_carry_flag();
        } else {
            self.clear_carry_flag();
        }
        proof {
            assert((value >> 7 == 1) == (value & 0x80 != 0)) by (bit_vector);
        }
        self.update_zero_and_negative_flags(nv);
        Ok(nv)
    }

    pub fn lsr_accumulator(&mut self)
        ensures
            final(self).register_a == (old(self).register_a >> 1),
            final(self).register_p.bits == zn_update(
                set_bit(old(self).register_p.bits, CARRY, old(self).register_a & 1 == 1),
                old(self).register_a >> 1,
            ),
            final(self).register_x == old(self).register_x,
            final(self).register_y == old(self).register_y,
            final(self).register_sp == old(self).register_sp,
            final(self).register_pc == old(self).register_pc,
            final(self).bus == old(self).bus,
    {
        let value = self.register_a;
        if value & 1 == 1 {
            self.set_carry_flag();
        } else {
            self.clear_carry_flag();
        }
        self.set_register_a(value >> 1);
    }

    /// Logical shift right in memory: carry takes the old bit 0.
    pub fn lsr(&mut self, mode: AddressingMode) -> (r: Result<u8, BusFault>)
        requires
            old(self).wf(),
            mode != AddressingMode::NoneAddressing,
        ensures
            final(self).wf(),
            ({
                let s = resolve_op(
                    old(self).bus@,
                    old(self).register_x,
                    old(self).register_y,
                    old(self).register_pc,
                    mode,
                );
                let rd = bus_read(s.0, s.1);
                let nv = rd.1 >> 1;
                &&& (r is Ok <==> writable(s.1))
                &&& (writable(s.1) ==> {
                    &&& r == Result::<u8, BusFault>::Ok(nv)
                    &&& final(self).bus@ == bus_write(rd.0, s.1, nv)
                    &&& final(self).register_p.bits == zn_update(
                        set_bit(old(self).register_p.bits, CARRY, rd.1 & 1 == 1),
                        nv,
                    )
                })
                &&& (!writable(s.1) ==> {
                    &&& r == Result::<u8, BusFault>::Err(write_fault(s.1))
                    &&& final(self).bus@ == rd.0
                    &&& final(self).register_p == old(self).register_p
                })
            }),
            Self::same_regs(*old(self), *final(self)),
    {
        let addr = self.get_operand_address(mode);
        let value = self.memory_read(addr);
        let nv = value >> 1;
        match self.memory_write(addr, nv) {
            Err(e) => return Err(e),
            Ok(()) => {},
        }
        if value & 1 == 1 {
            self.set_carry_flag();
        } else {
            self.clear_carry_flag();
        }
        self.update_zero_and_negative_flags(nv);
        Ok(nv)
    }

    pub fn rol_accumulator(&mut self)
        ensures
            ({
                let nv = if old(self).register_p.has(CARRY) {
                    (old(self).register_a << 1) | 1u8
                } else {
                    old(self).register_a << 1
                };
                &&& final(self).register_a == nv
                &&& final(self).register_p.bits == zn_update(
                    set_bit(old(self).register_p.bits, CARRY, old(self).register_a & 0x80 != 0),
                    nv,
                )
            }),
            final(self).register_x == old(self).register_x,
            final(self).register_y == old(self).register_y,
            final(self).register_sp == old(self).register_sp,
            final(self).register_pc == old(self).register_pc,
            final(self).bus == old(self).bus,
    {
        let mut value = self.register_a;
        let old_carry = self.register_p.contains(CARRY);

        if value >> 7 == 1 {
            self.set_carry_flag();
        } else {
            self.clear_carry_flag();
        }
        proof {
            assert((value >> 7 == 1) == (value & 0x80 != 0)) by (bit_vector);
        }
        value = value << 1;
        if old_carry {
            value = value | 1;
        }
        self.set_register_a(value);
    }

    /// Rotate left in memory: bit 7 moves to carry, the old carry enters
    /// at bit 0; zero and negative follow the rotated value.
    pub fn rol(&mut self, mode: AddressingMode) -> (r: Result<u8, BusFault>)
        requires
            old(self).wf(),
            mode != AddressingMode::NoneAddressing,
        ensures
            final(self).wf(),
            ({
                let s = resolve_op(
                    old(self).bus@,
                    old(self).register_x,
                    old(self).register_y,
                    old(self).register_pc,
                    mode,
                );
                let rd = bus_read(s.0, s.1);
                let nv = if old(self).register_p.has(CARRY) {
                    (rd.1 << 1) | 1u8
                } else {
                    rd.1 << 1
                };
                &&& (r is Ok <==> writable(s.1))
                &&& (writable(s.1) ==> {
                    &&& r == Result::<u8, BusFault>::Ok(nv)
                    &&& final(self).bus@ == bus_write(rd.0, s.1, nv)
                    &&& final(self).register_p.bits == zn_update(
                        set_bit(old(self).register_p.bits, CARRY, rd.1 & 0x80 != 0),
                        nv,
                    )
                })
                &&& (!writable(s.1) ==> {
                    &&& r == Result::<u8, BusFault>::Err(write_fault(s.1))
                    &&& final(self).bus@ == rd.0
                    &&& final(self).register_p == old(self).register_p
                })
            }),
            Self::same_regs(*old(self), *final(self)),
    {
        let addr = self.get_operand_address(mode);
        let value = self.memory_read(addr);
        let old_carry = self.register_p.contains(CARRY);
        let nv = if old_carry {
            (value << 1) | 1
        } else {
            value << 1
        };
        match self.memory_write(addr, nv) {
            Err(e) => return Err(e),
            Ok(()) => {},
        }
        if value >> 7 == 1 {
            self.set_carry_flag();
        } else {
            self.clear_carry_flag();
        }
        proof {
            assert((value >> 7 == 1) == (value & 0x80 != 0)) by (bit_vector);
        }
        self.update_zero_and_negative_flags(nv);
        Ok(nv)
    }

    pub fn ror_accumulator(&mut self)
        ensures
            ({
                let nv = if old(self).register_p.has(CARRY) {
                    (old(self).register_a >> 1) | 0x80u8
                } else {
                    old(self).register_a >> 1
                };
                &&& final(self).register_a == nv
                &&& final(self).register_p.bits == zn_update(
                    set_bit(old(self).register_p.bits, CARRY, old(self).register_a & 1 == 1),
                    nv,
                )
            }),
            final(self).register_x == old(self).register_x,
            final(self).register_y == old(self).register_y,
            final(self).register_sp == old(self).register_sp,
            final(self).register_pc == old(self).register_pc,
            final(self).bus == old(self).bus,
    {
        let mut value = self.register_a;
        let old_carry = self.register_p.contains(CARRY);

        if value & 1 == 1 {
            self.set_carry_flag();
        } else {
            self.clear_carry_flag();
        }
        value = value >> 1;
        if old_carry {
            value = value | 0b1000_0000;
        }
        self.set_register_a(value);
    }

    /// Rotate right in memory: bit 0 moves to carry, the old carry enters
    /// at bit 7; zero and negative follow the rotated value.
    pub fn ror(&mut self, mode: AddressingMode) -> (r: Result<u8, BusFault>)
        requires
            old(self).wf(),
            mode != AddressingMode::NoneAddressing,
        ensures
            final(self).wf(),
            ({
                let s = resolve_op(
                    old(self).bus@,
                    old(self).register_x,
                    old(self).register_y,
                    old(self).register_pc,
                    mode,
                );
                let rd = bus_read(s.0, s.1);
                let nv = if old(self).register_p.has(CARRY) {
                    (rd.1 >> 1) | 0x80u8
                } else {
                    rd.1 >> 1
                };
                &&& (r is Ok <==> writable(s.1))
                &&& (writable(s.1) ==> {
                    &&& r == Result::<u8, BusFault>::Ok(nv)
                    &&& final(self).bus@ == bus_write(rd.0, s.1, nv)
                    &&& final(self).register_p.bits == zn_update(
                        set_bit(old(self).register_p.bits, CARRY, rd.1 & 1 == 1),
                        nv,
                    )
                })
                &&& (!writable(s.1) ==> {
                    &&& r == Result::<u8, BusFault>::Err(write_fault(s.1))
                    &&& final(self).bus@ == rd.0
                    &&& final(self).register_p == old(self).register_p
                })
            }),
            Self::same_regs(*old(self), *final(self)),
    {
        let addr = self.get_operand_address(mode);
        let value = self.memory_read(addr);
        let old_carry = self.register_p.contains(CARRY);
        let nv = if old_carry {
            (value >> 1) | 0b1000_0000
        } else {
            value >> 1
        };
        match self.memory_write(addr, nv) {
            Err(e) => return Err(e),
            Ok(()) => {},
        }
        if value & 1 == 1 {
            self.set_carry_flag();
        } else {
            self.clear_carry_flag();
        }
        self.update_zero_and_negative_flags(nv);
        Ok(nv)
    }

    pub fn inc(&mut self, mode: AddressingMode) -> (r: Result<u8, BusFault>)
        requires
            old(self).wf(),
            mode != AddressingMode::NoneAddressing,
        ensures
            final(self).wf(),
            ({
                let s = resolve_op(
                    old(self).bus@,
                    old(self).register_x,
                    old(self).register_y,
                    old(self).register_pc,
                    mode,
                );
                let rd = bus_read(s.0, s.1);
                let nv = rd.1.wrapping_add(1);
                &&& (r is Ok <==> writable(s.1))
                &&& (writable(s.1) ==> {
                    &&& r == Result::<u8, BusFault>::Ok(nv)
                    &&& final(self).bus@ == bus_write(rd.0, s.1, nv)
                    &&& final(self).register_p.bits == zn_update(old(self).register_p.bits, nv)
                })
                &&& (!writable(s.1) ==> {
                    &&& r == Result::<u8, BusFault>::Err(write_fault(s.1))
                    &&& final(self).bus@ == rd.0
                    &&& final(self).register_p == old(self).register_p
                })
            }),
            Self::same_regs(*old(self), *final(self)),
    {
        let addr = self.get_operand_address(mode);
        let value = self.memory_read(addr);
        let nv = value.wrapping_add(1);
        match self.memory_write(addr, nv) {
            Err(e) => return Err(e),
            Ok(()) => {},
        }
        self.update_zero_and_negative_flags(nv);
        Ok(nv)
    }

    pub fn dec(&mut self, mode: AddressingMode) -> (r: Result<u8, BusFault>)
        requires
            old(self).wf(),
            mode != AddressingMode::NoneAddressing,
        ensures
            final(self).wf(),
            ({
                let s = resolve_op(
                    old(self).bus@,
                    old(self).register_x,
                    old(self).register_y,
                    old(self).register_pc,
                    mode,
                );
                let rd = bus_read(s.0, s.1);
                let nv = rd.1.wrapping_sub(1);
                &&& (r is Ok <==> writable(s.1))
                &&& (writable(s.1) ==> {
                    &&& r == Result::<u8, BusFault>::Ok(nv)
                    &&& final(self).bus@ == bus_write(rd.0, s.1, nv)
                    &&& final(self).register_p.bits == zn_update(old(self).register_p.bits, nv)
                })
                &&& (!writable(s.1) ==> {
                    &&& r == Result::<u8, BusFault>::Err(write_fault(s.1))
                    &&& final(self).bus@ == rd.0
                    &&& final(self).register_p == old(self).register_p
                })
            }),
            Self::same_regs(*old(self), *final(self)),
    {
        let addr = self.get_operand_address(mode);
        let value = self.memory_read(addr);
        let nv = value.wrapping_sub(1);
        match self.memory_write(addr, nv) {
            Err(e) => return Err(e),
            Ok(()) => {},
        }
        self.update_zero_and_negative_flags(nv);
        Ok(nv)
    }

    /// Services the graphics unit's interrupt: saves the counter and a
    /// status byte with break clear and unused set, blocks further
    /// interrupts, spends two cycles, and jumps through the vector at
    /// 0xFFFA. The result reports a frame completed by those cycles.
    pub fn interrupt_nmi(&mut self) -> (frame: bool)
        requires
            old(self).wf(),
        ensures
            final(self).wf(),
            ({
                let b1 = bus_write(
                    bus_write(
                        old(self).bus@,
                        (STACK + old(self).register_sp as u16) as u16,
                        (old(self).register_pc >> 8) as u8,
                    ),
                    (STACK + old(self).register_sp.wrapping_sub(1) as u16) as u16,
                    (old(self).register_pc & 0xff) as u8,
                );
                let b2 = bus_write(
                    b1,
                    (STACK + old(self).register_sp.wrapping_sub(2) as u16) as u16,
                    (old(self).register_p.bits & !BREAK) | UNUSED,
                );
                let t = bus_tick(b2, 2);
                let rd = bus_read16(t.0, 0xFFFA);
                &&& final(self).bus@ == rd.0
                &&& final(self).register_pc == rd.1
                &&& frame == t.1
            }),
            final(self).register_sp == old(self).register_sp.wrapping_sub(3),
            final(self).register_p.bits == (old(self).register_p.bits | INTERRUPT_DISABLE),
            final(self).register_a == old(self).register_a,
            final(self).register_x == old(self).register_x,
            final(self).register_y == old(self).register_y,
            (final(self).spec_state(), frame) == nmi_spec(old(self).spec_state()),
    {
        let pc = self.register_pc;
        self.stack_push_u16(pc);
        let mut flag = self.register_p;
        flag.set(BREAK, false);
        flag.set(UNUSED, true);

        self.stack_push(flag.bits);
        self.register_p.insert(INTERRUPT_DISABLE);

        let interrupt = Interrupt::nmi();
        let frame = self.bus.tick(interrupt.cpu_cycles);
        self.register_pc = self.memory_read_u16(interrupt.vector_address);
        proof {
            let p = old(self).register_p.bits;
            assert(set_bit(set_bit(p, BREAK, false), UNUSED, true) == ((p & !BREAK) | UNUSED));
        }
        frame
    }

    /// Spends the instruction's base cycles and, when the handler did not
    /// itself move the counter, advances it past the operand bytes. The
    /// result reports a frame completed by those cycles.
    pub fn update_pc(&mut self, opcode: &crate::assembly::OpCode, pc_state: u16) -> (frame: bool)
        requires
            old(self).wf(),
            opcode.cycles <= 85,
            opcode.len >= 1,
        ensures
            final(self).wf(),
            ({
                let t = bus_tick(old(self).bus@, opcode.cycles);
                final(self).bus@ == t.0 && frame == t.1
            }),
            final(self).register_pc == if pc_state == old(self).register_pc {
                old(self).register_pc.wrapping_add((opcode.len - 1) as u16)
            } else {
                old(self).register_pc
            },
            final(self).register_a == old(self).register_a,
            final(self).register_x == old(self).register_x,
            final(self).register_y == old(self).register_y,
            final(self).register_sp == old(self).register_sp,
            final(self).register_p == old(self).register_p,
    {
        let frame = self.bus.tick(opcode.cycles);

        if pc_state == self.register_pc {
            self.register_pc = self.register_pc.wrapping_add((opcode.len - 1) as u16);
        }
        frame
    }
}

} // verus!

verus! {

impl CPU {
    /// Combined decrement-then-compare (undocumented): the operand is
    /// decremented with wraparound, written back, and compared against the
    /// accumulator with the usual compare flags.
    pub fn dcp(&mut self, mode: AddressingMode) -> (r: Result<(), BusFault>)
        requires
            old(self).wf(),
            mode != AddressingMode::NoneAddressing,
        ensures
            final(self).wf(),
            ({
                let s = resolve_op(
                    old(self).bus@,
                    old(self).register_x,
                    old(self).register_y,
                    old(self).register_pc,
                    mode,
                );
                let rd = bus_read(s.0, s.1);
                let nv = rd.1.wrapping_sub(1);
                &&& (r is Ok <==> writable(s.1))
                &&& (writable(s.1) ==> {
                    &&& final(self).bus@ == bus_write(rd.0, s.1, nv)
                    &&& final(self).register_p.bits == compare_spec(
                        old(self).register_p.bits,
                        nv,
                        old(self).register_a,
                    )
                })
                &&& (!writable(s.1) ==> {
                    &&& r == Result::<(), BusFault>::Err(write_fault(s.1))
                    &&& final(self).bus@ == rd.0
                    &&& final(self).register_p == old(self).register_p
                })
            }),
            Self::same_regs(*old(self), *final(self)),
    {
        let addr = self.get_operand_address(mode);
        let value = self.memory_read(addr);
        let nv = value.wrapping_sub(1);
        match self.memory_write(addr, nv) {
            Err(e) => return Err(e),
            Ok(()) => {},
        }
        if nv <= self.register_a {
            self.register_p.insert(CARRY);
        } else {
            self.register_p.remove(CARRY);
        }
        let a = self.register_a;
        self.update_zero_and_negative_flags(a.wrapping_sub(nv));
        Ok(())
    }

    /// Combined rotate-left-then-AND (undocumented).
    pub fn rla(&mut self, mode: AddressingMode) -> (r: Result<(), BusFault>)
        requires
            old(self).wf(),
            mode != AddressingMode::NoneAddressing,
        ensures
            final(self).wf(),
            ({
                let s = resolve_op(
                    old(self).bus@,
                    old(self).register_x,
                    old(self).register_y,
                    old(self).register_pc,
                    mode,
                );
                let rd = bus_read(s.0, s.1);
                let nv = if old(self).register_p.has(CARRY) {
                    (rd.1 << 1) | 1u8
                } else {
                    rd.1 << 1
                };
                &&& (r is Ok <==> writable(s.1))
                &&& (writable(s.1) ==> {
                    &&& final(self).bus@ == bus_write(rd.0, s.1, nv)
                    &&& final(self).register_a == (nv & old(self).register_a)
                    &&& final(self).register_p.bits == zn_update(
                        zn_update(
                            set_bit(old(self).register_p.bits, CARRY, rd.1 & 0x80 != 0),
                            nv,
                        ),
                        nv & old(self).register_a,
                    )
                })
                &&& (!writable(s.1) ==> {
                    &&& r == Result::<(), BusFault>::Err(write_fault(s.1))
                    &&& final(self).bus@ == rd.0
                    &&& final(self).register_p == old(self).register_p
                    &&& final(self).register_a == old(self).register_a
                })
            }),
            final(self).register_x == old(self).register_x,
            final(self).register_y == old(self).register_y,
            final(self).register_sp == old(self).register_sp,
            final(self).register_pc == old(self).register_pc,
    {
        let value = match self.rol(mode) {
            Err(e) => return Err(e),
            Ok(v) => v,
        };
        let a = self.register_a;
        self.set_register_a(value & a);
        Ok(())
    }

    /// Combined shift-left-then-OR (undocumented).
    pub fn slo(&mut self, mode: AddressingMode) -> (r: Result<(), BusFault>)
        requires
            old(self).wf(),
            mode != AddressingMode::NoneAddressing,
        ensures
            final(self).wf(),
            ({
                let s = resolve_op(
                    old(self).bus@,
                    old(self).register_x,
                    old(self).register_y,
                    old(self).register_pc,
                    mode,
                );
                let rd = bus_read(s.0, s.1);
                let nv = rd.1 << 1;
                &&& (r is Ok <==> writable(s.1))
                &&& (writable(s.1) ==> {
                    &&& final(self).bus@ == bus_write(rd.0, s.1, nv)
                    &&& final(self).register_a == (nv | old(self).register_a)
                    &&& final(self).register_p.bits == zn_update(
                        zn_update(
                            set_bit(old(self).register_p.bits, CARRY, rd.1 & 0x80 != 0),
                            nv,
                        ),
                        nv | old(self).register_a,
                    )
                })
                &&& (!writable(s.1) ==> {
                    &&& r == Result::<(), BusFault>::Err(write_fault(s.1))
                    &&& final(self).bus@ == rd.0
                    &&& final(self).register_p == old(self).register_p
                    &&& final(self).register_a == old(self).register_a
                })
            }),
            final(self).register_x == old(self).register_x,
            final(self).register_y == old(self).register_y,
            final(self).register_sp == old(self).register_sp,
            final(self).register_pc == old(self).register_pc,
    {
        let value = match self.asl(mode) {
            Err(e) => return Err(e),
            Ok(v) => v,
        };
        let a = self.register_a;
        self.set_register_a(value | a);
        Ok(())
    }

    /// Combined shift-right-then-XOR (undocumented).
    pub fn sre(&mut self, mode: AddressingMode) -> (r: Result<(), BusFault>)
        requires
            old(self).wf(),
            mode != AddressingMode::NoneAddressing,
        ensures
            final(self).wf(),
            ({
                let s = resolve_op(
                    old(self).bus@,
                    old(self).register_x,
                    old(self).register_y,
                    old(self).register_pc,
                    mode,
                );
                let rd = bus_read(s.0, s.1);
                let nv = rd.1 >> 1;
                &&& (r is Ok <==> writable(s.1))
                &&& (writable(s.1) ==> {
                    &&& final(self).bus@ == bus_write(rd.0, s.1, nv)
                    &&& final(self).register_a == (nv ^ old(self).register_a)
                    &&& final(self).register_p.bits == zn_update(
                        zn_update(
                            set_bit(old(self).register_p.bits, CARRY, rd.1 & 1 == 1),
                            nv,
                        ),
                        nv ^ old(self).register_a,
                    )
                })
                &&& (!writable(s.1) ==> {
                    &&& r == Result::<(), BusFault>::Err(write_fault(s.1))
                    &&& final(self).bus@ == rd.0
                    &&& final(self).register_p == old(self).register_p
                    &&& final(self).register_a == old(self).register_a
                })
            }),
            final(self).register_x == old(self).register_x,
            final(self).register_y == old(self).register_y,
            final(self).register_sp == old(self).register_sp,
            final(self).register_pc == old(self).register_pc,
    {
        let value = match self.lsr(mode) {
            Err(e) => return Err(e),
            Ok(v) => v,
        };
        let a = self.register_a;
        self.set_register_a(value ^ a);
        Ok(())
    }

    /// Combined rotate-right-then-add (undocumented).
    pub fn rra(&mut self, mode: AddressingMode) -> (r: Result<(), BusFault>)
        requires
            old(self).wf(),
            mode != AddressingMode::NoneAddressing,
        ensures
            final(self).wf(),
            ({
                let s = resolve_op(
                    old(self).bus@,
                    old(self).register_x,
                    old(self).register_y,
                    old(self).register_pc,
                    mode,
                );
                let rd = bus_read(s.0, s.1);
                let nv = if old(self).register_p.has(CARRY) {
                    (rd.1 >> 1) | 0x80u8
                } else {
                    rd.1 >> 1
                };
                let p1 = zn_update(
                    set_bit(old(self).register_p.bits, CARRY, rd.1 & 1 == 1),
                    nv,
                );
                &&& (r is Ok <==> writable(s.1))
                &&& (writable(s.1) ==> {
                    &&& final(self).bus@ == bus_write(rd.0, s.1, nv)
                    &&& (final(self).register_a, final(self).register_p.bits) == adc_spec(
                        old(self).register_a,
                        nv,
                        p1,
                    )
                })
                &&& (!writable(s.1) ==> {
                    &&& r == Result::<(), BusFault>::Err(write_fault(s.1))
                    &&& final(self).bus@ == rd.0
                    &&& final(self).register_p == old(self).register_p
                    &&& final(self).register_a == old(self).register_a
                })
            }),
            final(self).register_x == old(self).register_x,
            final(self).register_y == old(self).register_y,
            final(self).register_sp == old(self).register_sp,
            final(self).register_pc == old(self).register_pc,
    {
        let value = match self.ror(mode) {
            Err(e) => return Err(e),
            Ok(v) => v,
        };
        self.add_to_register_a(value);
        Ok(())
    }

    /// Combined increment-then-subtract (undocumented).
    pub fn isb(&mut self, mode: AddressingMode) -> (r: Result<(), BusFault>)
        requires
            old(self).wf(),
            mode != AddressingMode::NoneAddressing,
        ensures
            final(self).wf(),
            ({
                let s = resolve_op(
                    old(self).bus@,
                    old(self).register_x,
                    old(self).register_y,
                    old(self).register_pc,
                    mode,
                );
                let rd = bus_read(s.0, s.1);
                let nv = rd.1.wrapping_add(1);
                &&& (r is Ok <==> writable(s.1))
                &&& (writable(s.1) ==> {
                    &&& final(self).bus@ == bus_write(rd.0, s.1, nv)
                    &&& (final(self).register_a, final(self).register_p.bits) == sbc_spec(
                        old(self).register_a,
                        nv,
                        zn_update(old(self).register_p.bits, nv),
                    )
                })
                &&& (!writable(s.1) ==> {
                    &&& r == Result::<(), BusFault>::Err(write_fault(s.1))
                    &&& final(self).bus@ == rd.0
                    &&& final(self).register_p == old(self).register_p
                    &&& final(self).register_a == old(self).register_a
                })
            }),
            final(self).register_x == old(self).register_x,
            final(self).register_y == old(self).register_y,
            final(self).register_sp == old(self).register_sp,
            final(self).register_pc == old(self).register_pc,
    {
        let value = match self.inc(mode) {
            Err(e) => return Err(e),
            Ok(v) => v,
        };
        self.sub_from_register_a(value);
        Ok(())
    }

    /// AND of X and the accumulator minus the operand into X
    /// (undocumented), with compare-style carry.
    pub fn axs(&mut self, mode: AddressingMode)
        requires
            old(self).wf(),
            mode != AddressingMode::NoneAddressing,
        ensures
            final(self).wf(),
            ({
                let s = resolve_op(
                    old(self).bus@,
                    old(self).register_x,
                    old(self).register_y,
                    old(self).register_pc,
                    mode,
                );
                let rd = bus_read(s.0, s.1);
                let x_and_a = old(self).register_x & old(self).register_a;
                let result = x_and_a.wrapping_sub(rd.1);
                &&& final(self).bus@ == rd.0
                &&& final(self).register_x == result
                &&& final(self).register_p.bits == zn_update(
                    set_bit(old(self).register_p.bits, CARRY, rd.1 <= x_and_a),
                    result,
                )
            }),
            final(self).register_a == old(self).register_a,
            final(self).register_y == old(self).register_y,
            final(self).register_sp == old(self).register_sp,
            final(self).register_pc == old(self).register_pc,
    {
        let addr = self.get_operand_address(mode);
        let value = self.memory_read(addr);

        let x_and_a = self.register_x & self.register_a;
        let result = x_and_a.wrapping_sub(value);

        if value <= x_and_a {
            self.register_p.insert(CARRY);
        } else {
            self.register_p.remove(CARRY);
        }

        self.update_zero_and_negative_flags(result);

        self.register_x = result;
    }

    /// AND-then-rotate-right of the accumulator (undocumented), with carry
    /// and overflow drawn from bits 6 and 5 of the rotated result.
    pub fn arr(&mut self, mode: AddressingMode)
        requires
            old(self).wf(),
            mode != AddressingMode::NoneAddressing,
        ensures
            final(self).wf(),
            ({
                let s = resolve_op(
                    old(self).bus@,
                    old(self).register_x,
                    old(self).register_y,
                    old(self).register_pc,
                    mode,
                );
                let rd = bus_read(s.0, s.1);
                let and_val = rd.1 & old(self).register_a;
                let p1 = zn_update(old(self).register_p.bits, and_val);
                let nv = if p1 & CARRY != 0 {
                    (and_val >> 1) | 0x80u8
                } else {
                    and_val >> 1
                };
                let p2 = zn_update(set_bit(p1, CARRY, and_val & 1 == 1), nv);
                let bit_5 = (nv >> 5) & 1;
                let bit_6 = (nv >> 6) & 1;
                let p3 = set_bit(p2, CARRY, bit_6 == 1);
                let p4 = set_bit(p3, OVERFLOW, bit_5 ^ bit_6 == 1);
                &&& final(self).bus@ == rd.0
                &&& final(self).register_a == nv
                &&& final(self).register_p.bits == zn_update(p4, nv)
            }),
            final(self).register_x == old(self).register_x,
            final(self).register_y == old(self).register_y,
            final(self).register_sp == old(self).register_sp,
            final(self).register_pc == old(self).register_pc,
    {
        let addr = self.get_operand_address(mode);
        let value = self.memory_read(addr);

        let a = self.register_a;
        self.set_register_a(value & a);
        self.ror_accumulator();

        let result = self.register_a;
        let bit_5 = (result >> 5) & 1;
        let bit_6 = (result >> 6) & 1;

        if bit_6 == 1 {
            self.register_p.insert(CARRY)
        } else {
            self.register_p.remove(CARRY)
        }

        if bit_5 ^ bit_6 == 1 {
            self.register_p.insert(OVERFLOW);
        } else {
            self.register_p.remove(OVERFLOW);
        }

        self.update_zero_and_negative_flags(result);
    }

    /// The undocumented immediate subtract behaves exactly as the
    /// documented one.
    pub fn unofficial_sbc(&mut self, mode: AddressingMode)
        requires
            old(self).wf(),
            mode != AddressingMode::NoneAddressing,
        ensures
            final(self).wf(),
            ({
                let s = resolve_op(
                    old(self).bus@,
                    old(self).register_x,
                    old(self).register_y,
                    old(self).register_pc,
                    mode,
                );
                let rd = bus_read(s.0, s.1);
                &&& final(self).bus@ == rd.0
                &&& (final(self).register_a, final(self).register_p.bits) == sbc_spec(
                    old(self).register_a,
                    rd.1,
                    old(self).register_p.bits,
                )
            }),
            final(self).register_x == old(self).register_x,
            final(self).register_y == old(self).register_y,
            final(self).register_sp == old(self).register_sp,
            final(self).register_pc == old(self).register_pc,
    {
        let addr = self.get_operand_address(mode);
        let value = self.memory_read(addr);

        self.sub_from_register_a(value);
    }

    /// AND into the accumulator with carry copied from the negative flag
    /// (undocumented).
    pub fn anc(&mut self, mode: AddressingMode)
        requires
            old(self).wf(),
            mode != AddressingMode::NoneAddressing,
        ensures
            final(self).wf(),
            ({
                let s = resolve_op(
                    old(self).bus@,
                    old(self).register_x,
                    old(self).register_y,
                    old(self).register_pc,
                    mode,
                );
                let rd = bus_read(s.0, s.1);
                let p1 = zn_update(old(self).register_p.bits, rd.1 & old(self).register_a);
                &&& final(self).bus@ == rd.0
                &&& final(self).register_a == (rd.1 & old(self).register_a)
                &&& final(self).register_p.bits == set_bit(p1, CARRY, p1 & NEGATIVE != 0)
            }),
            final(self).register_x == old(self).register_x,
            final(self).register_y == old(self).register_y,
            final(self).register_sp == old(self).register_sp,
            final(self).register_pc == old(self).register_pc,
    {
        let addr = self.get_operand_address(mode);
        let value = self.memory_read(addr);

        let a = self.register_a;
        self.set_register_a(value & a);

        if self.register_p.contains(NEGATIVE) {
            self.register_p.insert(CARRY);
        } else {
            self.register_p.remove(CARRY);
        }
    }

    /// AND-then-shift-right of the accumulator (undocumented).
    pub fn alr(&mut self, mode: AddressingMode)
        requires
            old(self).wf(),
            mode != AddressingMode::NoneAddressing,
        ensures
            final(self).wf(),
            ({
                let s = resolve_op(
                    old(self).bus@,
                    old(self).register_x,
                    old(self).register_y,
                    old(self).register_pc,
                    mode,
                );
                let rd = bus_read(s.0, s.1);
                let and_val = rd.1 & old(self).register_a;
                let p1 = zn_update(old(self).register_p.bits, and_val);
                &&& final(self).bus@ == rd.0
                &&& final(self).register_a == (and_val >> 1)
                &&& final(self).register_p.bits == zn_update(
                    set_bit(p1, CARRY, and_val & 1 == 1),
                    and_val >> 1,
                )
            }),
            final(self).register_x == old(self).register_x,
            final(self).register_y == old(self).register_y,
            final(self).register_sp == old(self).register_sp,
            final(self).register_pc == old(self).register_pc,
    {
        let addr = self.get_operand_address(mode);
        let value = self.memory_read(addr);

        let a = self.register_a;
        self.set_register_a(value & a);
        self.lsr_accumulator();
    }

    /// A read-and-discard operation: the operand is fetched, with any read
    /// side effects, and thrown away (undocumented).
    pub fn nop_read(&mut self, mode: AddressingMode)
        requires
            old(self).wf(),
            mode != AddressingMode::NoneAddressing,
        ensures
            final(self).wf(),
            ({
                let s = resolve_op(
                    old(self).bus@,
                    old(self).register_x,
                    old(self).register_y,
                    old(self).register_pc,
                    mode,
                );
                let rd = bus_read(s.0, s.1);
                final(self).bus@ == rd.0
            }),
            Self::same_regs(*old(self), *final(self)),
            final(self).register_p == old(self).register_p,
    {
        let addr = self.get_operand_address(mode);
        let _value = self.memory_read(addr);
    }

    /// Load into both the accumulator and index X (undocumented).
    pub fn lax(&mut self, mode: AddressingMode)
        requires
            old(self).wf(),
            mode != AddressingMode::NoneAddressing,
        ensures
            final(self).wf(),
            ({
                let s = resolve_op(
                    old(self).bus@,
                    old(self).register_x,
                    old(self).register_y,
                    old(self).register_pc,
                    mode,
                );
                let rd = bus_read(s.0, s.1);
                &&& final(self).bus@ == rd.0
                &&& final(self).register_a == rd.1
                &&& final(self).register_x == rd.1
                &&& final(self).register_p.bits == zn_update(old(self).register_p.bits, rd.1)
            }),
            final(self).register_y == old(self).register_y,
            final(self).register_sp == old(self).register_sp,
            final(self).register_pc == old(self).register_pc,
    {
        let addr = self.get_operand_address(mode);
        let value = self.memory_read(addr);
        self.set_register_a(value);
        self.register_x = self.register_a;
    }

    /// Store the AND of the accumulator and index X (undocumented).
    pub fn sax(&mut self, mode: AddressingMode) -> (r: Result<(), BusFault>)
        requires
            old(self).wf(),
            mode != AddressingMode::NoneAddressing,
        ensures
            final(self).wf(),
            ({
                let s = resolve_op(
                    old(self).bus@,
                    old(self).register_x,
                    old(self).register_y,
                    old(self).register_pc,
                    mode,
                );
                let value = old(self).register_a & old(self).register_x;
                &&& (r is Ok <==> writable(s.1))
                &&& (writable(s.1) ==> final(self).bus@ == bus_write(s.0, s.1, value))
                &&& (!writable(s.1) ==> final(self).bus@ == s.0 && r == Result::<(),
                BusFault>::Err(write_fault(s.1)))
            }),
            Self::same_regs(*old(self), *final(self)),
            final(self).register_p == old(self).register_p,
    {
        let value = self.register_a & self.register_x;
        let addr = self.get_operand_address(mode);

        self.memory_write(addr, value)
    }

    /// Load-then-transfer-to-X (undocumented, unstable on hardware).
    pub fn lxa(&mut self, mode: AddressingMode)
        requires
            old(self).wf(),
            mode != AddressingMode::NoneAddressing,
        ensures
            final(self).wf(),
            ({
                let s = resolve_op(
                    old(self).bus@,
                    old(self).register_x,
                    old(self).register_y,
                    old(self).register_pc,
                    mode,
                );
                let rd = bus_read(s.0, s.1);
                &&& final(self).bus@ == rd.0
                &&& final(self).register_a == rd.1
                &&& final(self).register_x == rd.1
                &&& final(self).register_p.bits == zn_update(
                    zn_update(old(self).register_p.bits, rd.1),
                    rd.1,
                )
            }),
            final(self).register_y == old(self).register_y,
            final(self).register_sp == old(self).register_sp,
            final(self).register_pc == old(self).register_pc,
    {
        self.lda(mode);
        self.tax();
    }

    /// Transfer-X-then-AND (undocumented, unstable on hardware).
    pub fn xaa(&mut self, mode: AddressingMode)
        requires
            old(self).wf(),
            mode != AddressingMode::NoneAddressing,
        ensures
            final(self).wf(),
            ({
                let s = resolve_op(
                    old(self).bus@,
                    old(self).register_x,
                    old(self).register_y,
                    old(self).register_pc,
                    mode,
                );
                let rd = bus_read(s.0, s.1);
                &&& final(self).bus@ == rd.0
                &&& final(self).register_a == (rd.1 & old(self).register_x)
                &&& final(self).register_p.bits == zn_update(
                    zn_update(old(self).register_p.bits, old(self).register_x),
                    rd.1 & old(self).register_x,
                )
            }),
            final(self).register_x == old(self).register_x,
            final(self).register_y == old(self).register_y,
            final(self).register_sp == old(self).register_sp,
            final(self).register_pc == old(self).register_pc,
    {
        self.register_a = self.register_x;
        let a0 = self.register_a;
        self.update_zero_and_negative_flags(a0);

        let addr = self.get_operand_address(mode);
        let value = self.memory_read(addr);

        let a = self.register_a;
        self.set_register_a(value & a);
    }

    /// AND of the operand and the stack pointer into the accumulator,
    /// index X, and the stack pointer (undocumented).
    pub fn las(&mut self, mode: AddressingMode)
        requires
            old(self).wf(),
            mode != AddressingMode::NoneAddressing,
        ensures
            final(self).wf(),
            ({
                let s = resolve_op(
                    old(self).bus@,
                    old(self).register_x,
                    old(self).register_y,
                    old(self).register_pc,
                    mode,
                );
                let rd = bus_read(s.0, s.1);
                let value = rd.1 & old(self).register_sp;
                &&& final(self).bus@ == rd.0
                &&& final(self).register_a == value
                &&& final(self).register_x == value
                &&& final(self).register_sp == value
                &&& final(self).register_p.bits == zn_update(old(self).register_p.bits, value)
            }),
            final(self).register_y == old(self).register_y,
            final(self).register_pc == old(self).register_pc,
    {
        let addr = self.get_operand_address(mode);
        let mut value = self.memory_read(addr);

        value = value & self.register_sp;

        self.register_a = value;
        self.register_x = value;
        self.register_sp = value;

        self.update_zero_and_negative_flags(value);
    }

    /// Stack pointer from X AND the accumulator, then a store of that
    /// value masked with the target's high byte plus one (undocumented).
    pub fn tas(&mut self) -> (r: Result<(), BusFault>)
        requires
            old(self).wf(),
        ensures
            final(self).wf(),
            ({
                let rd = bus_read16(old(self).bus@, old(self).register_pc);
                let addr = rd.1.wrapping_add(old(self).register_y as u16);
                let sp = old(self).register_x & old(self).register_a;
                let value = ((addr >> 8) as u8).wrapping_add(1) & sp;
                &&& (r is Ok <==> writable(addr))
                &&& (writable(addr) ==> final(self).bus@ == bus_write(rd.0, addr, value))
                &&& (!writable(addr) ==> final(self).bus@ == rd.0 && r == Result::<(),
                BusFault>::Err(write_fault(addr)))
                &&& final(self).register_sp == sp
            }),
            final(self).register_a == old(self).register_a,
            final(self).register_x == old(self).register_x,
            final(self).register_y == old(self).register_y,
            final(self).register_pc == old(self).register_pc,
            final(self).register_p == old(self).register_p,
    {
        let x_and_a = self.register_x & self.register_a;
        self.register_sp = x_and_a;

        let base = self.memory_read_u16(self.register_pc);
        let addr = base.wrapping_add(self.register_y as u16);

        let high_plus_1 = ((addr >> 8) as u8).wrapping_add(1);

        let value = high_plus_1 & self.register_sp;

        self.memory_write(addr, value)
    }

    /// Store of X AND the accumulator AND the target's high byte, through
    /// a zero-page pointer (undocumented).
    pub fn axa_indirect(&mut self) -> (r: Result<(), BusFault>)
        requires
            old(self).wf(),
        ensures
            final(self).wf(),
            ({
                let pos = bus_read(old(self).bus@, old(self).register_pc);
                let rd = bus_read16(pos.0, pos.1 as u16);
                let addr = rd.1.wrapping_add(old(self).register_y as u16);
                let value = (old(self).register_x & old(self).register_a) & ((addr >> 8) as u8);
                &&& (r is Ok <==> writable(addr))
                &&& (writable(addr) ==> final(self).bus@ == bus_write(rd.0, addr, value))
                &&& (!writable(addr) ==> final(self).bus@ == rd.0 && r == Result::<(),
                BusFault>::Err(write_fault(addr)))
            }),
            Self::same_regs(*old(self), *final(self)),
            final(self).register_p == old(self).register_p,
    {
        let position = self.memory_read(self.register_pc);
        let base = self.memory_read_u16(position as u16);

        let addr = base.wrapping_add(self.register_y as u16);
        let x_and_a = self.register_x & self.register_a;

        let high = (addr >> 8) as u8;
        let value = x_and_a & high;

        self.memory_write(addr, value)
    }

    /// Store of X AND the accumulator AND the target's high byte, with an
    /// absolute base (undocumented).
    pub fn axa_absolute(&mut self) -> (r: Result<(), BusFault>)
        requires
            old(self).wf(),
        ensures
            final(self).wf(),
            ({
                let rd = bus_read16(old(self).bus@, old(self).register_pc);
                let addr = rd.1.wrapping_add(old(self).register_y as u16);
                let value = (old(self).register_x & old(self).register_a) & ((addr >> 8) as u8);
                &&& (r is Ok <==> writable(addr))
                &&& (writable(addr) ==> final(self).bus@ == bus_write(rd.0, addr, value))
                &&& (!writable(addr) ==> final(self).bus@ == rd.0 && r == Result::<(),
                BusFault>::Err(write_fault(addr)))
            }),
            Self::same_regs(*old(self), *final(self)),
            final(self).register_p == old(self).register_p,
    {
        let base = self.memory_read_u16(self.register_pc);
        let addr = base.wrapping_add(self.register_y as u16);

        let x_and_a = self.register_x & self.register_a;
        let high = (addr >> 8) as u8;

        let value = x_and_a & high;
        self.memory_write(addr, value)
    }

    /// Store of X AND the target's high byte plus one (undocumented).
    pub fn sxa(&mut self) -> (r: Result<(), BusFault>)
        requires
            old(self).wf(),
        ensures
            final(self).wf(),
            ({
                let rd = bus_read16(old(self).bus@, old(self).register_pc);
                let addr = rd.1.wrapping_add(old(self).register_y as u16);
                let value = old(self).register_x & ((addr >> 8) as u8).wrapping_add(1);
                &&& (r is Ok <==> writable(addr))
                &&& (writable(addr) ==> final(self).bus@ == bus_write(rd.0, addr, value))
                &&& (!writable(addr) ==> final(self).bus@ == rd.0 && r == Result::<(),
                BusFault>::Err(write_fault(addr)))
            }),
            Self::same_regs(*old(self), *final(self)),
            final(self).register_p == old(self).register_p,
    {
        let base = self.memory_read_u16(self.register_pc);
        let addr = base.wrapping_add(self.register_y as u16);

        let high_plus_1 = ((addr >> 8) as u8).wrapping_add(1);
        let value = self.register_x & high_plus_1;

        self.memory_write(addr, value)
    }

    /// Store of X AND the target's high byte plus one, with an X-indexed
    /// base (undocumented).
    pub fn sya(&mut self) -> (r: Result<(), BusFault>)
        requires
            old(self).wf(),
        ensures
            final(self).wf(),
            ({
                let rd = bus_read16(old(self).bus@, old(self).register_pc);
                let addr = rd.1.wrapping_add(old(self).register_x as u16);
                let value = old(self).register_x & ((addr >> 8) as u8).wrapping_add(1);
                &&& (r is Ok <==> writable(addr))
                &&& (writable(addr) ==> final(self).bus@ == bus_write(rd.0, addr, value))
                &&& (!writable(addr) ==> final(self).bus@ == rd.0 && r == Result::<(),
                BusFault>::Err(write_fault(addr)))
            }),
            Self::same_regs(*old(self), *final(self)),
            final(self).register_p == old(self).register_p,
    {
        let base = self.memory_read_u16(self.register_pc);
        let addr = base.wrapping_add(self.register_x as u16);

        let high_plus_1 = ((addr >> 8) as u8).wrapping_add(1);
        let value = self.register_x & high_plus_1;

        self.memory_write(addr, value)
    }
}

} // verus!

verus! {

/// What one executed instruction reported: whether the program ended with
/// the force-break opcode, and whether the video frame completed during
/// the instruction's cycles.
#[derive(Debug, Clone, Copy, PartialEq, Eq, Structural)]
pub struct StepOutcome {
    pub halted: bool,
    pub frame: bool,
}

/// The opcodes whose handlers set the program counter themselves: the
/// conditional branches, the jumps, the call, and the two returns.
pub open spec fn sets_pc(code: u8) -> bool {
    ||| code == 0x90
    ||| code == 0xb0
    ||| code == 0xf0
    ||| code == 0x30
    ||| code == 0xd0
    ||| code == 0x10
    ||| code == 0x50
    ||| code == 0x70
    ||| code == 0x4c
    ||| code == 0x6c
    ||| code == 0x20
    ||| code == 0x60
    ||| code == 0x40
}

} // verus!

verus! {

impl CPU {
    /// One machine step: services a pending graphics interrupt, fetches
    /// the byte under the program counter, advances the counter past it,
    /// and executes the instruction through the descriptor table. The
    /// outcome reports the force-break halt and any completed video
    /// frame; a refused write surfaces as the fault.
    pub fn step(&mut self, assembler: &crate::assembly::Assembler) -> (r: Result<
        StepOutcome,
        BusFault,
    >)
        requires
            old(self).wf(),
            assembler.wf(),
        ensures
            final(self).wf(),
            r matches Ok(o) ==> (crate::assembly::step_spec(old(self).spec_state()) matches Ok(e)
                && final(self).spec_state() == e.0 && o == e.1),
            r matches Err(f) ==> (crate::assembly::step_spec(old(self).spec_state()) matches Err(e)
                && f == e.0 && final(self).spec_state() == e.1),
            old(self).bus@.ppu.nmi_interrupt is None ==> ({
                let rd = bus_read(old(self).bus@, old(self).register_pc);
                &&& (r matches Ok(o) ==> (o.halted <==> rd.1 == 0))
                &&& (rd.1 == 0 ==> {
                    &&& r == Result::<StepOutcome, BusFault>::Ok(
                        StepOutcome { halted: true, frame: false },
                    )
                    &&& final(self).bus@ == rd.0
                    &&& final(self).register_pc == old(self).register_pc.wrapping_add(1)
                    &&& final(self).register_a == old(self).register_a
                    &&& final(self).register_x == old(self).register_x
                    &&& final(self).register_y == old(self).register_y
                    &&& final(self).register_sp == old(self).register_sp
                    &&& final(self).register_p == old(self).register_p
                })
            }),
    {
        let mut nmi_frame = false;
        match self.bus.poll_nmi_status() {
            Some(_) => {
                nmi_frame = self.interrupt_nmi();
            },
            None => {},
        }

        let code = self.memory_read(self.register_pc);
        self.register_pc = self.register_pc.wrapping_add(1);

        let out = match assembler.interpret(self, code) {
            Err(e) => {
                return Err(e);
            },
            Ok(o) => o,
        };

        Ok(StepOutcome { halted: out.halted, frame: out.frame || nmi_frame })
    }
}

} // verus!

verus! {

/// The stack round trip: a byte pushed at any stack-pointer position is
/// exactly the byte a pop from the same position hands back, and the pop
/// itself leaves the bus unchanged. The stack page lies in work RAM, so a
/// push is an ordinary write at `STACK + sp` and a pop the read of the
/// same cell.
pub proof fn lemma_stack_round_trip(b: BusView, sp: u8, value: u8)
    requires
        b.wf(),
    ensures
        ({
            let address = (STACK + sp as u16) as u16;
            let pushed = bus_write(b, address, value);
            &&& bus_read(pushed, address).1 == value
            &&& bus_read(pushed, address).0 == pushed
        }),
{
    let address = (STACK + sp as u16) as u16;
    assert(address & 0x7ff == address) by (bit_vector)
        requires 0x100 <= address < 0x200;
}

} // verus!
