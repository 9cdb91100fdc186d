use vstd::prelude::*;
use crate::memory::Memory;
use crate::semantics::{
    adc, asl, branch_ticks, compare, interrupt, lsr, overflowed, pull, pull_word, push, push_word,
    reset_state, rol, ror, sbc, status_byte, with_nz, with_shifted, with_status, wrap16, wrap8,
};

verus! {

/// Vector read on RESET.
pub const RESET_VECTOR: u16 = 0xFFFC;

/// Vector read on NMI.
pub const NMI_VECTOR: u16 = 0xFFFA;

/// Vector read on IRQ and BRK.
pub const IRQ_VECTOR: u16 = 0xFFFE;

/// The 6502's registers, its flags kept one by one, the cycle counter and
/// the interrupt lines. The bus is handed to each operation that needs it.
#[derive(Clone, Copy)]
pub struct CPU {
    pub a: u8,
    pub x: u8,
    pub y: u8,
    pub pc: u16,
    /// Stack pointer; the stack lives at `0x0100 + sp`.
    pub sp: u8,
    pub carry: bool,
    pub zero: bool,
    pub interrupt_disable: bool,
    pub decimal: bool,
    pub overflow: bool,
    pub negative: bool,
    /// Cycles consumed since the last reset (saturating).
    pub cycles: u64,
    /// An NMI edge waits to be serviced.
    pub nmi_pending: bool,
    /// Level of the IRQ line.
    pub irq_line: bool,
    /// How many opcodes without a defined behaviour were met (saturating).
    pub invalid_opcodes: u64,
}

impl CPU {
    /// A CPU in its RESET state, its PC read from the reset vector.
    pub fn new(memory: &Memory) -> (r: CPU)
        ensures
            r == reset_state(r, memory@),
            !r.irq_line,
    {
        let mut r = CPU {
            a: 0,
            x: 0,
            y: 0,
            pc: 0,
            sp: 0,
            carry: false,
            zero: false,
            interrupt_disable: false,
            decimal: false,
            overflow: false,
            negative: false,
            cycles: 0,
            nmi_pending: false,
            irq_line: false,
            invalid_opcodes: 0,
        };
        r.reset(memory);
        r
    }

    /// RESET: `A = X = Y = 0`, `SP = 0xFD`, `P = 0x24`, `PC` from the reset
    /// vector, seven cycles consumed.
    pub fn reset(&mut self, memory: &Memory)
        ensures
            *final(self) == reset_state(*old(self), memory@),
    {
        self.a = 0;
        self.x = 0;
        self.y = 0;
        self.sp = 0xFD;
        self.carry = false;
        self.zero = false;
        self.interrupt_disable = true;
        self.decimal = false;
        self.overflow = false;
        self.negative = false;
        self.cycles = 7;
        self.nmi_pending = false;
        self.invalid_opcodes = 0;
        self.pc = memory.read_word(RESET_VECTOR);
    }

    /// The status register with bit 5 set and B clear.
    pub fn status(&self) -> (r: u8)
        ensures
            r == status_byte(*self),
    {
        (if self.negative { 0x80u8 } else { 0u8 }) | (if self.overflow { 0x40u8 } else { 0u8 }) | (
        if self.decimal { 0x08u8 } else { 0u8 }) | (if self.interrupt_disable { 0x04u8 } else { 0u8 })
            | (if self.zero { 0x02u8 } else { 0u8 }) | (if self.carry { 0x01u8 } else { 0u8 }) | 0x20u8
    }

    /// Loads the flags from a pulled status byte; B and bit 5 are dropped.
    pub(crate) fn set_status(&mut self, p: u8)
        ensures
            *final(self) == with_status(*old(self), p),
    {
        self.negative = p & 0x80 != 0;
        self.overflow = p & 0x40 != 0;
        self.decimal = p & 0x08 != 0;
        self.interrupt_disable = p & 0x04 != 0;
        self.zero = p & 0x02 != 0;
        self.carry = p & 0x01 != 0;
    }

    /// Raises an NMI edge; it is serviced before the next instruction.
    pub fn trigger_nmi(&mut self)
        ensures
            *final(self) == (CPU { nmi_pending: true, ..*old(self) }),
    {
        self.nmi_pending = true;
    }

    /// Sets the level of the IRQ line.
    pub fn set_irq(&mut self, level: bool)
        ensures
            *final(self) == (CPU { irq_line: level, ..*old(self) }),
    {
        self.irq_line = level;
    }

    pub(crate) fn update_zero_and_negative_flags(&mut self, value: u8)
        ensures
            *final(self) == with_nz(*old(self), value),
    {
        self.zero = value == 0;
        self.negative = value >= 0x80;
    }

    pub(crate) fn update_overflow_flag(&mut self, a: u8, b: u8, result: u8)
        ensures
            *final(self) == (CPU { overflow: overflowed(a, b, result), ..*old(self) }),
    {
        assert(((a ^ result) & (b ^ result) & 0x80 != 0) == ((a >= 0x80) == (b >= 0x80) && (result
            >= 0x80) != (a >= 0x80))) by (bit_vector);
        self.overflow = (a ^ result) & (b ^ result) & 0x80 != 0;
    }

    pub(crate) fn adc(&mut self, value: u8)
        ensures
            *final(self) == adc(*old(self), value),
    {
        let t: u16 = self.a as u16 + value as u16 + if self.carry { 1u16 } else { 0u16 };
        let r = (t % 256) as u8;
        self.carry = t > 0xFF;
        self.update_overflow_flag(self.a, value, r);
        self.a = r;
        self.update_zero_and_negative_flags(r);
    }

    pub(crate) fn sbc(&mut self, value: u8)
        ensures
            *final(self) == sbc(*old(self), value),
    {
        self.adc(value ^ 0xFF);
    }

    pub(crate) fn compare(&mut self, register: u8, value: u8)
        ensures
            *final(self) == compare(*old(self), register, value),
    {
        let result = register.wrapping_sub(value);
        self.update_zero_and_negative_flags(result);
        self.carry = register >= value;
    }

    /// ASL on a byte: sets C, N, Z and returns the shifted byte.
    pub(crate) fn shift_left(&mut self, value: u8) -> (r: u8)
        ensures
            r == asl(value).0,
            *final(self) == with_shifted(*old(self), asl(value)),
    {
        let r = ((value as u16 * 2) % 256) as u8;
        self.update_zero_and_negative_flags(r);
        self.carry = value >= 0x80;
        r
    }

    /// LSR on a byte: sets C, N, Z and returns the shifted byte.
    pub(crate) fn shift_right(&mut self, value: u8) -> (r: u8)
        ensures
            r == lsr(value).0,
            *final(self) == with_shifted(*old(self), lsr(value)),
    {
        let r = value / 2;
        self.update_zero_and_negative_flags(r);
        self.carry = value % 2 == 1;
        r
    }

    /// ROL on a byte through the carry.
    pub(crate) fn rotate_left(&mut self, value: u8) -> (r: u8)
        ensures
            r == rol(value, old(self).carry).0,
            *final(self) == with_shifted(*old(self), rol(value, old(self).carry)),
    {
        let carry_bit: u16 = if self.carry { 1 } else { 0 };
        let r = ((value as u16 * 2 + carry_bit) % 256) as u8;
        self.update_zero_and_negative_flags(r);
        self.carry = value >= 0x80;
        r
    }

    /// ROR on a byte through the carry.
    pub(crate) fn rotate_right(&mut self, value: u8) -> (r: u8)
        ensures
            r == ror(value, old(self).carry).0,
            *final(self) == with_shifted(*old(self), ror(value, old(self).carry)),
    {
        let carry_bit: u8 = if self.carry { 128 } else { 0 };
        let r = value / 2 + carry_bit;
        self.update_zero_and_negative_flags(r);
        self.carry = value % 2 == 1;
        r
    }

    pub(crate) fn push_byte_to_stack(&mut self, memory: &mut Memory, value: u8)
        ensures
            (*final(self), final(memory)@) == push(*old(self), old(memory)@, value),
    {
        memory.write_byte(0x100u16 + self.sp as u16, value);
        self.sp = self.sp.wrapping_sub(1);
    }

    pub(crate) fn pop_byte_from_stack(&mut self, memory: &Memory) -> (r: u8)
        ensures
            (*final(self), r) == pull(*old(self), memory@),
    {
        self.sp = self.sp.wrapping_add(1);
        memory.read_byte(0x100u16 + self.sp as u16)
    }

    pub(crate) fn push_word_to_stack(&mut self, memory: &mut Memory, value: u16)
        ensures
            (*final(self), final(memory)@) == push_word(*old(self), old(memory)@, value),
    {
        self.push_byte_to_stack(memory, (value / 256) as u8);
        self.push_byte_to_stack(memory, (value % 256) as u8);
    }

    pub(crate) fn pop_word_from_stack(&mut self, memory: &Memory) -> (r: u16)
        ensures
            (*final(self), r) == pull_word(*old(self), memory@),
    {
        let lo = self.pop_byte_from_stack(memory);
        let hi = self.pop_byte_from_stack(memory);
        lo as u16 + hi as u16 * 256
    }

    /// Extra cycles of a taken branch from `old_pc` to `new_pc`.
    pub(crate) fn branch_ticks(old_pc: u16, new_pc: u16) -> (r: u8)
        ensures
            r == branch_ticks(old_pc, new_pc),
    {
        if old_pc / 256 != new_pc / 256 {
            2
        } else {
            1
        }
    }

    /// Counts an opcode without defined behaviour; it runs as a no-op.
    pub(crate) fn invalid_opcode(&mut self)
        ensures
            *final(self) == (CPU {
                invalid_opcodes: if old(self).invalid_opcodes < u64::MAX {
                    (old(self).invalid_opcodes + 1) as u64
                } else {
                    old(self).invalid_opcodes
                },
                ..*old(self)
            }),
    {
        if self.invalid_opcodes < u64::MAX {
            self.invalid_opcodes = self.invalid_opcodes + 1;
        }
    }

    /// Interrupt entry through `vector`; `brk` sets B in the pushed status.
    pub(crate) fn interrupt(&mut self, memory: &mut Memory, vector: u16, brk: bool)
        ensures
            (*final(self), final(memory)@) == interrupt(*old(self), old(memory)@, vector, brk),
    {
        let p = if brk { self.status() | 0x10 } else { self.status() };
        self.push_word_to_stack(memory, self.pc);
        self.push_byte_to_stack(memory, p);
        self.interrupt_disable = true;
        self.pc = memory.read_word(vector);
    }
}

/// `v + 1` modulo 256.
pub(crate) fn inc8(v: u8) -> (r: u8)
    ensures
        r == wrap8(v + 1),
{
    if v == 255 {
        0
    } else {
        v + 1
    }
}

/// `v - 1` modulo 256.
pub(crate) fn dec8(v: u8) -> (r: u8)
    ensures
        r == wrap8(v - 1),
{
    if v == 0 {
        255
    } else {
        v - 1
    }
}

/// `a + b` modulo 0x10000.
pub(crate) fn add16(a: u16, b: u16) -> (r: u16)
    ensures
        r == wrap16(a + b),
{
    ((a as u32 + b as u32) % 0x10000) as u16
}

/// `a - 1` modulo 0x10000.
pub(crate) fn dec16(a: u16) -> (r: u16)
    ensures
        r == wrap16(a - 1),
{
    if a == 0 {
        0xFFFF
    } else {
        a - 1
    }
}

} // verus!
