//! The interpreter: operand resolution, the effect of each operation, and
//! the step that runs one instruction or interrupt service.
use vstd::prelude::*;
use vstd::arithmetic::div_mod::lemma_add_mod_noop;
use crate::cpu::{CPU, IRQ_VECTOR, NMI_VECTOR, add16, dec16, dec8, inc8};
use crate::memory::Memory;
use crate::opcodes::{Mode, Op, decode, has_page_penalty, operand_length};
use crate::semantics::{
    branch_taken, operand, perform, perform_control, perform_modify, perform_read,
    perform_register, run_instruction, shift, signed, step, with_shifted, wrap16,
};

verus! {

impl CPU {
    /// Runs one instruction, or instead services a pending NMI or an IRQ
    /// that is not masked; then runs the OAM DMA that the instruction
    /// requested, if any. Returns the cycles consumed, which are also added
    /// to `cycles`.
    pub fn execute(&mut self, memory: &mut Memory) -> (r: usize)
        ensures
            (*final(self), final(memory)@, r as int) == step(*old(self), old(memory)@),
    {
        let start = self.cycles;
        let mut n: u16;
        if self.nmi_pending {
            self.nmi_pending = false;
            self.interrupt(memory, NMI_VECTOR, false);
            n = 7;
        } else if self.irq_line && !self.interrupt_disable {
            self.interrupt(memory, IRQ_VECTOR, false);
            n = 7;
        } else {
            n = self.run_instruction(memory);
        }
        if memory.run_pending_dma() {
            let odd: u16 = ((start % 2) as u16 + n % 2) % 2;
            proof {
                lemma_add_mod_noop(start as int, n as int, 2);
            }
            n = n + 513 + odd;
        }
        self.cycles = self.cycles.saturating_add(n as u64);
        n as usize
    }

    /// Fetches, decodes and performs the instruction at PC. Returns its
    /// cycles, penalties included.
    fn run_instruction(&mut self, memory: &mut Memory) -> (r: u16)
        ensures
            (*final(self), final(memory)@, r as int) == run_instruction(*old(self), old(memory)@),
            r <= 511,
    {
        reveal(run_instruction);
        let ins = decode(memory.read_byte(self.pc));
        let (addr, crossed) = self.operand_address(memory, ins.mode, add16(self.pc, 1));
        self.pc = add16(self.pc, 1 + operand_length(ins.mode));
        let extra = self.perform(memory, ins.op, ins.mode, addr);
        let penalty: u16 = if has_page_penalty(ins.op) && crossed { 1 } else { 0 };
        ins.cycles as u16 + penalty + extra as u16
    }

    /// Effective address and page crossing of `mode`, operand bytes at `pc`.
    fn operand_address(&self, memory: &Memory, mode: Mode, pc: u16) -> (r: (u16, bool))
        ensures
            r == operand(*self, memory@, mode, pc),
    {
        reveal(operand);
        match mode {
            Mode::Implied | Mode::Accumulator => (0, false),
            Mode::Immediate => (pc, false),
            Mode::ZeroPage => (memory.read_byte(pc) as u16, false),
            Mode::ZeroPageX => (memory.read_byte(pc).wrapping_add(self.x) as u16, false),
            Mode::ZeroPageY => (memory.read_byte(pc).wrapping_add(self.y) as u16, false),
            Mode::Absolute => (memory.read_word(pc), false),
            Mode::AbsoluteX => indexed(memory.read_word(pc), self.x),
            Mode::AbsoluteY => indexed(memory.read_word(pc), self.y),
            Mode::Indirect => {
                let ptr = memory.read_word(pc);
                let lo = memory.read_byte(ptr);
                let hi = memory.read_byte(ptr / 256 * 256 + (ptr % 256 + 1) % 256);
                (lo as u16 + hi as u16 * 256, false)
            },
            Mode::IndirectX => {
                let zp = memory.read_byte(pc).wrapping_add(self.x);
                (memory.read_word_zero_page(zp as u16), false)
            },
            Mode::IndirectY => {
                let zp = memory.read_byte(pc);
                indexed(memory.read_word_zero_page(zp as u16), self.y)
            },
            Mode::Relative => {
                let next = add16(pc, 1);
                let target = branch_target(next, memory.read_byte(pc));
                (target, next / 256 != target / 256)
            },
        }
    }

    /// ASL, LSR, ROL or ROR of `value`, by `op`.
    fn shift_by(&mut self, op: Op, value: u8) -> (r: u8)
        ensures
            r == shift(op, value, old(self).carry).0,
            *final(self) == with_shifted(*old(self), shift(op, value, old(self).carry)),
    {
        match op {
            Op::Asl | Op::Slo => self.shift_left(value),
            Op::Lsr | Op::Sre => self.shift_right(value),
            Op::Rol | Op::Rla => self.rotate_left(value),
            _ => self.rotate_right(value),
        }
    }

    fn load_a(&mut self, v: u8)
        ensures
            *final(self) == crate::semantics::with_a(*old(self), v),
    {
        self.a = v;
        self.update_zero_and_negative_flags(v);
    }

    fn load_x(&mut self, v: u8)
        ensures
            *final(self) == crate::semantics::with_x(*old(self), v),
    {
        self.x = v;
        self.update_zero_and_negative_flags(v);
    }

    fn load_y(&mut self, v: u8)
        ensures
            *final(self) == crate::semantics::with_y(*old(self), v),
    {
        self.y = v;
        self.update_zero_and_negative_flags(v);
    }

    /// Carries out `op` on effective address `addr`, with PC already past
    /// the operand. Returns the extra cycles of a taken branch.
    fn perform(&mut self, memory: &mut Memory, op: Op, mode: Mode, addr: u16) -> (r: u8)
        ensures
            (*final(self), final(memory)@, r as int) == perform(op, mode, addr, *old(self), old(memory)@),
    {
        reveal(perform);
        match op {
            Op::Adc | Op::Sbc | Op::And | Op::Ora | Op::Eor | Op::Cmp | Op::Cpx | Op::Cpy | Op::Bit | Op::Lda | Op::Ldx | Op::Ldy | Op::Lax => self.perform_read(memory, op, mode, addr),
            Op::Asl | Op::Lsr | Op::Rol | Op::Ror | Op::Inc | Op::Dec | Op::Dcp | Op::Isb | Op::Slo | Op::Rla | Op::Sre | Op::Rra => self.perform_modify(memory, op, mode, addr),
            Op::Inx | Op::Dex | Op::Iny | Op::Dey | Op::Sta | Op::Stx | Op::Sty | Op::Sax | Op::Tax | Op::Tay | Op::Txa | Op::Tya | Op::Tsx | Op::Txs | Op::Clc | Op::Sec | Op::Cli | Op::Sei | Op::Clv | Op::Cld | Op::Sed | Op::Nop | Op::Invalid | Op::InvalidRead => self.perform_register(memory, op, mode, addr),
            Op::Bpl | Op::Bmi | Op::Bvc | Op::Bvs | Op::Bcc | Op::Bcs | Op::Bne | Op::Beq | Op::Jmp | Op::Jsr | Op::Rts | Op::Rti | Op::Brk | Op::Pha | Op::Php | Op::Pla | Op::Plp => self.perform_control(memory, op, mode, addr),
        }
    }

    /// Operations that read their operand and set registers and flags.
    fn perform_read(&mut self, memory: &mut Memory, op: Op, mode: Mode, addr: u16) -> (r: u8)
        requires
            matches!(op, Op::Adc | Op::Sbc | Op::And | Op::Ora | Op::Eor | Op::Cmp | Op::Cpx | Op::Cpy | Op::Bit | Op::Lda | Op::Ldx | Op::Ldy | Op::Lax),
        ensures
            (*final(self), final(memory)@, r as int) == perform_read(op, mode, addr, *old(self), old(memory)@),
    {
        reveal(perform_read);
        match op {
            Op::Adc => {
                let v = memory.read_byte(addr);
                self.adc(v);
            },
            Op::Sbc => {
                let v = memory.read_byte(addr);
                self.sbc(v);
            },
            Op::And => {
                let v = memory.read_byte(addr);
                self.load_a(self.a & v);
            },
            Op::Ora => {
                let v = memory.read_byte(addr);
                self.load_a(self.a | v);
            },
            Op::Eor => {
                let v = memory.read_byte(addr);
                self.load_a(self.a ^ v);
            },
            Op::Cmp => {
                let v = memory.read_byte(addr);
                self.compare(self.a, v);
            },
            Op::Cpx => {
                let v = memory.read_byte(addr);
                self.compare(self.x, v);
            },
            Op::Cpy => {
                let v = memory.read_byte(addr);
                self.compare(self.y, v);
            },
            Op::Bit => {
                let v = memory.read_byte(addr);
                self.zero = self.a & v == 0;
                self.negative = v >= 0x80;
                self.overflow = v & 0x40 != 0;
            },
            Op::Lda => {
                let v = memory.read_byte(addr);
                self.load_a(v);
            },
            Op::Ldx => {
                let v = memory.read_byte(addr);
                self.load_x(v);
            },
            Op::Ldy => {
                let v = memory.read_byte(addr);
                self.load_y(v);
            },
            Op::Lax => {
                let v = memory.read_byte(addr);
                self.a = v;
                self.load_x(v);
            },
            _ => {},
        }
        0
    }

    /// Read-modify-write operations on the accumulator or on memory.
    fn perform_modify(&mut self, memory: &mut Memory, op: Op, mode: Mode, addr: u16) -> (r: u8)
        requires
            matches!(op, Op::Asl | Op::Lsr | Op::Rol | Op::Ror | Op::Inc | Op::Dec | Op::Dcp | Op::Isb | Op::Slo | Op::Rla | Op::Sre | Op::Rra),
        ensures
            (*final(self), final(memory)@, r as int) == perform_modify(op, mode, addr, *old(self), old(memory)@),
    {
        reveal(perform_modify);
        match op {
            Op::Asl | Op::Lsr | Op::Rol | Op::Ror => {
                if mode == Mode::Accumulator {
                    let r = self.shift_by(op, self.a);
                    self.a = r;
                } else {
                    let v = memory.read_byte(addr);
                    let r = self.shift_by(op, v);
                    memory.write_byte(addr, r);
                }
            },
            Op::Inc => {
                let v = inc8(memory.read_byte(addr));
                memory.write_byte(addr, v);
                self.update_zero_and_negative_flags(v);
            },
            Op::Dec => {
                let v = dec8(memory.read_byte(addr));
                memory.write_byte(addr, v);
                self.update_zero_and_negative_flags(v);
            },
            Op::Dcp => {
                let v = dec8(memory.read_byte(addr));
                memory.write_byte(addr, v);
                self.compare(self.a, v);
            },
            Op::Isb => {
                let v = inc8(memory.read_byte(addr));
                memory.write_byte(addr, v);
                self.sbc(v);
            },
            Op::Slo | Op::Rla | Op::Sre | Op::Rra => {
                let v = memory.read_byte(addr);
                let a = self.a;
                let r = self.shift_by(op, v);
                memory.write_byte(addr, r);
                self.a = a;
                match op {
                    Op::Slo => self.load_a(a | r),
                    Op::Rla => self.load_a(a & r),
                    Op::Sre => self.load_a(a ^ r),
                    _ => self.adc(r),
                }
            },
            _ => {},
        }
        0
    }

    /// Stores, transfers, increments of registers, flag operations, no-ops.
    fn perform_register(&mut self, memory: &mut Memory, op: Op, mode: Mode, addr: u16) -> (r: u8)
        requires
            matches!(op, Op::Inx | Op::Dex | Op::Iny | Op::Dey | Op::Sta | Op::Stx | Op::Sty | Op::Sax | Op::Tax | Op::Tay | Op::Txa | Op::Tya | Op::Tsx | Op::Txs | Op::Clc | Op::Sec | Op::Cli | Op::Sei | Op::Clv | Op::Cld | Op::Sed | Op::Nop | Op::Invalid | Op::InvalidRead),
        ensures
            (*final(self), final(memory)@, r as int) == perform_register(op, mode, addr, *old(self), old(memory)@),
    {
        reveal(perform_register);
        match op {
            Op::Inx => self.load_x(inc8(self.x)),
            Op::Dex => self.load_x(dec8(self.x)),
            Op::Iny => self.load_y(inc8(self.y)),
            Op::Dey => self.load_y(dec8(self.y)),
            Op::Sta => memory.write_byte(addr, self.a),
            Op::Stx => memory.write_byte(addr, self.x),
            Op::Sty => memory.write_byte(addr, self.y),
            Op::Sax => memory.write_byte(addr, self.a & self.x),
            Op::Tax => self.load_x(self.a),
            Op::Tay => self.load_y(self.a),
            Op::Txa => self.load_a(self.x),
            Op::Tya => self.load_a(self.y),
            Op::Tsx => self.load_x(self.sp),
            Op::Txs => self.sp = self.x,
            Op::Clc => self.carry = false,
            Op::Sec => self.carry = true,
            Op::Cli => self.interrupt_disable = false,
            Op::Sei => self.interrupt_disable = true,
            Op::Clv => self.overflow = false,
            Op::Cld => self.decimal = false,
            Op::Sed => self.decimal = true,
            Op::Nop => {},
            Op::Invalid | Op::InvalidRead => self.invalid_opcode(),

            _ => {},
        }
        0
    }

    /// Branches, jumps, subroutines, interrupts by BRK, and the stack.
    fn perform_control(&mut self, memory: &mut Memory, op: Op, mode: Mode, addr: u16) -> (r: u8)
        requires
            matches!(op, Op::Bpl | Op::Bmi | Op::Bvc | Op::Bvs | Op::Bcc | Op::Bcs | Op::Bne | Op::Beq | Op::Jmp | Op::Jsr | Op::Rts | Op::Rti | Op::Brk | Op::Pha | Op::Php | Op::Pla | Op::Plp),
        ensures
            (*final(self), final(memory)@, r as int) == perform_control(op, mode, addr, *old(self), old(memory)@),
    {
        reveal(perform_control);
        match op {
            Op::Bpl | Op::Bmi | Op::Bvc | Op::Bvs | Op::Bcc | Op::Bcs | Op::Bne | Op::Beq => {
                if self.branch_condition(op) {
                    let ticks = CPU::branch_ticks(self.pc, addr);
                    self.pc = addr;
                    return ticks;
                }
            },
            Op::Jmp => self.pc = addr,
            Op::Jsr => {
                self.push_word_to_stack(memory, dec16(self.pc));
                self.pc = addr;
            },
            Op::Rts => {
                let w = self.pop_word_from_stack(memory);
                self.pc = add16(w, 1);
            },
            Op::Rti => {
                let p = self.pop_byte_from_stack(memory);
                self.set_status(p);
                self.pc = self.pop_word_from_stack(memory);
            },
            Op::Brk => {
                self.pc = add16(self.pc, 1);
                self.interrupt(memory, IRQ_VECTOR, true);
            },
            Op::Pha => self.push_byte_to_stack(memory, self.a),
            Op::Php => {
                let p = self.status() | 0x10;
                self.push_byte_to_stack(memory, p);
            },
            Op::Pla => {
                let v = self.pop_byte_from_stack(memory);
                self.load_a(v);
            },
            Op::Plp => {
                let p = self.pop_byte_from_stack(memory);
                self.set_status(p);
            },
            _ => {},
        }
        0
    }

    fn branch_condition(&self, op: Op) -> (r: bool)
        ensures
            r == branch_taken(op, *self),
    {
        match op {
            Op::Bpl => !self.negative,
            Op::Bmi => self.negative,
            Op::Bvc => !self.overflow,
            Op::Bvs => self.overflow,
            Op::Bcc => !self.carry,
            Op::Bcs => self.carry,
            Op::Bne => !self.zero,
            _ => self.zero,
        }
    }
}

/// `next` moved by the signed offset `offset`, modulo 0x10000.
fn branch_target(next: u16, offset: u8) -> (r: u16)
    ensures
        r == wrap16(next + signed(offset)),
{
    if offset < 128 {
        add16(next, offset as u16)
    } else if next >= 256 - offset as u16 {
        next - (256 - offset as u16)
    } else {
        (next as u32 + 0x10000 - (256 - offset as u32)) as u16
    }
}

fn indexed(base: u16, index: u8) -> (r: (u16, bool))
    ensures
        r == crate::semantics::indexed(base, index),
{
    let a = base.wrapping_add(index as u16);
    (a, base / 256 != a / 256)
}

} // verus!
