//! The instruction set as mathematics: each operation of the interpreter is a
//! spec function here, over the CPU's registers and the bus's view.
use vstd::prelude::*;
use crate::cpu::CPU;
use crate::memory::{MemoryView, word};
use crate::opcodes::{Mode, Op, instruction_of, operand_len, reads_operand};

verus! {

/// Where the stack byte for `sp` lives: page one.
pub open spec fn stack_addr(sp: u8) -> u16 {
    (0x100 + sp as int) as u16
}

pub open spec fn bit(b: bool) -> int {
    if b { 1 } else { 0 }
}

/// `v` read as a signed byte.
pub open spec fn signed(v: u8) -> int {
    if v < 128 { v as int } else { v as int - 256 }
}

pub open spec fn wrap8(v: int) -> u8 {
    (v % 256) as u8
}

pub open spec fn wrap16(v: int) -> u16 {
    (v % 0x10000) as u16
}

pub open spec fn page(addr: u16) -> int {
    addr as int / 256
}

pub open spec fn lo_byte(w: u16) -> u8 {
    (w as int % 256) as u8
}

pub open spec fn hi_byte(w: u16) -> u8 {
    (w as int / 256) as u8
}

/// The flags N V D I Z C packed at their bit positions, bit 5 and B clear.
pub open spec fn flag_bits(c: CPU) -> u8 {
    (if c.negative { 0x80u8 } else { 0u8 }) | (if c.overflow { 0x40u8 } else { 0u8 }) | (if c.decimal {
        0x08u8
    } else {
        0u8
    }) | (if c.interrupt_disable { 0x04u8 } else { 0u8 }) | (if c.zero { 0x02u8 } else { 0u8 }) | (
    if c.carry { 0x01u8 } else { 0u8 })
}

/// `P` as software sees it: bit 5 always set, B clear.
pub open spec fn status_byte(c: CPU) -> u8 {
    flag_bits(c) | 0x20u8
}

/// `P` as PHP and BRK push it: B and bit 5 set.
pub open spec fn pushed_status(c: CPU) -> u8 {
    status_byte(c) | 0x10u8
}

/// Loads the flags from a pulled byte; B and bit 5 have no storage.
pub open spec fn with_status(c: CPU, p: u8) -> CPU {
    CPU {
        negative: p & 0x80 != 0,
        overflow: p & 0x40 != 0,
        decimal: p & 0x08 != 0,
        interrupt_disable: p & 0x04 != 0,
        zero: p & 0x02 != 0,
        carry: p & 0x01 != 0,
        ..c
    }
}

/// N and Z from a result byte.
pub open spec fn with_nz(c: CPU, v: u8) -> CPU {
    CPU { zero: v == 0, negative: v >= 0x80, ..c }
}

/// Signed overflow of `a + b` giving `r`: both operands have one sign and
/// the result the other, which is `(a ^ r) & (b ^ r) & 0x80 != 0`.
pub open spec fn overflowed(a: u8, b: u8, r: u8) -> bool {
    (a >= 0x80) == (b >= 0x80) && (r >= 0x80) != (a >= 0x80)
}

pub open spec fn adc(c: CPU, v: u8) -> CPU {
    let t = c.a + v + bit(c.carry);
    let r = wrap8(t);
    CPU { a: r, carry: t > 0xFF, overflow: overflowed(c.a, v, r), zero: r == 0, negative: r >= 0x80, ..c }
}

/// Subtraction is addition of the complement; there is no decimal mode.
pub open spec fn sbc(c: CPU, v: u8) -> CPU {
    adc(c, v ^ 0xFF)
}

/// CMP, CPX, CPY: flags of `r - v`, register unchanged.
pub open spec fn compare(c: CPU, r: u8, v: u8) -> CPU {
    CPU { carry: r >= v, ..with_nz(c, wrap8(r - v)) }
}

/// ASL: the result byte and the new carry.
pub open spec fn asl(v: u8) -> (u8, bool) {
    (wrap8(v * 2), v >= 0x80)
}

/// LSR: the result byte and the new carry.
pub open spec fn lsr(v: u8) -> (u8, bool) {
    ((v / 2) as u8, v % 2 == 1)
}

/// ROL: the carry enters at bit 0, bit 7 leaves into the carry.
pub open spec fn rol(v: u8, carry: bool) -> (u8, bool) {
    (wrap8(v * 2 + bit(carry)), v >= 0x80)
}

/// ROR: the carry enters at bit 7, bit 0 leaves into the carry.
pub open spec fn ror(v: u8, carry: bool) -> (u8, bool) {
    ((v / 2 + 128 * bit(carry)) as u8, v % 2 == 1)
}

/// A shift's result committed with its carry and N, Z.
pub open spec fn with_shifted(c: CPU, s: (u8, bool)) -> CPU {
    CPU { carry: s.1, ..with_nz(c, s.0) }
}

/// Pushes one byte: write at the stack pointer, then decrement it.
pub open spec fn push(c: CPU, m: MemoryView, v: u8) -> (CPU, MemoryView) {
    (CPU { sp: wrap8(c.sp - 1), ..c }, m.write(stack_addr(c.sp), v))
}

/// Pulls one byte: increment the stack pointer, then read there.
pub open spec fn pull(c: CPU, m: MemoryView) -> (CPU, u8) {
    let sp = wrap8(c.sp + 1);
    (CPU { sp, ..c }, m.read(stack_addr(sp)))
}

/// Pushes a word, high byte first.
pub open spec fn push_word(c: CPU, m: MemoryView, w: u16) -> (CPU, MemoryView) {
    let (c1, m1) = push(c, m, hi_byte(w));
    push(c1, m1, lo_byte(w))
}

/// Pulls a word, low byte first.
pub open spec fn pull_word(c: CPU, m: MemoryView) -> (CPU, u16) {
    let (c1, lo) = pull(c, m);
    let (c2, hi) = pull(c1, m);
    (c2, word(lo, hi))
}

/// Extra cycles of a taken branch: one, and one more across a page.
pub open spec fn branch_ticks(old_pc: u16, new_pc: u16) -> u8 {
    if page(old_pc) != page(new_pc) { 2 } else { 1 }
}

/// Interrupt entry: push PC and `P` (with the given B bit), set I, jump
/// through the vector.
pub open spec fn interrupt(c: CPU, m: MemoryView, vector: u16, brk: bool) -> (CPU, MemoryView) {
    let (c1, m1) = push_word(c, m, c.pc);
    let (c2, m2) = push(c1, m1, if brk { pushed_status(c) } else { status_byte(c) });
    (CPU { interrupt_disable: true, pc: m2.read_word(vector), ..c2 }, m2)
}

/// The state after RESET, with the bus as it is.
pub open spec fn reset_state(c: CPU, m: MemoryView) -> CPU {
    CPU {
        a: 0,
        x: 0,
        y: 0,
        pc: m.read_word(0xFFFC),
        sp: 0xFD,
        carry: false,
        zero: false,
        interrupt_disable: true,
        decimal: false,
        overflow: false,
        negative: false,
        cycles: 7,
        nmi_pending: false,
        irq_line: c.irq_line,
        invalid_opcodes: 0,
    }
}

/// An indexed address and whether the index carried into the high byte.
pub open spec fn indexed(base: u16, index: u8) -> (u16, bool) {
    let a = wrap16(base + index);
    (a, page(base) != page(a))
}

/// Where `JMP (ptr)` takes its high byte: the next byte of the same page.
pub open spec fn indirect_high(ptr: u16) -> u16 {
    (page(ptr) * 256 + (ptr as int % 256 + 1) % 256) as u16
}

/// Effective address and page crossing of `mode`, whose operand bytes
/// start at `pc`. A branch's address is its target.
#[verifier::opaque]
pub open spec fn operand(c: CPU, m: MemoryView, mode: Mode, pc: u16) -> (u16, bool) {
    match mode {
        Mode::Implied | Mode::Accumulator => (0, false),
        Mode::Immediate => (pc, false),
        Mode::ZeroPage => (m.read(pc) as u16, false),
        Mode::ZeroPageX => (wrap8(m.read(pc) + c.x) as u16, false),
        Mode::ZeroPageY => (wrap8(m.read(pc) + c.y) as u16, false),
        Mode::Absolute => (m.read_word(pc), false),
        Mode::AbsoluteX => indexed(m.read_word(pc), c.x),
        Mode::AbsoluteY => indexed(m.read_word(pc), c.y),
        Mode::Indirect => {
            let ptr = m.read_word(pc);
            (word(m.read(ptr), m.read(indirect_high(ptr))), false)
        },
        Mode::IndirectX => (m.read_word_zero_page(wrap8(m.read(pc) + c.x) as u16), false),
        Mode::IndirectY => indexed(m.read_word_zero_page(m.read(pc) as u16), c.y),
        Mode::Relative => {
            let next = wrap16(pc + 1);
            let target = wrap16(next + signed(m.read(pc)));
            (target, page(next) != page(target))
        },
    }
}

/// The four shifts and rotates by operation.
pub open spec fn shift(op: Op, v: u8, carry: bool) -> (u8, bool) {
    match op {
        Op::Asl | Op::Slo => asl(v),
        Op::Lsr | Op::Sre => lsr(v),
        Op::Rol | Op::Rla => rol(v, carry),
        _ => ror(v, carry),
    }
}

/// Whether a branch operation's condition holds.
pub open spec fn branch_taken(op: Op, c: CPU) -> bool {
    match op {
        Op::Bpl => !c.negative,
        Op::Bmi => c.negative,
        Op::Bvc => !c.overflow,
        Op::Bvs => c.overflow,
        Op::Bcc => !c.carry,
        Op::Bcs => c.carry,
        Op::Bne => !c.zero,
        _ => c.zero,
    }
}

pub open spec fn with_a(c: CPU, v: u8) -> CPU {
    with_nz(CPU { a: v, ..c }, v)
}

pub open spec fn with_x(c: CPU, v: u8) -> CPU {
    with_nz(CPU { x: v, ..c }, v)
}

pub open spec fn with_y(c: CPU, v: u8) -> CPU {
    with_nz(CPU { y: v, ..c }, v)
}

pub open spec fn count_invalid(c: CPU) -> CPU {
    CPU {
        invalid_opcodes: if c.invalid_opcodes < u64::MAX {
            (c.invalid_opcodes + 1) as u64
        } else {
            c.invalid_opcodes
        },
        ..c
    }
}

/// The effect of `op` in `mode` on effective address `addr`, with `c.pc`
/// already past the operand: the new state, the new bus and the extra
/// cycles of a taken branch.
#[verifier::opaque]
pub open spec fn perform(op: Op, mode: Mode, addr: u16, c: CPU, m: MemoryView) -> (CPU, MemoryView, int) {
    match op {
        Op::Adc | Op::Sbc | Op::And | Op::Ora | Op::Eor | Op::Cmp | Op::Cpx | Op::Cpy | Op::Bit | Op::Lda | Op::Ldx | Op::Ldy | Op::Lax => perform_read(op, mode, addr, c, m),
        Op::Asl | Op::Lsr | Op::Rol | Op::Ror | Op::Inc | Op::Dec | Op::Dcp | Op::Isb | Op::Slo | Op::Rla | Op::Sre | Op::Rra => perform_modify(op, mode, addr, c, m),
        Op::Inx | Op::Dex | Op::Iny | Op::Dey | Op::Sta | Op::Stx | Op::Sty | Op::Sax | Op::Tax | Op::Tay | Op::Txa | Op::Tya | Op::Tsx | Op::Txs | Op::Clc | Op::Sec | Op::Cli | Op::Sei | Op::Clv | Op::Cld | Op::Sed | Op::Nop | Op::Invalid | Op::InvalidRead => perform_register(op, mode, addr, c, m),
        Op::Bpl | Op::Bmi | Op::Bvc | Op::Bvs | Op::Bcc | Op::Bcs | Op::Bne | Op::Beq | Op::Jmp | Op::Jsr | Op::Rts | Op::Rti | Op::Brk | Op::Pha | Op::Php | Op::Pla | Op::Plp => perform_control(op, mode, addr, c, m),
    }
}

/// Operations that read their operand and set registers and flags.
#[verifier::opaque]
pub open spec fn perform_read(op: Op, mode: Mode, addr: u16, c: CPU, m: MemoryView) -> (CPU, MemoryView, int) {
    let v = m.read(addr);
    match op {
        Op::Adc => (adc(c, v), m, 0),
        Op::Sbc => (sbc(c, v), m, 0),
        Op::And => (with_a(c, c.a & v), m, 0),
        Op::Ora => (with_a(c, c.a | v), m, 0),
        Op::Eor => (with_a(c, c.a ^ v), m, 0),
        Op::Cmp => (compare(c, c.a, v), m, 0),
        Op::Cpx => (compare(c, c.x, v), m, 0),
        Op::Cpy => (compare(c, c.y, v), m, 0),
        Op::Bit => (CPU { zero: c.a & v == 0, negative: v >= 0x80, overflow: v & 0x40 != 0, ..c }, m, 0),
        Op::Lda => (with_a(c, v), m, 0),
        Op::Ldx => (with_x(c, v), m, 0),
        Op::Ldy => (with_y(c, v), m, 0),
        Op::Lax => (with_x(CPU { a: v, ..c }, v), m, 0),
        _ => (c, m, 0),
    }
}

/// Read-modify-write operations on the accumulator or on memory.
#[verifier::opaque]
pub open spec fn perform_modify(op: Op, mode: Mode, addr: u16, c: CPU, m: MemoryView) -> (CPU, MemoryView, int) {
    let v = m.read(addr);
    match op {
        Op::Asl | Op::Lsr | Op::Rol | Op::Ror => if mode == Mode::Accumulator {
            let s = shift(op, c.a, c.carry);
            (CPU { a: s.0, ..with_shifted(c, s) }, m, 0)
        } else {
            let s = shift(op, v, c.carry);
            (with_shifted(c, s), m.write(addr, s.0), 0)
        },
        Op::Inc => (with_nz(c, wrap8(v + 1)), m.write(addr, wrap8(v + 1)), 0),
        Op::Dec => (with_nz(c, wrap8(v - 1)), m.write(addr, wrap8(v - 1)), 0),
        Op::Dcp => (compare(c, c.a, wrap8(v - 1)), m.write(addr, wrap8(v - 1)), 0),
        Op::Isb => (sbc(c, wrap8(v + 1)), m.write(addr, wrap8(v + 1)), 0),
        Op::Slo | Op::Rla | Op::Sre | Op::Rra => {
            let s = shift(op, v, c.carry);
            let c1 = CPU { carry: s.1, ..c };
            let c2 = match op {
                Op::Slo => with_a(c1, c.a | s.0),
                Op::Rla => with_a(c1, c.a & s.0),
                Op::Sre => with_a(c1, c.a ^ s.0),
                _ => adc(c1, s.0),
            };
            (c2, m.write(addr, s.0), 0)
        },
        _ => (c, m, 0),
    }
}

/// Stores, transfers, increments of registers, flag operations, no-ops.
#[verifier::opaque]
pub open spec fn perform_register(op: Op, mode: Mode, addr: u16, c: CPU, m: MemoryView) -> (CPU, MemoryView, int) {
    match op {
        Op::Inx => (with_x(c, wrap8(c.x + 1)), m, 0),
        Op::Dex => (with_x(c, wrap8(c.x - 1)), m, 0),
        Op::Iny => (with_y(c, wrap8(c.y + 1)), m, 0),
        Op::Dey => (with_y(c, wrap8(c.y - 1)), m, 0),
        Op::Sta => (c, m.write(addr, c.a), 0),
        Op::Stx => (c, m.write(addr, c.x), 0),
        Op::Sty => (c, m.write(addr, c.y), 0),
        Op::Sax => (c, m.write(addr, c.a & c.x), 0),
        Op::Tax => (with_x(c, c.a), m, 0),
        Op::Tay => (with_y(c, c.a), m, 0),
        Op::Txa => (with_a(c, c.x), m, 0),
        Op::Tya => (with_a(c, c.y), m, 0),
        Op::Tsx => (with_x(c, c.sp), m, 0),
        Op::Txs => (CPU { sp: c.x, ..c }, m, 0),
        Op::Clc => (CPU { carry: false, ..c }, m, 0),
        Op::Sec => (CPU { carry: true, ..c }, m, 0),
        Op::Cli => (CPU { interrupt_disable: false, ..c }, m, 0),
        Op::Sei => (CPU { interrupt_disable: true, ..c }, m, 0),
        Op::Clv => (CPU { overflow: false, ..c }, m, 0),
        Op::Cld => (CPU { decimal: false, ..c }, m, 0),
        Op::Sed => (CPU { decimal: true, ..c }, m, 0),
        Op::Nop => (c, m, 0),
        Op::Invalid | Op::InvalidRead => (count_invalid(c), m, 0),
        _ => (c, m, 0),
    }
}

/// Branches, jumps, subroutines, BRK, and the stack.
#[verifier::opaque]
pub open spec fn perform_control(op: Op, mode: Mode, addr: u16, c: CPU, m: MemoryView) -> (CPU, MemoryView, int) {
    match op {
        Op::Bpl | Op::Bmi | Op::Bvc | Op::Bvs | Op::Bcc | Op::Bcs | Op::Bne | Op::Beq => if branch_taken(op, c) {
            (CPU { pc: addr, ..c }, m, branch_ticks(c.pc, addr) as int)
        } else {
            (c, m, 0)
        },
        Op::Jmp => (CPU { pc: addr, ..c }, m, 0),
        Op::Jsr => {
            let (c1, m1) = push_word(c, m, wrap16(c.pc - 1));
            (CPU { pc: addr, ..c1 }, m1, 0)
        },
        Op::Rts => {
            let (c1, w) = pull_word(c, m);
            (CPU { pc: wrap16(w + 1), ..c1 }, m, 0)
        },
        Op::Rti => {
            let (c1, p) = pull(c, m);
            let (c2, w) = pull_word(with_status(c1, p), m);
            (CPU { pc: w, ..c2 }, m, 0)
        },
        Op::Brk => {
            let (c1, m1) = interrupt(CPU { pc: wrap16(c.pc + 1), ..c }, m, 0xFFFE, true);
            (c1, m1, 0)
        },
        Op::Pha => {
            let (c1, m1) = push(c, m, c.a);
            (c1, m1, 0)
        },
        Op::Php => {
            let (c1, m1) = push(c, m, pushed_status(c));
            (c1, m1, 0)
        },
        Op::Pla => {
            let (c1, v1) = pull(c, m);
            (with_a(c1, v1), m, 0)
        },
        Op::Plp => {
            let (c1, p) = pull(c, m);
            (with_status(c1, p), m, 0)
        },
        _ => (c, m, 0),
    }
}

/// One instruction at `c.pc`: fetch, decode, resolve the operand, perform.
/// Returns the new state and bus and the cycles it took: the base count,
/// one for a page crossed by a read, and a taken branch's extra.
#[verifier::opaque]
pub open spec fn run_instruction(c: CPU, m: MemoryView) -> (CPU, MemoryView, int) {
    let ins = instruction_of(m.read(c.pc));
    let (addr, crossed) = operand(c, m, ins.mode, wrap16(c.pc + 1));
    let c1 = CPU { pc: wrap16(c.pc + 1 + operand_len(ins.mode)), ..c };
    let (c2, m2, extra) = perform(ins.op, ins.mode, addr, c1, m);
    (c2, m2, ins.cycles + (if reads_operand(ins.op) && crossed { 1int } else { 0 }) + extra)
}

/// Cycles an OAM DMA stalls the CPU: 513, one more from an odd cycle.
pub open spec fn dma_cycles(cycles: int) -> int {
    513 + cycles % 2
}

/// What `step` does: service a pending NMI, else an IRQ that is not masked,
/// else run one instruction; then run an OAM DMA that the instruction
/// requested. Returns the new state and bus and the cycles consumed.
pub open spec fn step(c: CPU, m: MemoryView) -> (CPU, MemoryView, int) {
    let (c1, m1, n) = if c.nmi_pending {
        let (c2, m2) = interrupt(CPU { nmi_pending: false, ..c }, m, 0xFFFA, false);
        (c2, m2, 7int)
    } else if c.irq_line && !c.interrupt_disable {
        let (c2, m2) = interrupt(c, m, 0xFFFE, false);
        (c2, m2, 7int)
    } else {
        run_instruction(c, m)
    };
    let total = n + if m1.dma_page is Some { dma_cycles(c.cycles + n) } else { 0 };
    let cycles = if c1.cycles + total <= u64::MAX { (c1.cycles + total) as u64 } else { u64::MAX };
    (CPU { cycles, ..c1 }, m1.run_dma(), total)
}

} // verus!
