//! Properties of the bus and of the instruction set, proved over the same
//! spec functions that the interpreter's contracts use.
use vstd::prelude::*;
use crate::cpu::CPU;
use crate::memory::{MemoryView, word};
use crate::opcodes::{Instruction, Mode, Op, instruction_of};
use crate::semantics::{
    adc, bit, operand, perform, perform_control, pull, push, pushed_status, rol, run_instruction,
    sbc, stack_addr, step, with_a, wrap16, wrap8,
};

verus! {

/// Every address below `$2000` reads the same as its canonical RAM address
/// `addr & 0x07FF`.
pub proof fn lemma_ram_mirror(m: MemoryView, addr: u16)
    requires
        addr < 0x2000,
    ensures
        m.read(addr & 0x07FF) == m.read(addr),
{
    reveal(MemoryView::read);
    assert((addr & 0x07FF) < 0x2000 && (addr & 0x07FF) % 0x800 == addr % 0x800) by (bit_vector);
}

/// Every address in `$2000-$3FFF` reads the same as the PPU register
/// `0x2000 | (addr & 7)` that it mirrors.
pub proof fn lemma_ppu_mirror(m: MemoryView, addr: u16)
    requires
        0x2000 <= addr < 0x4000,
    ensures
        m.read(addr) == m.read(0x2000 | (addr & 7)),
{
    reveal(MemoryView::read);
    assert(0x2000 <= (0x2000 | (addr & 7)) < 0x2008 && (0x2000 | (addr & 7)) % 8 == addr % 8)
        by (bit_vector);
}

/// The stack pointer is a byte, so every stack access falls in page one,
/// `$0100-$01FF`.
pub proof fn lemma_stack_in_page_one(sp: u8)
    ensures
        0x0100 <= stack_addr(sp) < 0x0200,
{
}

/// PHP pushes the status with bit 5 (and B) set, whatever the flags.
pub proof fn lemma_php_pushes_bit5(c: CPU, m: MemoryView, addr: u16)
    ensures
        perform(Op::Php, Mode::Implied, addr, c, m).1 == m.write(stack_addr(c.sp), pushed_status(c)),
        pushed_status(c) & 0x20 == 0x20,
        pushed_status(c) & 0x10 == 0x10,
{
    reveal(perform);
    reveal(perform_control);
    let f = crate::semantics::flag_bits(c);
    assert((f | 0x20u8 | 0x10u8) & 0x20 == 0x20 && (f | 0x20u8 | 0x10u8) & 0x10 == 0x10) by (bit_vector);
}

/// A zero-page word at `$FF` takes its high byte from `$00`, not `$0100`.
pub proof fn lemma_zero_page_word_wraps(m: MemoryView)
    ensures
        m.read_word_zero_page(0x00FF) == word(m.read(0x00FF), m.read(0x0000)),
{
}

/// `JMP ($xxFF)` takes the target's high byte from `$xx00` of the same page.
pub proof fn lemma_indirect_jump_page_wrap(c: CPU, m: MemoryView, pc: u16)
    requires
        m.read_word(pc) & 0xFF == 0xFF,
    ensures
        operand(c, m, Mode::Indirect, pc).0 == word(
            m.read(m.read_word(pc)),
            m.read(m.read_word(pc) & 0xFF00),
        ),
{
    reveal(operand);
    let ptr = m.read_word(pc);
    assert(ptr & 0xFF == 0xFF ==> (ptr / 256 * 256 + (ptr % 256 + 1) % 256) as u16 == ptr & 0xFF00)
        by (bit_vector);
}

/// With C set, ADC then SBC of the same operand gives back A and C, as long
/// as the ADC does not carry out (`A + v + 1 <= 0xFF`); when it does, A
/// comes back one higher.
pub proof fn lemma_adc_then_sbc(c: CPU, v: u8)
    requires
        c.carry,
        c.a + v + 1 <= 0xFF,
    ensures
        sbc(adc(c, v), v).a == c.a,
        sbc(adc(c, v), v).carry == c.carry,
{
    assert(v ^ 0xFF == 255 - v) by (bit_vector);
}

/// PHA then PLA leaves A and SP as they were and sets N and Z from A.
pub proof fn lemma_pha_then_pla(c: CPU, m: MemoryView, addr: u16)
    requires
        m.wf(),
    ensures
        ({
            let (c1, m1, _) = perform(Op::Pha, Mode::Implied, addr, c, m);
            let (c2, _, _) = perform(Op::Pla, Mode::Implied, addr, c1, m1);
            &&& c2.a == c.a
            &&& c2.sp == c.sp
            &&& c2.zero == (c.a == 0)
            &&& c2.negative == (c.a >= 0x80)
        }),
{
    let (c1, m1) = push(c, m, c.a);
    assert(perform(Op::Pha, Mode::Implied, addr, c, m) == (c1, m1, 0int)) by {
        reveal(perform);
        reveal(perform_control);
    }
    assert(wrap8(wrap8(c.sp - 1) + 1) == c.sp);
    lemma_ram_write_then_read(m, stack_addr(c.sp), c.a);
    let (c2, v) = pull(c1, m1);
    assert(v == c.a);
    assert(perform(Op::Pla, Mode::Implied, addr, c1, m1) == (with_a(c2, v), m1, 0int)) by {
        reveal(perform);
        reveal(perform_control);
    }
}

/// A RAM byte reads back what was last written to it.
pub proof fn lemma_ram_write_then_read(m: MemoryView, addr: u16, value: u8)
    requires
        m.wf(),
        addr < 0x2000,
    ensures
        m.write(addr, value).read(addr) == value,
{
    reveal(MemoryView::read);
    reveal(MemoryView::write);
}

/// ROL applied `n` times, carry in and out.
pub open spec fn rol_times(v: u8, carry: bool, n: nat) -> (u8, bool)
    decreases n,
{
    if n == 0 {
        (v, carry)
    } else {
        let (v1, c1) = rol(v, carry);
        rol_times(v1, c1, (n - 1) as nat)
    }
}

/// Eight ROLs with C clear give back the byte and leave C clear. Through the
/// carry a rotation has nine positions, so eight turns take any other byte
/// `v` to `v >> 1` with C = bit 0 of `v`: zero is the one byte it holds for.
pub proof fn lemma_rol_eight_times(v: u8)
    requires
        v == 0,
    ensures
        rol_times(v, false, 8) == (v, false),
{
    reveal_with_fuel(rol_times, 9);
}

/// A byte and the carry as one nine-bit number, the carry on top.
pub open spec fn nine_bits(v: u8, carry: bool) -> u16 {
    (v + 256 * bit(carry)) as u16
}

/// Rotation left of a nine-bit number.
pub open spec fn rotate_nine(x: u16) -> u16 {
    ((x << 1u16) & 0x1FF) | (x >> 8u16)
}

pub open spec fn rotate_nine_times(x: u16, n: nat) -> u16
    decreases n,
{
    if n == 0 {
        x
    } else {
        rotate_nine_times(rotate_nine(x), (n - 1) as nat)
    }
}

/// One ROL is one turn of the nine bits made of the byte and the carry.
pub proof fn lemma_rol_turns_nine_bits(v: u8, carry: bool)
    ensures
        nine_bits(rol(v, carry).0, rol(v, carry).1) == rotate_nine(nine_bits(v, carry)),
{
    let x = nine_bits(v, carry);
    assert(x < 512 ==> rotate_nine(x) == 2 * (x % 256) + x / 256) by (bit_vector);
    assert(x % 256 == v && x / 256 == bit(carry));
}

/// `n` ROLs are `n` turns of the nine bits.
pub proof fn lemma_rol_times_turns_nine_bits(v: u8, carry: bool, n: nat)
    ensures
        nine_bits(rol_times(v, carry, n).0, rol_times(v, carry, n).1) == rotate_nine_times(
            nine_bits(v, carry),
            n,
        ),
    decreases n,
{
    if n > 0 {
        let (v1, c1) = rol(v, carry);
        lemma_rol_turns_nine_bits(v, carry);
        lemma_rol_times_turns_nine_bits(v1, c1, (n - 1) as nat);
    }
}

/// Nine ROLs give back any byte and the carry: through the carry a
/// rotation turns nine bits.
pub proof fn lemma_rol_nine_times(v: u8, carry: bool)
    ensures
        rol_times(v, carry, 9) == (v, carry),
{
    let x = nine_bits(v, carry);
    lemma_rol_times_turns_nine_bits(v, carry, 9);
    reveal_with_fuel(rotate_nine_times, 10);
    assert(x < 512 ==> rotate_nine(rotate_nine(rotate_nine(rotate_nine(rotate_nine(rotate_nine(
        rotate_nine(rotate_nine(rotate_nine(x)))))))))
        == x) by (bit_vector);
    let (v9, c9) = rol_times(v, carry, 9);
    assert(nine_bits(v9, c9) == x);
    assert(v9 == x % 256 && c9 == (x / 256 == 1));
}

/// Eight ROLs from C clear take any byte `v` to `v >> 1`, with C = bit 0 of
/// `v`: the nine bits turn once short of a full turn.
pub proof fn lemma_rol_eight_times_clear_carry(v: u8)
    ensures
        rol_times(v, false, 8) == ((v / 2) as u8, v % 2 == 1),
{
    let x = nine_bits(v, false);
    lemma_rol_times_turns_nine_bits(v, false, 8);
    reveal_with_fuel(rotate_nine_times, 9);
    assert(x < 256 ==> rotate_nine(rotate_nine(rotate_nine(rotate_nine(rotate_nine(rotate_nine(
        rotate_nine(rotate_nine(x)))))))) == (x >> 1u16) | ((x & 1) << 8u16)) by (bit_vector);
    assert(x < 256 ==> ((x >> 1u16) | ((x & 1) << 8u16)) % 256 == x / 2 && ((x >> 1u16) | ((x & 1)
        << 8u16)) / 256 == x % 2) by (bit_vector);
    let (v8, c8) = rol_times(v, false, 8);
    assert(nine_bits(v8, c8) == (x >> 1u16) | ((x & 1) << 8u16));
}

/// `step` runs the instruction at PC and nothing else: no NMI waits, no
/// unmasked IRQ is raised, no OAM DMA is requested.
pub open spec fn runs_instruction(c: CPU, m: MemoryView) -> bool {
    &&& !c.nmi_pending
    &&& !(c.irq_line && !c.interrupt_disable)
    &&& m.dma_page is None
}

/// The cycle counter after `n` more cycles.
pub open spec fn cycles_after(c: CPU, n: int) -> u64 {
    if c.cycles + n <= u64::MAX { (c.cycles + n) as u64 } else { u64::MAX }
}

/// A write to RAM changes no read outside RAM and requests no DMA.
pub proof fn lemma_ram_write_keeps_rest(m: MemoryView, addr: u16, value: u8, other: u16)
    requires
        addr < 0x2000,
        other >= 0x2000,
    ensures
        m.write(addr, value).read(other) == m.read(other),
        m.write(addr, value).dma_page == m.dma_page,
        m.wf() ==> m.write(addr, value).wf(),
{
    reveal(MemoryView::read);
    reveal(MemoryView::write);
}

/// Executing `JMP ($xxFF)` (`6C FF xx`) jumps through the page-wrapped
/// pointer in 5 cycles and changes nothing else.
pub proof fn lemma_execute_indirect_jump(c: CPU, m: MemoryView)
    requires
        runs_instruction(c, m),
        m.read(c.pc) == 0x6C,
        m.read_word(wrap16(c.pc + 1)) & 0xFF == 0xFF,
    ensures
        ({
            let ptr = m.read_word(wrap16(c.pc + 1));
            let (c1, m1, n) = step(c, m);
            &&& c1 == (CPU {
                pc: word(m.read(ptr), m.read(ptr & 0xFF00)),
                cycles: cycles_after(c, 5),
                ..c
            })
            &&& m1 == m
            &&& n == 5
        }),
{
    let pc1 = wrap16(c.pc + 1);
    let ins = instruction_of(0x6C);
    assert(ins == Instruction { op: Op::Jmp, mode: Mode::Indirect, cycles: 5 });
    lemma_indirect_jump_page_wrap(c, m, pc1);
    let (addr, crossed) = operand(c, m, Mode::Indirect, pc1);
    assert(!crossed) by {
        reveal(operand);
    }
    let c1 = CPU { pc: wrap16(c.pc + 3), ..c };
    assert(perform(Op::Jmp, Mode::Indirect, addr, c1, m) == (CPU { pc: addr, ..c1 }, m, 0int)) by {
        reveal(perform);
        reveal(perform_control);
    }
    assert(run_instruction(c, m) == (CPU { pc: addr, ..c1 }, m, 5int)) by {
        reveal(run_instruction);
    }
}

/// Executing PHP pushes `P` with bit 5 and B set, in 3 cycles, and changes
/// no flag.
pub proof fn lemma_execute_php(c: CPU, m: MemoryView)
    requires
        runs_instruction(c, m),
        m.wf(),
        m.read(c.pc) == 0x08,
    ensures
        ({
            let (c1, m1, n) = step(c, m);
            &&& m1 == m.write(stack_addr(c.sp), pushed_status(c))
            &&& pushed_status(c) & 0x30 == 0x30
            &&& c1 == (CPU {
                pc: wrap16(c.pc + 1),
                sp: wrap8(c.sp - 1),
                cycles: cycles_after(c, 3),
                ..c
            })
            &&& n == 3
        }),
{
    let ins = instruction_of(0x08);
    assert(ins == Instruction { op: Op::Php, mode: Mode::Implied, cycles: 3 });
    let c1 = CPU { pc: wrap16(c.pc + 1), ..c };
    let m1 = m.write(stack_addr(c.sp), pushed_status(c));
    lemma_php_pushes_bit5(c1, m, 0);
    let f = crate::semantics::flag_bits(c);
    assert((f | 0x20u8 | 0x10u8) & 0x30 == 0x30) by (bit_vector);
    assert(run_instruction(c, m) == (CPU { sp: wrap8(c.sp - 1), ..c1 }, m1, 3int))
        by {
        reveal(run_instruction);
        reveal(operand);
        reveal(perform);
        reveal(perform_control);
    }
    lemma_ram_write_keeps_rest(m, stack_addr(c.sp), pushed_status(c), 0x2000);
}

/// Executing PHA writes A on the stack in 3 cycles.
pub proof fn lemma_execute_pha(c: CPU, m: MemoryView)
    requires
        runs_instruction(c, m),
        m.read(c.pc) == 0x48,
    ensures
        step(c, m) == (
            CPU { pc: wrap16(c.pc + 1), sp: wrap8(c.sp - 1), cycles: cycles_after(c, 3), ..c },
            m.write(stack_addr(c.sp), c.a),
            3int,
        ),
{
    let ins = instruction_of(0x48);
    assert(ins == Instruction { op: Op::Pha, mode: Mode::Implied, cycles: 3 });
    let c1 = CPU { pc: wrap16(c.pc + 1), ..c };
    assert(run_instruction(c, m) == (CPU { sp: wrap8(c.sp - 1), ..c1 }, m.write(stack_addr(c.sp), c.a), 3int))
        by {
        reveal(run_instruction);
        reveal(operand);
        reveal(perform);
        reveal(perform_control);
    }
    lemma_ram_write_keeps_rest(m, stack_addr(c.sp), c.a, 0x2000);
}

/// Executing PLA pulls A from the stack and sets N and Z from it, in 4
/// cycles.
pub proof fn lemma_execute_pla(c: CPU, m: MemoryView)
    requires
        runs_instruction(c, m),
        m.read(c.pc) == 0x68,
    ensures
        ({
            let v = m.read(stack_addr(wrap8(c.sp + 1)));
            step(c, m) == (
                with_a(CPU { pc: wrap16(c.pc + 1), sp: wrap8(c.sp + 1), cycles: cycles_after(c, 4), ..c }, v),
                m,
                4int,
            )
        }),
{
    let ins = instruction_of(0x68);
    assert(ins == Instruction { op: Op::Pla, mode: Mode::Implied, cycles: 4 });
    let c1 = CPU { pc: wrap16(c.pc + 1), ..c };
    let v = m.read(stack_addr(wrap8(c.sp + 1)));
    assert(run_instruction(c, m) == (with_a(CPU { sp: wrap8(c.sp + 1), ..c1 }, v), m, 4int)) by {
        reveal(run_instruction);
        reveal(operand);
        reveal(perform);
        reveal(perform_control);
    }
}

/// Executing PHA then PLA from ROM leaves A, SP and every flag but N and Z
/// as they were, sets N and Z from A, and moves PC past both, in 3 then 4
/// cycles. (From RAM the push could overwrite the PLA through a mirror.)
pub proof fn lemma_execute_pha_then_pla(c: CPU, m: MemoryView)
    requires
        runs_instruction(c, m),
        m.wf(),
        0x8000 <= c.pc < 0xFFFF,
        m.read(c.pc) == 0x48,
        m.read((c.pc + 1) as u16) == 0x68,
    ensures
        ({
            let (c1, m1, n1) = step(c, m);
            let (c2, m2, n2) = step(c1, m1);
            &&& c2 == (CPU {
                pc: wrap16(c.pc + 2),
                cycles: cycles_after(c1, 4),
                zero: c.a == 0,
                negative: c.a >= 0x80,
                ..c
            })
            &&& m2 == m.write(stack_addr(c.sp), c.a)
            &&& n1 == 3
            &&& n2 == 4
        }),
{
    lemma_execute_pha(c, m);
    let (c1, m1, n1) = step(c, m);
    lemma_ram_write_keeps_rest(m, stack_addr(c.sp), c.a, (c.pc + 1) as u16);
    assert(wrap16(c.pc + 1) == (c.pc + 1) as u16);
    lemma_execute_pla(c1, m1);
    assert(wrap8(wrap8(c.sp - 1) + 1) == c.sp);
    lemma_ram_write_then_read(m, stack_addr(c.sp), c.a);
    assert(m1.read(stack_addr(wrap8(c1.sp + 1))) == c.a);
    assert(wrap16(c1.pc + 1) == wrap16(c.pc + 2));
}

} // verus!
