use nes_core::cpu::CPU;
use nes_core::memory::Memory;
use nes_core::rom::Rom;

/// A machine whose 16 KiB PRG holds `code` at `$8000`, with the reset
/// vector at `$8000` and the IRQ/BRK vector at `$9000`.
fn machine(code: &[u8]) -> (CPU, Memory) {
    let mut prg = vec![0u8; 0x4000];
    prg[..code.len()].copy_from_slice(code);
    prg[0x3FFC] = 0x00;
    prg[0x3FFD] = 0x80;
    prg[0x3FFE] = 0x00;
    prg[0x3FFF] = 0x90;
    prg[0x3FFA] = 0x00;
    prg[0x3FFB] = 0xA0;
    let rom = Rom { prg_rom: prg, chr_rom: vec![], mapper: 0, mirroring: 0 };
    let mut memory = Memory::new();
    memory.load_rom(&rom);
    let cpu = CPU::new(&memory);
    (cpu, memory)
}

#[test]
fn reset_state() {
    let (cpu, _) = machine(&[]);
    assert_eq!((cpu.a, cpu.x, cpu.y), (0, 0, 0));
    assert_eq!(cpu.sp, 0xFD);
    assert_eq!(cpu.status(), 0x24);
    assert_eq!(cpu.pc, 0x8000);
    assert_eq!(cpu.cycles, 7);
}

#[test]
fn immediate_load_and_transfer() {
    let (mut cpu, mut mem) = machine(&[0xA9, 0x42, 0xAA, 0x00]);
    assert_eq!(cpu.execute(&mut mem), 2);
    assert_eq!(cpu.execute(&mut mem), 2);
    assert_eq!(cpu.a, 0x42);
    assert_eq!(cpu.x, 0x42);
    assert!(!cpu.negative);
    assert!(!cpu.zero);
    assert_eq!(cpu.cycles, 11);
}

#[test]
fn carry_chain() {
    let (mut cpu, mut mem) = machine(&[0xA9, 0xFF, 0x69, 0x01, 0x00]);
    cpu.execute(&mut mem);
    cpu.execute(&mut mem);
    assert_eq!(cpu.a, 0x00);
    assert!(cpu.carry);
    assert!(cpu.zero);
    assert!(!cpu.overflow);
}

#[test]
fn signed_overflow() {
    let (mut cpu, mut mem) = machine(&[0xA9, 0x7F, 0x69, 0x01, 0x00]);
    cpu.execute(&mut mem);
    cpu.execute(&mut mem);
    assert_eq!(cpu.a, 0x80);
    assert!(cpu.negative);
    assert!(cpu.overflow);
    assert!(!cpu.carry);
}

#[test]
fn subroutine_call_and_return() {
    let (mut cpu, mut mem) = machine(&[0x20, 0x06, 0x80, 0xEA, 0xEA, 0xEA, 0x60]);
    let sp = cpu.sp;
    let mut instructions = 0;
    assert_eq!(cpu.execute(&mut mem), 6);
    instructions += 1;
    assert_eq!(cpu.pc, 0x8006);
    assert_eq!(cpu.sp, sp.wrapping_sub(2));
    assert_eq!(mem.read_byte(0x01FD), 0x80);
    assert_eq!(mem.read_byte(0x01FC), 0x02);
    assert_eq!(cpu.execute(&mut mem), 6);
    instructions += 1;
    assert_eq!(cpu.pc, 0x8003);
    assert_eq!(cpu.sp, sp);
    assert_eq!(instructions, 2);
}

#[test]
fn indirect_jump_page_bug() {
    let (mut cpu, mut mem) = machine(&[0x6C, 0xFF, 0x02]);
    mem.write_byte(0x02FF, 0x00);
    mem.write_byte(0x0200, 0x80);
    mem.write_byte(0x0300, 0x55);
    assert_eq!(cpu.execute(&mut mem), 5);
    assert_eq!(cpu.pc, 0x8000);
}

#[test]
fn branch_offset_0x80_reaches_back_126() {
    // BNE at $8100 with Z clear.
    let mut code = vec![0xEAu8; 0x102];
    code[0x100] = 0xD0;
    code[0x101] = 0x80;
    let (mut cpu, mut mem) = machine(&code);
    cpu.pc = 0x8100;
    let cycles = cpu.execute(&mut mem);
    assert_eq!(cpu.pc, 0x8100 - 126);
    // Taken and into the previous page: 2 + 1 + 1.
    assert_eq!(cycles, 4);
}

#[test]
fn branch_not_taken_and_taken_same_page() {
    // LDA #0 sets Z; BNE not taken; BEQ +2 taken within the page.
    let (mut cpu, mut mem) = machine(&[0xA9, 0x00, 0xD0, 0x05, 0xF0, 0x02]);
    cpu.execute(&mut mem);
    assert_eq!(cpu.execute(&mut mem), 2);
    assert_eq!(cpu.pc, 0x8004);
    assert_eq!(cpu.execute(&mut mem), 3);
    assert_eq!(cpu.pc, 0x8008);
}

#[test]
fn inx_wraps_and_sets_zero() {
    let (mut cpu, mut mem) = machine(&[0xA2, 0xFF, 0xE8]);
    cpu.execute(&mut mem);
    cpu.execute(&mut mem);
    assert_eq!(cpu.x, 0x00);
    assert!(cpu.zero);
    assert!(!cpu.negative);
}

#[test]
fn lda_0x80_sets_negative() {
    let (mut cpu, mut mem) = machine(&[0xA9, 0x80]);
    cpu.execute(&mut mem);
    assert!(cpu.negative);
    assert!(!cpu.zero);
}

#[test]
fn php_pushes_bit5_and_b() {
    // CLC; PHP
    let (mut cpu, mut mem) = machine(&[0x18, 0x08]);
    cpu.execute(&mut mem);
    assert_eq!(cpu.execute(&mut mem), 3);
    let pushed = mem.read_byte(0x01FD);
    assert_eq!(pushed & 0x20, 0x20);
    assert_eq!(pushed & 0x10, 0x10);
    assert_eq!(pushed, 0x34);
    assert_eq!(cpu.sp, 0xFC);
}

#[test]
fn plp_ignores_b_and_keeps_bit5() {
    // LDA #$FF; PHA; PLP
    let (mut cpu, mut mem) = machine(&[0xA9, 0xFF, 0x48, 0x28]);
    cpu.execute(&mut mem);
    cpu.execute(&mut mem);
    assert_eq!(cpu.execute(&mut mem), 4);
    assert_eq!(cpu.status(), 0xEF);
}

#[test]
fn pha_then_pla_restores_a() {
    // LDA #$80; PHA; LDA #$00; PLA
    let (mut cpu, mut mem) = machine(&[0xA9, 0x80, 0x48, 0xA9, 0x00, 0x68]);
    for _ in 0..4 {
        cpu.execute(&mut mem);
    }
    assert_eq!(cpu.a, 0x80);
    assert!(cpu.negative);
    assert!(!cpu.zero);
    assert_eq!(cpu.sp, 0xFD);
}

#[test]
fn stack_lives_in_page_one() {
    // LDX #$00; TXS; LDA #$77; PHA: SP wraps to $FF, byte at $0100.
    let (mut cpu, mut mem) = machine(&[0xA2, 0x00, 0x9A, 0xA9, 0x77, 0x48]);
    for _ in 0..4 {
        cpu.execute(&mut mem);
    }
    assert_eq!(mem.read_byte(0x0100), 0x77);
    assert_eq!(cpu.sp, 0xFF);
}

#[test]
fn adc_then_sbc_with_carry_set() {
    // SEC; LDA #$10; ADC #$20; SBC #$20
    let (mut cpu, mut mem) = machine(&[0x38, 0xA9, 0x10, 0x69, 0x20, 0xE9, 0x20]);
    cpu.execute(&mut mem);
    cpu.execute(&mut mem);
    cpu.execute(&mut mem);
    assert_eq!(cpu.a, 0x31);
    assert!(!cpu.carry);
    cpu.execute(&mut mem);
    assert_eq!(cpu.a, 0x10);
    assert!(cpu.carry);
}

#[test]
fn sbc_borrow() {
    // SEC; LDA #$00; SBC #$01
    let (mut cpu, mut mem) = machine(&[0x38, 0xA9, 0x00, 0xE9, 0x01]);
    for _ in 0..3 {
        cpu.execute(&mut mem);
    }
    assert_eq!(cpu.a, 0xFF);
    assert!(!cpu.carry);
    assert!(cpu.negative);
}

#[test]
fn rol_eight_times_from_zero_and_from_0x80() {
    // CLC; LDA #$00; ROL A x8
    let mut code = vec![0x18, 0xA9, 0x00];
    code.extend([0x2A; 8]);
    let (mut cpu, mut mem) = machine(&code);
    for _ in 0..10 {
        cpu.execute(&mut mem);
    }
    assert_eq!(cpu.a, 0x00);
    assert!(!cpu.carry);
    // From $80 eight turns through the carry leave $40.
    let mut code = vec![0x18, 0xA9, 0x80];
    code.extend([0x2A; 8]);
    let (mut cpu, mut mem) = machine(&code);
    for _ in 0..10 {
        cpu.execute(&mut mem);
    }
    assert_eq!(cpu.a, 0x40);
    assert!(!cpu.carry);
}

#[test]
fn shifts_and_rotates() {
    // LDA #$81; ASL A -> $02 C=1; ROR A -> $81 C=0; LSR A -> $40 C=1
    let (mut cpu, mut mem) = machine(&[0xA9, 0x81, 0x0A, 0x6A, 0x4A]);
    cpu.execute(&mut mem);
    cpu.execute(&mut mem);
    assert_eq!((cpu.a, cpu.carry), (0x02, true));
    cpu.execute(&mut mem);
    assert_eq!((cpu.a, cpu.carry, cpu.negative), (0x81, false, true));
    cpu.execute(&mut mem);
    assert_eq!((cpu.a, cpu.carry), (0x40, true));
}

#[test]
fn compare_sets_carry_and_zero() {
    // LDA #$40; CMP #$40; CMP #$41
    let (mut cpu, mut mem) = machine(&[0xA9, 0x40, 0xC9, 0x40, 0xC9, 0x41]);
    cpu.execute(&mut mem);
    cpu.execute(&mut mem);
    assert!(cpu.carry && cpu.zero);
    cpu.execute(&mut mem);
    assert!(!cpu.carry && !cpu.zero && cpu.negative);
    assert_eq!(cpu.a, 0x40);
}

#[test]
fn bit_test() {
    // LDA #$01; BIT $10 with $10 = $C0
    let (mut cpu, mut mem) = machine(&[0xA9, 0x01, 0x24, 0x10]);
    mem.write_byte(0x0010, 0xC0);
    cpu.execute(&mut mem);
    assert_eq!(cpu.execute(&mut mem), 3);
    assert!(cpu.zero && cpu.negative && cpu.overflow);
}

#[test]
fn absolute_x_page_cross_penalty() {
    // LDX #$01; LDA $02FF,X reads $0300; STA $02FF,X pays no penalty.
    let (mut cpu, mut mem) = machine(&[0xA2, 0x01, 0xBD, 0xFF, 0x02, 0x9D, 0xFF, 0x02]);
    mem.write_byte(0x0300, 0x99);
    cpu.execute(&mut mem);
    assert_eq!(cpu.execute(&mut mem), 5);
    assert_eq!(cpu.a, 0x99);
    assert_eq!(cpu.execute(&mut mem), 5);
}

#[test]
fn indirect_indexed_modes() {
    // LDX #$04; LDA ($FC,X) -> pointer at $00/$01; LDY #$01; LDA ($FF),Y
    let (mut cpu, mut mem) = machine(&[0xA2, 0x04, 0xA1, 0xFC, 0xA0, 0x01, 0xB1, 0xFF]);
    mem.write_byte(0x0000, 0x34);
    mem.write_byte(0x0001, 0x02);
    mem.write_byte(0x0234, 0x5A);
    mem.write_byte(0x00FF, 0x33);
    mem.write_byte(0x0235, 0x6B);
    cpu.execute(&mut mem);
    assert_eq!(cpu.execute(&mut mem), 6);
    assert_eq!(cpu.a, 0x5A);
    cpu.execute(&mut mem);
    // ($FF) takes its high byte from $00: pointer $3433, plus Y.
    assert_eq!(cpu.execute(&mut mem), 5);
    assert_eq!(cpu.a, mem.read_byte(0x3434));
}

#[test]
fn zero_page_x_wraps() {
    // LDX #$FF; LDA $80,X reads $7F
    let (mut cpu, mut mem) = machine(&[0xA2, 0xFF, 0xB5, 0x80]);
    mem.write_byte(0x007F, 0x11);
    cpu.execute(&mut mem);
    assert_eq!(cpu.execute(&mut mem), 4);
    assert_eq!(cpu.a, 0x11);
}

#[test]
fn inc_dec_memory() {
    // INC $10; DEC $11
    let (mut cpu, mut mem) = machine(&[0xE6, 0x10, 0xC6, 0x11]);
    mem.write_byte(0x0010, 0xFF);
    assert_eq!(cpu.execute(&mut mem), 5);
    assert_eq!(mem.read_byte(0x0010), 0x00);
    assert!(cpu.zero);
    cpu.execute(&mut mem);
    assert_eq!(mem.read_byte(0x0011), 0xFF);
    assert!(cpu.negative);
}

#[test]
fn brk_pushes_pc_plus_two_and_b() {
    let (mut cpu, mut mem) = machine(&[0x00, 0xEA]);
    assert_eq!(cpu.execute(&mut mem), 7);
    assert_eq!(cpu.pc, 0x9000);
    assert!(cpu.interrupt_disable);
    assert_eq!(mem.read_byte(0x01FD), 0x80);
    assert_eq!(mem.read_byte(0x01FC), 0x02);
    assert_eq!(mem.read_byte(0x01FB), 0x34);
}

#[test]
fn rti_returns_from_brk() {
    let mut code = vec![0xEAu8; 0x1001];
    code[0] = 0x00;
    code[0x1000] = 0x40;
    let (mut cpu, mut mem) = machine(&code);
    cpu.execute(&mut mem);
    assert_eq!(cpu.execute(&mut mem), 6);
    assert_eq!(cpu.pc, 0x8002);
    assert_eq!(cpu.sp, 0xFD);
}

#[test]
fn nmi_is_serviced_before_the_next_instruction() {
    let (mut cpu, mut mem) = machine(&[0xEA]);
    cpu.trigger_nmi();
    assert_eq!(cpu.execute(&mut mem), 7);
    assert_eq!(cpu.pc, 0xA000);
    assert!(!cpu.nmi_pending);
    assert_eq!(mem.read_byte(0x01FB) & 0x30, 0x20);
}

#[test]
fn irq_waits_while_masked() {
    // CLI after one masked step.
    let (mut cpu, mut mem) = machine(&[0x58, 0xEA]);
    cpu.set_irq(true);
    cpu.execute(&mut mem);
    assert_eq!(cpu.pc, 0x8001);
    assert_eq!(cpu.execute(&mut mem), 7);
    assert_eq!(cpu.pc, 0x9000);
    assert_eq!(mem.read_byte(0x01FB) & 0x10, 0);
}

#[test]
fn unofficial_lax_and_sax() {
    // LAX $10; LDA #$0F; SAX $11
    let (mut cpu, mut mem) = machine(&[0xA7, 0x10, 0xA9, 0x0F, 0x87, 0x11]);
    mem.write_byte(0x0010, 0x3C);
    cpu.execute(&mut mem);
    assert_eq!((cpu.a, cpu.x), (0x3C, 0x3C));
    cpu.execute(&mut mem);
    cpu.execute(&mut mem);
    assert_eq!(mem.read_byte(0x0011), 0x0C);
}

#[test]
fn unofficial_dcp_and_isb() {
    // LDA #$05; DCP $10 ($06 -> $05, equal); ISB $11 ($00 -> $01, A = 5 - 1)
    let (mut cpu, mut mem) = machine(&[0xA9, 0x05, 0xC7, 0x10, 0xE7, 0x11]);
    mem.write_byte(0x0010, 0x06);
    cpu.execute(&mut mem);
    assert_eq!(cpu.execute(&mut mem), 5);
    assert_eq!(mem.read_byte(0x0010), 0x05);
    assert!(cpu.zero && cpu.carry);
    cpu.execute(&mut mem);
    assert_eq!(mem.read_byte(0x0011), 0x01);
    assert_eq!(cpu.a, 0x04);
}

#[test]
fn unofficial_slo_rla_sre_rra() {
    // LDA #$01; SLO $10 ($81 -> $02, C=1, A=$03)
    let (mut cpu, mut mem) = machine(&[0xA9, 0x01, 0x07, 0x10, 0x27, 0x11, 0x47, 0x12, 0x67, 0x13]);
    mem.write_byte(0x0010, 0x81);
    mem.write_byte(0x0011, 0x01);
    mem.write_byte(0x0012, 0x03);
    mem.write_byte(0x0013, 0x02);
    cpu.execute(&mut mem);
    cpu.execute(&mut mem);
    assert_eq!((mem.read_byte(0x0010), cpu.a, cpu.carry), (0x02, 0x03, true));
    // RLA $11: $01 -> $03 (carry in), A = $03 & $03
    cpu.execute(&mut mem);
    assert_eq!((mem.read_byte(0x0011), cpu.a, cpu.carry), (0x03, 0x03, false));
    // SRE $12: $03 -> $01, C=1, A = $03 ^ $01
    cpu.execute(&mut mem);
    assert_eq!((mem.read_byte(0x0012), cpu.a, cpu.carry), (0x01, 0x02, true));
    // RRA $13: $02 -> $81 (carry in), C=0, A = $02 + $81
    cpu.execute(&mut mem);
    assert_eq!((mem.read_byte(0x0013), cpu.a, cpu.carry), (0x81, 0x83, false));
}

#[test]
fn multi_byte_nops_skip_their_operands() {
    // NOP #imm; NOP zp; NOP abs; NOP abs,X
    let (mut cpu, mut mem) = machine(&[0x80, 0x00, 0x04, 0x00, 0x0C, 0x00, 0x00, 0x1C, 0x00, 0x00]);
    assert_eq!(cpu.execute(&mut mem), 2);
    assert_eq!(cpu.execute(&mut mem), 3);
    assert_eq!(cpu.execute(&mut mem), 4);
    assert_eq!(cpu.execute(&mut mem), 4);
    assert_eq!(cpu.pc, 0x800A);
    assert_eq!(cpu.invalid_opcodes, 0);
}

#[test]
fn invalid_opcode_is_counted_not_fatal() {
    // ANC #imm (stubbed), then a jam opcode.
    let (mut cpu, mut mem) = machine(&[0x0B, 0x12, 0x02, 0xA9, 0x01]);
    assert_eq!(cpu.execute(&mut mem), 2);
    assert_eq!(cpu.pc, 0x8002);
    cpu.execute(&mut mem);
    assert_eq!(cpu.invalid_opcodes, 2);
    cpu.execute(&mut mem);
    assert_eq!(cpu.a, 0x01);
}

#[test]
fn oam_dma_copies_a_page_and_stalls() {
    // LDA #$02; STA $4014
    let (mut cpu, mut mem) = machine(&[0xA9, 0x02, 0x8D, 0x14, 0x40]);
    for i in 0..=255u16 {
        mem.write_byte(0x0200 + i, i as u8 ^ 0x5A);
    }
    cpu.execute(&mut mem);
    // The DMA starts after 7 + 2 + 4 = 13 cycles, an odd count: 514.
    assert_eq!(cpu.execute(&mut mem), 4 + 514);
    assert_eq!(mem.oam_byte(0), 0x5A);
    assert_eq!(mem.oam_byte(255), 255 ^ 0x5A);
    assert_eq!(cpu.cycles, 9 + 518);
}

#[test]
fn decimal_flag_toggles_without_effect() {
    // SED; LDA #$09; CLC; ADC #$01; CLD
    let (mut cpu, mut mem) = machine(&[0xF8, 0xA9, 0x09, 0x18, 0x69, 0x01, 0xD8]);
    cpu.execute(&mut mem);
    assert!(cpu.decimal);
    assert_eq!(cpu.status() & 0x08, 0x08);
    for _ in 0..3 {
        cpu.execute(&mut mem);
    }
    assert_eq!(cpu.a, 0x0A);
    cpu.execute(&mut mem);
    assert!(!cpu.decimal);
}

#[test]
fn las_stub_pays_page_cross_cycle() {
    // LDY #$01; LAS $12FF,Y crosses into $1300; LAS $1200,Y does not.
    let (mut cpu, mut mem) = machine(&[0xA0, 0x01, 0xBB, 0xFF, 0x12, 0xBB, 0x00, 0x12]);
    cpu.execute(&mut mem);
    assert_eq!(cpu.execute(&mut mem), 5);
    assert_eq!(cpu.pc, 0x8005);
    assert_eq!(cpu.execute(&mut mem), 4);
    assert_eq!(cpu.pc, 0x8008);
    assert_eq!(cpu.invalid_opcodes, 2);
}

#[test]
fn rol_eight_times_moves_bit0_into_carry() {
    // CLC; LDA #$81; ROL A x8 leaves $40 with C = 1.
    let mut code = vec![0x18, 0xA9, 0x81];
    code.extend([0x2A; 8]);
    let (mut cpu, mut mem) = machine(&code);
    for _ in 0..10 {
        cpu.execute(&mut mem);
    }
    assert_eq!(cpu.a, 0x40);
    assert!(cpu.carry);
}
