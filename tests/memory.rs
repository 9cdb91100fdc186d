use nes_core::memory::Memory;
use nes_core::rom::Rom;

#[test]
fn power_on_reads_zero() {
    let mem = Memory::new();
    for addr in [0x0000u16, 0x07FF, 0x2000, 0x4015, 0x4018, 0x5000, 0x6000, 0x8000, 0xFFFF] {
        assert_eq!(mem.read_byte(addr), 0);
    }
}

#[test]
fn ram_is_mirrored_four_times() {
    let mut mem = Memory::new();
    mem.write_byte(0x1A34, 0x77);
    for addr in [0x0234u16, 0x0A34, 0x1234, 0x1A34] {
        assert_eq!(mem.read_byte(addr), 0x77);
        assert_eq!(mem.read_byte(addr & 0x07FF), mem.read_byte(addr));
    }
}

#[test]
fn ppu_registers_mirror_every_eight_bytes() {
    let mut mem = Memory::new();
    mem.write_byte(0x3FFE, 0x42);
    assert_eq!(mem.read_byte(0x2006), 0x42);
    assert_eq!(mem.read_byte(0x2456), 0x42);
    let addr = 0x3456u16;
    assert_eq!(mem.read_byte(addr), mem.read_byte(0x2000 | (addr & 7)));
}

#[test]
fn io_and_test_registers() {
    let mut mem = Memory::new();
    mem.write_byte(0x4015, 0x0F);
    assert_eq!(mem.read_byte(0x4015), 0x0F);
    mem.write_byte(0x401A, 0x33);
    assert_eq!(mem.read_byte(0x401A), 0);
    mem.write_byte(0x4800, 0x33);
    assert_eq!(mem.read_byte(0x4800), 0);
}

#[test]
fn sram_is_read_write() {
    let mut mem = Memory::new();
    mem.write_byte(0x7FFF, 0xAB);
    assert_eq!(mem.read_byte(0x7FFF), 0xAB);
}

#[test]
fn prg_rom_is_mirrored_and_read_only() {
    let mut prg = vec![0u8; 0x4000];
    prg[0x0010] = 0x99;
    let rom = Rom { prg_rom: prg, chr_rom: vec![1, 2, 3], mapper: 0, mirroring: 1 };
    let mut mem = Memory::new();
    mem.load_rom(&rom);
    assert_eq!(mem.read_byte(0x8010), 0x99);
    assert_eq!(mem.read_byte(0xC010), 0x99);
    mem.write_byte(0x8010, 0x11);
    assert_eq!(mem.read_byte(0x8010), 0x99);
    assert_eq!(mem.rom_write_count(), 1);
}

#[test]
fn words_are_little_endian() {
    let mut mem = Memory::new();
    mem.write_byte(0x0010, 0x34);
    mem.write_byte(0x0011, 0x12);
    assert_eq!(mem.read_word(0x0010), 0x1234);
}

#[test]
fn zero_page_word_read_wraps() {
    let mut mem = Memory::new();
    mem.write_byte(0x00FF, 0x34);
    mem.write_byte(0x0000, 0x12);
    mem.write_byte(0x0100, 0x56);
    assert_eq!(mem.read_word_zero_page(0x00FF), 0x1234);
    assert_eq!(mem.read_word(0x00FF), 0x5634);
}

#[test]
fn dma_request_is_taken_once() {
    let mut mem = Memory::new();
    mem.write_byte(0x0305, 0xEE);
    mem.write_byte(0x4014, 0x03);
    assert!(mem.run_pending_dma());
    assert_eq!(mem.oam_byte(5), 0xEE);
    assert!(!mem.run_pending_dma());
}
