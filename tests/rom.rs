use nes_core::rom::{Rom, RomError};

fn image(prg_banks: u8, chr_banks: u8, flags6: u8, flags7: u8, trainer: bool) -> Vec<u8> {
    let mut b = vec![0x4E, 0x45, 0x53, 0x1A, prg_banks, chr_banks, flags6, flags7];
    b.extend([0u8; 8]);
    if trainer {
        b.extend(vec![0xEEu8; 512]);
    }
    for i in 0..prg_banks as usize * 0x4000 {
        b.push((i % 251) as u8);
    }
    b.extend(vec![0xCCu8; chr_banks as usize * 0x2000]);
    b
}

#[test]
fn parses_header_and_banks() {
    let b = image(2, 1, 0x31, 0x40, false);
    let rom = Rom::from_bytes(&b).unwrap();
    assert_eq!(rom.prg_rom.len(), 0x8000);
    assert_eq!(rom.chr_rom.len(), 0x2000);
    assert_eq!(rom.prg_rom[1], 1);
    assert_eq!(rom.chr_rom[0], 0xCC);
    assert_eq!(rom.mapper, 0x43);
    assert_eq!(rom.mirroring, 1);
}

#[test]
fn skips_the_trainer() {
    let b = image(1, 0, 0x04, 0x00, true);
    let rom = Rom::from_bytes(&b).unwrap();
    assert_eq!(rom.prg_rom.len(), 0x4000);
    assert_eq!(rom.prg_rom[0], 0);
    assert_eq!(rom.prg_rom[2], 2);
    assert!(rom.chr_rom.is_empty());
    assert_eq!(rom.mirroring, 0);
}

#[test]
fn rejects_bad_magic() {
    let mut b = image(1, 0, 0, 0, false);
    b[3] = 0x1B;
    assert!(matches!(Rom::from_bytes(&b), Err(RomError::InvalidHeader)));
    assert!(matches!(Rom::from_bytes(&b[..10]), Err(RomError::InvalidHeader)));
}

#[test]
fn rejects_truncated_image() {
    let b = image(1, 1, 0, 0, false);
    assert!(matches!(Rom::from_bytes(&b[..b.len() - 1]), Err(RomError::Truncated)));
    let b = image(1, 0, 0x04, 0, false);
    assert!(matches!(Rom::from_bytes(&b), Err(RomError::Truncated)));
}
