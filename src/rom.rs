use vstd::prelude::*;
use vstd::slice::slice_subrange;
use vstd::slice::slice_to_vec;

verus! {

/// Length of the iNES header.
pub const HEADER_LEN: usize = 16;

/// Length of the optional trainer block between header and PRG-ROM.
pub const TRAINER_LEN: usize = 512;

/// Size of one PRG-ROM bank.
pub const PRG_BANK_LEN: usize = 0x4000;

/// Size of one CHR-ROM bank.
pub const CHR_BANK_LEN: usize = 0x2000;

/// A cartridge as held after loading: its program and graphics banks,
/// mapper number and nametable mirroring bit.
pub struct Rom {
    pub prg_rom: Vec<u8>,
    pub chr_rom: Vec<u8>,
    pub mapper: u8,
    pub mirroring: u8,
}

/// Why an image cannot be read as an iNES cartridge.
#[derive(Debug, PartialEq, Eq, Structural)]
pub enum RomError {
    /// Shorter than a header, or without the `NES\x1A` magic.
    InvalidHeader,
    /// The header promises more trainer, PRG or CHR bytes than the image holds.
    Truncated,
}

/// The image starts with a full header carrying the magic `NES\x1A`.
pub open spec fn header_ok(b: Seq<u8>) -> bool {
    &&& b.len() >= HEADER_LEN
    &&& b[0] == 0x4E
    &&& b[1] == 0x45
    &&& b[2] == 0x53
    &&& b[3] == 0x1A
}

/// Flag byte 6, bit 2: a trainer block precedes the PRG banks.
pub open spec fn has_trainer(b: Seq<u8>) -> bool {
    b[6] & 0x04 != 0
}

pub open spec fn prg_start(b: Seq<u8>) -> int {
    HEADER_LEN + if has_trainer(b) { TRAINER_LEN as int } else { 0 }
}

pub open spec fn prg_len(b: Seq<u8>) -> int {
    b[4] * PRG_BANK_LEN
}

pub open spec fn chr_start(b: Seq<u8>) -> int {
    prg_start(b) + prg_len(b)
}

pub open spec fn chr_len(b: Seq<u8>) -> int {
    b[5] * CHR_BANK_LEN
}

/// Mapper number: low nibble from flag byte 6, high nibble from flag byte 7.
pub open spec fn mapper_of(b: Seq<u8>) -> u8 {
    (b[6] >> 4u8) | (b[7] & 0xF0u8)
}

impl Rom {
    /// Reads an iNES v1 image: header, optional trainer (skipped), PRG banks,
    /// CHR banks. Bytes after the CHR banks are ignored.
    pub fn from_bytes(bytes: &[u8]) -> (r: Result<Rom, RomError>)
        ensures
            match r {
                Ok(rom) => {
                    &&& header_ok(bytes@)
                    &&& chr_start(bytes@) + chr_len(bytes@) <= bytes@.len()
                    &&& rom.prg_rom@ == bytes@.subrange(prg_start(bytes@), chr_start(bytes@))
                    &&& rom.chr_rom@ == bytes@.subrange(
                        chr_start(bytes@),
                        chr_start(bytes@) + chr_len(bytes@),
                    )
                    &&& rom.mapper == mapper_of(bytes@)
                    &&& rom.mirroring == bytes@[6] & 1
                },
                Err(RomError::InvalidHeader) => !header_ok(bytes@),
                Err(RomError::Truncated) => header_ok(bytes@) && bytes@.len() < chr_start(
                    bytes@,
                ) + chr_len(bytes@),
            },
    {
        if bytes.len() < HEADER_LEN || bytes[0] != 0x4E || bytes[1] != 0x45 || bytes[2] != 0x53
            || bytes[3] != 0x1A {
            return Err(RomError::InvalidHeader);
        }
        let prg_start: usize = if bytes[6] & 0x04 != 0 {
            HEADER_LEN + TRAINER_LEN
        } else {
            HEADER_LEN
        };
        let prg_len: usize = bytes[4] as usize * PRG_BANK_LEN;
        let chr_len: usize = bytes[5] as usize * CHR_BANK_LEN;
        if bytes.len() < prg_start || bytes.len() - prg_start < prg_len || bytes.len() - prg_start
            - prg_len < chr_len {
            return Err(RomError::Truncated);
        }
        let chr_start: usize = prg_start + prg_len;
        let prg_rom = slice_to_vec(slice_subrange(bytes, prg_start, chr_start));
        let chr_rom = slice_to_vec(slice_subrange(bytes, chr_start, chr_start + chr_len));
        Ok(Rom { prg_rom, chr_rom, mapper: (bytes[6] >> 4u8) | (bytes[7] & 0xF0u8), mirroring: bytes[6] & 1 })
    }
}

} // verus!
