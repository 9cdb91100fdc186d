use vstd::prelude::*;
use crate::rom::Rom;

verus! {

/// A little-endian 16-bit word from its two bytes.
pub open spec fn word(lo: u8, hi: u8) -> u16 {
    (lo as int + hi as int * 256) as u16
}

/// Wrapping 16-bit successor.
pub open spec fn next_addr(addr: u16) -> u16 {
    ((addr as int + 1) % 0x10000) as u16
}

/// The bus as the contracts see it: the backing stores of each region, the
/// cartridge banks, the PPU's object memory fed by DMA, a DMA request that is
/// waiting, and how many writes to ROM were dropped.
pub struct MemoryView {
    pub ram: Seq<u8>,
    pub ppu_registers: Seq<u8>,
    pub io_registers: Seq<u8>,
    pub sram: Seq<u8>,
    pub prg_rom: Seq<u8>,
    pub chr_rom: Seq<u8>,
    pub oam: Seq<u8>,
    pub dma_page: Option<u8>,
    pub rom_writes: u64,
}

impl MemoryView {
    /// Address decoding for a read.
    #[verifier::opaque]
    pub open spec fn read(self, addr: u16) -> u8 {
        if addr < 0x2000 {
            self.ram[addr as int % 0x800]
        } else if addr < 0x4000 {
            self.ppu_registers[addr as int % 8]
        } else if addr < 0x4018 {
            self.io_registers[addr - 0x4000]
        } else if addr < 0x6000 {
            0
        } else if addr < 0x8000 {
            self.sram[addr - 0x6000]
        } else if self.prg_rom.len() == 0 {
            0
        } else {
            self.prg_rom[(addr - 0x8000) % (self.prg_rom.len() as int)]
        }
    }

    /// Address decoding for a write. A write to `$4014` also requests an
    /// OAM DMA from the page it names; writes to ROM are dropped and counted.
    #[verifier::opaque]
    pub open spec fn write(self, addr: u16, value: u8) -> MemoryView {
        if addr < 0x2000 {
            MemoryView { ram: self.ram.update(addr as int % 0x800, value), ..self }
        } else if addr < 0x4000 {
            MemoryView { ppu_registers: self.ppu_registers.update(addr as int % 8, value), ..self }
        } else if addr < 0x4018 {
            MemoryView {
                io_registers: self.io_registers.update(addr - 0x4000, value),
                dma_page: if addr == 0x4014 {
                    Some(value)
                } else {
                    self.dma_page
                },
                ..self
            }
        } else if addr < 0x6000 {
            self
        } else if addr < 0x8000 {
            MemoryView { sram: self.sram.update(addr - 0x6000, value), ..self }
        } else {
            MemoryView {
                rom_writes: if self.rom_writes < u64::MAX {
                    (self.rom_writes + 1) as u64
                } else {
                    self.rom_writes
                },
                ..self
            }
        }
    }

    /// Little-endian word at `addr`, `addr + 1` (16-bit wrap).
    pub open spec fn read_word(self, addr: u16) -> u16 {
        word(self.read(addr), self.read(next_addr(addr)))
    }

    /// Word from the zero page: the high byte wraps within page zero.
    pub open spec fn read_word_zero_page(self, addr: u16) -> u16 {
        word(self.read((addr as int % 256) as u16), self.read(((addr as int + 1) % 256) as u16))
    }

    /// The 256 bytes of page `page`, as an OAM DMA copies them.
    pub open spec fn page_bytes(self, page: u8) -> Seq<u8> {
        Seq::new(256, |i: int| self.read((page as int * 256 + i) as u16))
    }

    /// Carries out the waiting OAM DMA request, if any.
    pub open spec fn run_dma(self) -> MemoryView {
        match self.dma_page {
            Some(page) => MemoryView { oam: self.page_bytes(page), dma_page: None, ..self },
            None => self,
        }
    }

    /// The bus at power-on: every store zero, no cartridge.
    pub open spec fn power_on() -> MemoryView {
        MemoryView {
            ram: Seq::new(0x800, |i: int| 0u8),
            ppu_registers: Seq::new(8, |i: int| 0u8),
            io_registers: Seq::new(0x18, |i: int| 0u8),
            sram: Seq::new(0x2000, |i: int| 0u8),
            prg_rom: Seq::empty(),
            chr_rom: Seq::empty(),
            oam: Seq::new(256, |i: int| 0u8),
            dma_page: None,
            rom_writes: 0,
        }
    }

    pub open spec fn wf(self) -> bool {
        &&& self.ram.len() == 0x800
        &&& self.ppu_registers.len() == 8
        &&& self.io_registers.len() == 0x18
        &&& self.sram.len() == 0x2000
        &&& self.oam.len() == 256
    }
}

/// The system bus: 2 KiB of RAM mirrored through `$0000-$1FFF`, the eight
/// PPU registers mirrored through `$2000-$3FFF`, APU and controller registers
/// at `$4000-$4017`, cartridge SRAM at `$6000-$7FFF` and PRG-ROM from `$8000`.
pub struct Memory {
    ram: [u8; 0x800],
    ppu_registers: [u8; 8],
    io_registers: [u8; 0x18],
    sram: [u8; 0x2000],
    prg_rom: Vec<u8>,
    chr_rom: Vec<u8>,
    oam: [u8; 256],
    dma_page: Option<u8>,
    rom_writes: u64,
}

impl View for Memory {
    type V = MemoryView;

    closed spec fn view(&self) -> MemoryView {
        MemoryView {
            ram: self.ram@,
            ppu_registers: self.ppu_registers@,
            io_registers: self.io_registers@,
            sram: self.sram@,
            prg_rom: self.prg_rom@,
            chr_rom: self.chr_rom@,
            oam: self.oam@,
            dma_page: self.dma_page,
            rom_writes: self.rom_writes,
        }
    }
}

impl Memory {
    /// The bus at power-on, with no cartridge loaded.
    pub fn new() -> (r: Memory)
        ensures
            r@ == MemoryView::power_on(),
    {
        let r = Memory {
            ram: [0u8; 0x800],
            ppu_registers: [0u8; 8],
            io_registers: [0u8; 0x18],
            sram: [0u8; 0x2000],
            prg_rom: Vec::new(),
            chr_rom: Vec::new(),
            oam: [0u8; 256],
            dma_page: None,
            rom_writes: 0,
        };
        assert(r@.ram =~= MemoryView::power_on().ram);
        assert(r@.ppu_registers =~= MemoryView::power_on().ppu_registers);
        assert(r@.io_registers =~= MemoryView::power_on().io_registers);
        assert(r@.sram =~= MemoryView::power_on().sram);
        assert(r@.oam =~= MemoryView::power_on().oam);
        assert(r@.prg_rom =~= Seq::empty());
        assert(r@.chr_rom =~= Seq::empty());
        r
    }

    /// Every store of the bus has its fixed size.
    pub proof fn lemma_wf(&self)
        ensures
            self@.wf(),
    {
    }

    /// Wires the cartridge's PRG and CHR banks to the bus.
    pub fn load_rom(&mut self, rom: &Rom)
        ensures
            final(self)@ == (MemoryView { prg_rom: rom.prg_rom@, chr_rom: rom.chr_rom@, ..old(self)@ }),
    {
        self.prg_rom = copy_bytes(&rom.prg_rom);
        self.chr_rom = copy_bytes(&rom.chr_rom);
    }

    pub fn read_byte(&self, address: u16) -> (r: u8)
        ensures
            r == self@.read(address),
    {
        reveal(MemoryView::read);
        if address < 0x2000 {
            self.ram[(address % 0x800) as usize]
        } else if address < 0x4000 {
            self.ppu_registers[(address % 8) as usize]
        } else if address < 0x4018 {
            self.io_registers[(address - 0x4000) as usize]
        } else if address < 0x6000 {
            0
        } else if address < 0x8000 {
            self.sram[(address - 0x6000) as usize]
        } else {
            let n = self.prg_rom.len();
            if n == 0 {
                0
            } else {
                self.prg_rom[(address - 0x8000) as usize % n]
            }
        }
    }

    pub fn write_byte(&mut self, addr: u16, value: u8)
        ensures
            final(self)@ == old(self)@.write(addr, value),
    {
        reveal(MemoryView::write);
        if addr < 0x2000 {
            self.ram[(addr % 0x800) as usize] = value;
        } else if addr < 0x4000 {
            self.ppu_registers[(addr % 8) as usize] = value;
        } else if addr < 0x4018 {
            self.io_registers[(addr - 0x4000) as usize] = value;
            if addr == 0x4014 {
                self.dma_page = Some(value);
            }
        } else if addr < 0x6000 {
        } else if addr < 0x8000 {
            self.sram[(addr - 0x6000) as usize] = value;
        } else if self.rom_writes < u64::MAX {
            self.rom_writes = self.rom_writes + 1;
        }
    }

    pub fn read_word(&self, address: u16) -> (r: u16)
        ensures
            r == self@.read_word(address),
    {
        let low = self.read_byte(address);
        let high = self.read_byte(address.wrapping_add(1));
        make_word(low, high)
    }

    /// Word from the zero page, with the high byte taken from
    /// `(addr + 1) & 0xFF`.
    pub fn read_word_zero_page(&self, addr: u16) -> (r: u16)
        ensures
            r == self@.read_word_zero_page(addr),
    {
        let lo = self.read_byte(addr % 256);
        let hi = self.read_byte((addr % 256 + 1) % 256);
        make_word(lo, hi)
    }

    /// Copies the page named by a waiting `$4014` write into OAM and clears
    /// the request. Returns whether a transfer took place.
    pub fn run_pending_dma(&mut self) -> (r: bool)
        ensures
            final(self)@ == old(self)@.run_dma(),
            r == old(self)@.dma_page.is_some(),
    {
        reveal(MemoryView::read);
        match self.dma_page {
            None => false,
            Some(page) => {
                let base: u16 = page as u16 * 256;
                let mut i: u16 = 0;
                while i < 256
                    invariant
                        0 <= i <= 256,
                        base == page as int * 256,
                        self@ == (MemoryView { oam: self@.oam, ..old(self)@ }),
                        self@.oam.len() == 256,
                        forall|j: int| 0 <= j < i ==> self@.oam[j] == old(self)@.page_bytes(page)[j],
                    decreases 256 - i,
                {
                    reveal(MemoryView::read);
                    let b = self.read_byte(base + i);
                    self.oam[i as usize] = b;
                    i = i + 1;
                }
                self.dma_page = None;
                assert(self@.oam =~= old(self)@.page_bytes(page));
                true
            }
        }
    }

    /// The PPU's object memory as last filled by DMA.
    pub fn oam_byte(&self, index: u8) -> (r: u8)
        ensures
            r == self@.oam[index as int],
    {
        self.oam[index as usize]
    }

    /// How many writes to the read-only PRG area were dropped.
    pub fn rom_write_count(&self) -> (r: u64)
        ensures
            r == self@.rom_writes,
    {
        self.rom_writes
    }
}

fn make_word(lo: u8, hi: u8) -> (r: u16)
    ensures
        r == word(lo, hi),
{
    lo as u16 + hi as u16 * 256
}

fn copy_bytes(v: &Vec<u8>) -> (r: Vec<u8>)
    ensures
        r@ == v@,
{
    let mut r: Vec<u8> = Vec::with_capacity(v.len());
    let mut i: usize = 0;
    while i < v.len()
        invariant
            i <= v@.len(),
            r@ == v@.subrange(0, i as int),
        decreases v@.len() - i,
    {
        r.push(v[i]);
        i = i + 1;
        assert(r@ =~= v@.subrange(0, i as int));
    }
    assert(v@.subrange(0, v@.len() as int) =~= v@);
    r
}

} // verus!
