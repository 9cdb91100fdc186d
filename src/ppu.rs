use vstd::prelude::*;

verus! {

/// Dots per scanline.
pub const DOTS_PER_LINE: u32 = 341;

/// Scanlines per frame; the pre-render line counts as -1 before the first frame.
pub const LINES_PER_FRAME: i32 = 262;

/// The PPU's position in its frame.
pub struct PpuView {
    pub cycle: u32,
    pub scanline: i32,
    pub frame_count: u32,
}

/// The PPU's dot clock: the dot within the scanline, the scanline, and the
/// frames completed. Rendering is out of this library's scope.
pub struct PPU {
    cycle: u32,
    scanline: i32,
    frame_count: u32,
}

impl View for PPU {
    type V = PpuView;

    closed spec fn view(&self) -> PpuView {
        PpuView { cycle: self.cycle, scanline: self.scanline, frame_count: self.frame_count }
    }
}

impl PPU {
    /// A PPU at dot 0 of the pre-render line, no frame completed.
    pub fn new() -> (r: PPU)
        ensures
            r@ == (PpuView { cycle: 0, scanline: -1i32, frame_count: 0 }),
    {
        PPU { cycle: 0, scanline: -1, frame_count: 0 }
    }

    /// Advances one dot. After dot 340 the next scanline starts at dot 0;
    /// after scanline 261 the next frame starts at scanline 0.
    pub fn step(&mut self)
        ensures
            old(self)@.cycle < DOTS_PER_LINE - 1 ==> final(self)@ == (PpuView {
                cycle: (old(self)@.cycle + 1) as u32,
                ..old(self)@
            }),
            old(self)@.cycle >= DOTS_PER_LINE - 1 && old(self)@.scanline < LINES_PER_FRAME - 1
                ==> final(self)@ == (PpuView {
                cycle: 0,
                scanline: (old(self)@.scanline + 1) as i32,
                ..old(self)@
            }),
            old(self)@.cycle >= DOTS_PER_LINE - 1 && old(self)@.scanline >= LINES_PER_FRAME - 1
                ==> final(self)@ == (PpuView {
                cycle: 0,
                scanline: 0,
                frame_count: ((old(self)@.frame_count + 1) % 0x1_0000_0000) as u32,
            }),
    {
        if self.cycle < DOTS_PER_LINE - 1 {
            self.cycle = self.cycle + 1;
        } else {
            self.cycle = 0;
            if self.scanline < LINES_PER_FRAME - 1 {
                self.scanline = self.scanline + 1;
            } else {
                self.scanline = 0;
                self.frame_count = self.frame_count.wrapping_add(1);
            }
        }
    }

    pub fn cycle(&self) -> (r: u32)
        ensures
            r == self@.cycle,
    {
        self.cycle
    }

    pub fn scanline(&self) -> (r: i32)
        ensures
            r == self@.scanline,
    {
        self.scanline
    }

    pub fn frame_count(&self) -> (r: u32)
        ensures
            r == self@.frame_count,
    {
        self.frame_count
    }
}

} // verus!
