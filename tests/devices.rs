use nes_core::controller::{Controller, BUTTON_A, BUTTON_RIGHT, BUTTON_START};
use nes_core::ppu::PPU;

#[test]
fn controller_shifts_buttons_after_strobe() {
    let mut c = Controller::new();
    c.press_button(BUTTON_A);
    c.press_button(BUTTON_START);
    c.press_button(BUTTON_RIGHT);
    c.write(1);
    c.write(0);
    let bits: Vec<u8> = (0..10).map(|_| c.read()).collect();
    assert_eq!(bits, vec![1, 0, 0, 1, 0, 0, 0, 1, 1, 1]);
}

#[test]
fn controller_latches_on_strobe() {
    let mut c = Controller::new();
    c.press_button(BUTTON_A);
    c.write(1);
    c.write(0);
    c.release_button(BUTTON_A);
    assert_eq!(c.read(), 1);
    c.write(1);
    c.write(0);
    assert_eq!(c.read(), 0);
}

#[test]
fn controller_reads_a_while_strobe_high() {
    let mut c = Controller::new();
    c.write(1);
    c.press_button(BUTTON_A);
    assert_eq!(c.read(), 1);
    assert_eq!(c.read(), 1);
    c.release_button(BUTTON_A);
    assert_eq!(c.read(), 0);
}

#[test]
fn ppu_dot_clock_wraps() {
    let mut p = PPU::new();
    assert_eq!((p.cycle(), p.scanline(), p.frame_count()), (0, -1, 0));
    for _ in 0..341 {
        p.step();
    }
    assert_eq!((p.cycle(), p.scanline()), (0, 0));
    for _ in 0..341 * 262 {
        p.step();
    }
    assert_eq!((p.cycle(), p.scanline(), p.frame_count()), (0, 0, 1));
}
