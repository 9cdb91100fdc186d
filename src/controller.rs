use vstd::prelude::*;

verus! {

pub const BUTTON_A: usize = 0;
pub const BUTTON_B: usize = 1;
pub const BUTTON_SELECT: usize = 2;
pub const BUTTON_START: usize = 3;
pub const BUTTON_UP: usize = 4;
pub const BUTTON_DOWN: usize = 5;
pub const BUTTON_LEFT: usize = 6;
pub const BUTTON_RIGHT: usize = 7;

/// A controller as the contracts see it: the buttons held now, the state
/// latched by the last strobe, the strobe level, and how many bits have
/// been shifted out since.
pub struct ControllerView {
    pub buttons: Seq<bool>,
    pub latched: Seq<bool>,
    pub strobe: bool,
    pub index: nat,
}

impl ControllerView {
    /// The bit a read of the port returns: button A while the strobe is
    /// high, else the latched buttons in order, then ones.
    pub open spec fn next_bit(self) -> u8 {
        if self.strobe {
            if self.buttons[0] { 1 } else { 0 }
        } else if self.index < 8 {
            if self.latched[self.index as int] { 1 } else { 0 }
        } else {
            1
        }
    }
}

/// A standard controller behind the `$4016`/`$4017` serial port. Buttons are
/// numbered A, B, Select, Start, Up, Down, Left, Right.
pub struct Controller {
    buttons: [bool; 8],
    latched: [bool; 8],
    strobe: bool,
    index: u8,
}

impl View for Controller {
    type V = ControllerView;

    closed spec fn view(&self) -> ControllerView {
        ControllerView {
            buttons: self.buttons@,
            latched: self.latched@,
            strobe: self.strobe,
            index: self.index as nat,
        }
    }
}

impl Controller {
    pub fn new() -> (r: Controller)
        ensures
            r@.buttons == Seq::new(8, |i: int| false),
            r@.latched == Seq::new(8, |i: int| false),
            !r@.strobe,
            r@.index == 0,
    {
        let r = Controller { buttons: [false; 8], latched: [false; 8], strobe: false, index: 0 };
        assert(r@.buttons =~= Seq::new(8, |i: int| false));
        assert(r@.latched =~= Seq::new(8, |i: int| false));
        r
    }

    /// The button and latch stores hold one entry per button.
    pub proof fn lemma_wf(&self)
        ensures
            self@.buttons.len() == 8,
            self@.latched.len() == 8,
    {
    }

    pub fn press_button(&mut self, button: usize)
        requires
            button < 8,
        ensures
            final(self)@ == (ControllerView {
                buttons: old(self)@.buttons.update(button as int, true),
                ..old(self)@
            }),
    {
        self.buttons[button] = true;
    }

    pub fn release_button(&mut self, button: usize)
        requires
            button < 8,
        ensures
            final(self)@ == (ControllerView {
                buttons: old(self)@.buttons.update(button as int, false),
                ..old(self)@
            }),
    {
        self.buttons[button] = false;
    }

    /// A write to the port: bit 0 is the strobe. While it is high, and when
    /// it falls, the buttons are latched and the shift restarts.
    pub fn write(&mut self, value: u8)
        ensures
            final(self)@.strobe == (value % 2 == 1),
            final(self)@.buttons == old(self)@.buttons,
            (value % 2 == 1 || old(self)@.strobe) ==> final(self)@.latched == old(self)@.buttons
                && final(self)@.index == 0,
            !(value % 2 == 1 || old(self)@.strobe) ==> final(self)@.latched == old(self)@.latched
                && final(self)@.index == old(self)@.index,
    {
        let strobe = value % 2 == 1;
        if strobe || self.strobe {
            self.latched = self.buttons;
            self.index = 0;
        }
        self.strobe = strobe;
    }

    /// A read of the port: one button bit, shifting to the next unless the
    /// strobe is high.
    pub fn read(&mut self) -> (r: u8)
        ensures
            r == old(self)@.next_bit(),
            final(self)@ == (ControllerView {
                index: if !old(self)@.strobe && old(self)@.index < 8 {
                    old(self)@.index + 1
                } else {
                    old(self)@.index
                },
                ..old(self)@
            }),
    {
        if self.strobe {
            if self.buttons[0] { 1 } else { 0 }
        } else if self.index < 8 {
            let r = if self.latched[self.index as usize] { 1 } else { 0 };
            self.index = self.index + 1;
            r
        } else {
            1
        }
    }
}

} // verus!
