use vstd::prelude::*;

verus! {

/// One controller button; [`JoypadButton::mask`] gives its bit in the
/// serial report, in the order A, B, Select, Start, Up, Down, Left, Right
/// from bit 0 to bit 7.
#[derive(Clone, Copy, PartialEq, Eq, Debug, Structural)]
pub enum JoypadButton {
    ButtonA,
    ButtonB,
    Select,
    Start,
    Up,
    Down,
    Left,
    Right,
}

impl JoypadButton {
    pub open spec fn spec_mask(self) -> u8 {
        match self {
            JoypadButton::ButtonA => 0x01,
            JoypadButton::ButtonB => 0x02,
            JoypadButton::Select => 0x04,
            JoypadButton::Start => 0x08,
            JoypadButton::Up => 0x10,
            JoypadButton::Down => 0x20,
            JoypadButton::Left => 0x40,
            JoypadButton::Right => 0x80,
        }
    }

    /// The button's bit within the serialised button report.
    #[verifier::when_used_as_spec(spec_mask)]
    pub fn mask(self) -> (r: u8)
        ensures
            r == self.spec_mask(),
    {
        match self {
            JoypadButton::ButtonA => 0x01,
            JoypadButton::ButtonB => 0x02,
            JoypadButton::Select => 0x04,
            JoypadButton::Start => 0x08,
            JoypadButton::Up => 0x10,
            JoypadButton::Down => 0x20,
            JoypadButton::Left => 0x40,
            JoypadButton::Right => 0x80,
        }
    }
}

/// Mathematical state of a controller port.
pub ghost struct JoypadView {
    /// Strobe bit: while set, every read reports button A and the index
    /// stays at zero.
    pub strobe: bool,
    /// Which button the next read reports.
    pub button_index: u8,
    /// Current pressed set, one bit per button.
    pub button_status: u8,
}

/// The standard controller's serial port: a strobe latch and an index that
/// walks the eight button bits, one per read.
#[derive(Clone, Copy)]
pub struct Joypad {
    strobe: bool,
    button_index: u8,
    button_status: u8,
}

impl View for Joypad {
    type V = JoypadView;

    closed spec fn view(&self) -> JoypadView {
        JoypadView {
            strobe: self.strobe,
            button_index: self.button_index,
            button_status: self.button_status,
        }
    }
}

/// The bit a read reports for button index `i` of report `status`.
pub open spec fn joypad_bit(status: u8, i: u8) -> u8 {
    (status & (1u8 << i)) >> i
}

/// State after a write of `data` to the strobe register.
pub open spec fn joypad_write(j: JoypadView, data: u8) -> JoypadView {
    JoypadView {
        strobe: data & 1 == 1,
        button_index: if data & 1 == 1 { 0 } else { j.button_index },
        ..j
    }
}

/// Value returned by a read in state `j`.
pub open spec fn joypad_read_value(j: JoypadView) -> u8 {
    if j.button_index > 7 {
        1
    } else {
        joypad_bit(j.button_status, j.button_index)
    }
}

/// State after a read: with the strobe clear the index advances past the
/// bit just reported.
pub open spec fn joypad_read_post(j: JoypadView) -> JoypadView {
    if j.button_index <= 7 && !j.strobe {
        JoypadView { button_index: (j.button_index + 1) as u8, ..j }
    } else {
        j
    }
}

/// The state a fresh controller port starts in.
pub open spec fn joypad_initial() -> JoypadView {
    JoypadView { strobe: false, button_index: 0u8, button_status: 0u8 }
}

impl Joypad {
    pub fn new() -> (r: Joypad)
        ensures
            r@ == joypad_initial(),
    {
        Joypad { strobe: false, button_index: 0, button_status: 0 }
    }

    /// Strobe write: bit 0 sets the strobe; while set, the button index
    /// rests at zero.
    pub fn write(&mut self, data: u8)
        ensures
            final(self)@ == joypad_write(old(self)@, data),
    {
        self.strobe = data & 1 == 1;
        if self.strobe {
            self.button_index = 0;
        }
    }

    /// Serial read: reports one button bit and, when the strobe is clear,
    /// advances to the next; reads past bit 7 report 1.
    pub fn read(&mut self) -> (r: u8)
        ensures
            r == joypad_read_value(old(self)@),
            final(self)@ == joypad_read_post(old(self)@),
            r == 0 || r == 1,
    {
        if self.button_index > 7 {
            return 1;
        }
        let response: u8 = (self.button_status & (1u8 << self.button_index)) >> self.button_index;
        proof {
            lemma_joypad_bit_is_boolean(self.button_status, self.button_index);
        }
        if !self.strobe && self.button_index <= 7 {
            self.button_index += 1;
        }
        response
    }

    /// Sets or clears one button's bit in the pressed set.
    pub fn set_button_pressed_status(&mut self, button: JoypadButton, pressed: bool)
        ensures
            final(self)@ == (JoypadView {
                button_status: if pressed {
                    old(self)@.button_status | button.spec_mask()
                } else {
                    old(self)@.button_status & !button.spec_mask()
                },
                ..old(self)@
            }),
    {
        if pressed {
            self.button_status = self.button_status | button.mask();
        } else {
            self.button_status = self.button_status & !button.mask();
        }
    }
}

/// A single button bit is never anything but 0 or 1.
pub proof fn lemma_joypad_bit_is_boolean(status: u8, i: u8)
    requires
        i <= 7,
    ensures
        joypad_bit(status, i) == 0 || joypad_bit(status, i) == 1,
{
    assert((status & (1u8 << i)) >> i == 0 || (status & (1u8 << i)) >> i == 1) by (bit_vector)
        requires
            i <= 7,
    ;
}

} // verus!
