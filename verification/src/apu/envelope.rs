use vstd::prelude::*;

verus! {

/// Control half of an envelope unit, as written through a channel's first
/// register: volume/period nibble, constant-volume bit, loop bit.
pub struct EnvelopeControl {
    pub constant_level: u8,
    pub decay_period: u8,
    pub constant: bool,
    pub looping: bool,
}

/// Mathematical state of an envelope generator.
pub ghost struct EnvelopeView {
    pub constant_level: u8,
    pub decay_period: u8,
    pub constant: bool,
    pub looping: bool,
    pub counter: u8,
    pub level: u8,
    pub start: bool,
}

/// State after one quarter-frame clock: a pending start resets the decay
/// level to 15; otherwise the divider counts down, and on expiry reloads
/// while the level decays (looping back to 15 when the loop flag is set).
pub open spec fn envelope_tick(e: EnvelopeView) -> EnvelopeView {
    if e.start {
        EnvelopeView { start: false, level: 0x0F, counter: e.decay_period, ..e }
    } else if e.counter > 0 {
        EnvelopeView { counter: (e.counter - 1) as u8, ..e }
    } else if e.level > 0 {
        EnvelopeView { level: (e.level - 1) as u8 & 0x0F, counter: e.decay_period, ..e }
    } else if e.looping {
        EnvelopeView { level: 0x0F, counter: e.decay_period, ..e }
    } else {
        e
    }
}

/// State after a control write: the low nibble feeds both the constant
/// level and the decay period, bit 4 the constant flag, bit 5 the loop flag.
pub open spec fn envelope_write(e: EnvelopeView, data: u8) -> EnvelopeView {
    EnvelopeView {
        constant_level: data & 0x0F,
        decay_period: data & 0x0F,
        constant: data & 0x10 != 0,
        looping: data & 0x20 != 0,
        ..e
    }
}

/// The volume the envelope feeds the mixer: the constant level when the
/// constant flag is set, else the current decay level.
pub open spec fn envelope_volume(e: EnvelopeView) -> u8 {
    if e.constant {
        e.constant_level
    } else {
        e.level
    }
}

/// The shared envelope generator: a start flag, a divider, and a decay
/// level from 15 down, clocked on quarter frames.
pub struct Envelope {
    control: EnvelopeControl,
    counter: u8,
    level: u8,
    start: bool,
}

impl View for Envelope {
    type V = EnvelopeView;

    closed spec fn view(&self) -> EnvelopeView {
        EnvelopeView {
            constant_level: self.control.constant_level,
            decay_period: self.control.decay_period,
            constant: self.control.constant,
            looping: self.control.looping,
            counter: self.counter,
            level: self.level,
            start: self.start,
        }
    }
}

impl Envelope {
    pub fn new() -> (r: Envelope)
        ensures
            r@ == (EnvelopeView {
                constant_level: 0u8,
                decay_period: 0u8,
                constant: false,
                looping: false,
                counter: 0u8,
                level: 0u8,
                start: false,
            }),
    {
        Envelope {
            counter: 0,
            level: 0,
            control: EnvelopeControl {
                constant_level: 0,
                decay_period: 0,
                constant: false,
                looping: false,
            },
            start: false,
        }
    }

    /// One quarter-frame clock; see [`envelope_tick`].
    pub fn tick(&mut self)
        ensures
            final(self)@ == envelope_tick(old(self)@),
    {
        proof {
            assert(0x0Fu8 & 0x0Fu8 == 0x0Fu8) by (bit_vector);
        }
        if self.start {
            self.start = false;
            self.set_level(0x0F);
        } else {
            if self.counter > 0 {
                self.counter = self.counter - 1;
            } else {
                if self.level > 0 {
                    let l: u8 = self.level - 1;
                    self.set_level(l);
                } else if self.control.looping {
                    self.set_level(0x0F);
                }
            }
        }
    }

    /// Sets the decay level (clipped to four bits) and reloads the divider.
    fn set_level(&mut self, v: u8)
        ensures
            final(self)@ == (EnvelopeView {
                level: v & 0x0F,
                counter: old(self)@.decay_period,
                ..old(self)@
            }),
    {
        self.level = v & 0x0F;
        self.counter = self.control.decay_period;
    }

    /// Control write; see [`envelope_write`].
    pub fn write_register(&mut self, data: u8)
        ensures
            final(self)@ == envelope_write(old(self)@, data),
    {
        self.control.constant_level = data & 0x0F;
        self.control.decay_period = data & 0x0F;
        self.control.constant = data & 0x10 != 0;
        self.control.looping = data & 0x20 != 0;
    }

    /// Flags the envelope to restart on its next quarter-frame clock.
    pub fn start(&mut self)
        ensures
            final(self)@ == (EnvelopeView { start: true, ..old(self)@ }),
    {
        self.start = true;
    }

    /// Current output volume; see [`envelope_volume`].
    pub fn volume(&self) -> (r: u8)
        ensures
            r == envelope_volume(self@),
    {
        if self.control.constant {
            self.control.constant_level
        } else {
            self.level
        }
    }
}

} // verus!
