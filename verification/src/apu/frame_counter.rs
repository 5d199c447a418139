use vstd::prelude::*;

verus! {

/// What a frame-counter clock asks the channels to do: nothing, a
/// quarter-frame tick, or a quarter-plus-half-frame tick.
#[derive(Clone, Copy, PartialEq, Eq, Debug, Structural)]
pub enum FrameResult {
    Quarter,
    Half,
    Nothing,
}

/// Mathematical state of the frame counter.
pub ghost struct FrameCounterView {
    /// True in 5-step mode, false in 4-step mode.
    pub mode_5step: bool,
    pub irq_inhibit: bool,
    /// CPU cycles into the current sequence.
    pub counter: u32,
    pub public_irq_flag: bool,
    pub private_irq_flag: bool,
}

/// The event the sequencer emits at CPU cycle `c` of its period. Both modes
/// clock quarter frames every ~7457 cycles and half frames on the second
/// and last of them; only the 4-step mode can raise an IRQ, at the end of
/// its sequence.
pub open spec fn frame_event(mode_5step: bool, c: u32) -> FrameResult {
    if c == 7457 || c == 22371 {
        FrameResult::Quarter
    } else if c == 14913 {
        FrameResult::Half
    } else if !mode_5step && c == 29829 {
        FrameResult::Half
    } else if mode_5step && c == 37281 {
        FrameResult::Half
    } else {
        FrameResult::Nothing
    }
}

/// Whether cycle `c` is the IRQ point: the last step of the 4-step mode.
pub open spec fn frame_irq_point(mode_5step: bool, c: u32) -> bool {
    !mode_5step && c == 29829
}

/// The sequence length in CPU cycles: the counter wraps past it.
pub open spec fn frame_period(mode_5step: bool) -> u32 {
    if mode_5step {
        37282
    } else {
        29830
    }
}

/// State after one CPU-cycle clock of the frame counter.
pub open spec fn frame_tick_post(f: FrameCounterView) -> FrameCounterView {
    let c = (f.counter + 1) as u32;
    let irq = frame_irq_point(f.mode_5step, c) && !f.irq_inhibit;
    FrameCounterView {
        counter: if c >= frame_period(f.mode_5step) {
            0
        } else {
            c
        },
        public_irq_flag: f.public_irq_flag || irq,
        private_irq_flag: f.private_irq_flag || irq,
        ..f
    }
}

/// The event one CPU-cycle clock emits.
pub open spec fn frame_tick_result(f: FrameCounterView) -> FrameResult {
    frame_event(f.mode_5step, (f.counter + 1) as u32)
}

/// State after a control write (0x4017): bit 7 picks the 5-step mode,
/// bit 6 inhibits (and clears) the IRQ, and the sequence restarts.
pub open spec fn frame_write_post(f: FrameCounterView, value: u8) -> FrameCounterView {
    FrameCounterView {
        mode_5step: value & 0x80 != 0,
        irq_inhibit: value & 0x40 != 0,
        counter: 0,
        public_irq_flag: f.public_irq_flag && value & 0x40 == 0,
        private_irq_flag: f.private_irq_flag && value & 0x40 == 0,
    }
}

/// The event a control write emits: entering 5-step mode clocks an
/// immediate quarter-plus-half frame.
pub open spec fn frame_write_result(value: u8) -> FrameResult {
    if value & 0x80 != 0 {
        FrameResult::Half
    } else {
        FrameResult::Nothing
    }
}

/// The APU frame counter: a 4-step or 5-step sequencer over CPU cycles
/// that clocks envelopes (quarter frames), length counters and sweeps
/// (half frames), and raises the frame IRQ.
pub struct FrameCounter {
    pub mode_5step: bool,
    pub irq_inhibit: bool,
    pub counter: u32,
    pub public_irq_flag: bool,
    pub private_irq_flag: bool,
}

impl View for FrameCounter {
    type V = FrameCounterView;

    open spec fn view(&self) -> FrameCounterView {
        FrameCounterView {
            mode_5step: self.mode_5step,
            irq_inhibit: self.irq_inhibit,
            counter: self.counter,
            public_irq_flag: self.public_irq_flag,
            private_irq_flag: self.private_irq_flag,
        }
    }
}

impl FrameCounter {
    /// The cycle counter never leaves the current sequence.
    pub open spec fn wf(&self) -> bool {
        self@.counter < frame_period(self@.mode_5step)
    }

    pub fn new() -> (r: FrameCounter)
        ensures
            r@ == (FrameCounterView {
                mode_5step: false,
                irq_inhibit: false,
                counter: 0u32,
                public_irq_flag: false,
                private_irq_flag: false,
            }),
            r.wf(),
    {
        FrameCounter {
            mode_5step: false,
            irq_inhibit: false,
            counter: 0,
            public_irq_flag: false,
            private_irq_flag: false,
        }
    }

    /// One CPU-cycle clock; see [`frame_tick_post`].
    pub fn tick(&mut self) -> (r: FrameResult)
        requires
            old(self).wf(),
        ensures
            final(self).wf(),
            final(self)@ == frame_tick_post(old(self)@),
            r == frame_tick_result(old(self)@),
    {
        self.counter = self.counter + 1;
        let c = self.counter;
        let result = if c == 7457 || c == 22371 {
            FrameResult::Quarter
        } else if c == 14913 {
            FrameResult::Half
        } else if !self.mode_5step && c == 29829 {
            if !self.irq_inhibit {
                self.public_irq_flag = true;
                self.private_irq_flag = true;
            }
            FrameResult::Half
        } else if self.mode_5step && c == 37281 {
            FrameResult::Half
        } else {
            FrameResult::Nothing
        };
        let period: u32 = if self.mode_5step {
            37282
        } else {
            29830
        };
        if self.counter >= period {
            self.counter = 0;
        }
        result
    }

    /// Control write; see [`frame_write_post`].
    pub fn write_register(&mut self, value: u8) -> (r: FrameResult)
        ensures
            final(self).wf(),
            final(self)@ == frame_write_post(old(self)@, value),
            r == frame_write_result(value),
    {
        self.mode_5step = value & 0x80 != 0;
        self.irq_inhibit = value & 0x40 != 0;
        self.counter = 0;
        if self.irq_inhibit {
            self.public_irq_flag = false;
            self.private_irq_flag = false;
        }
        if self.mode_5step {
            FrameResult::Half
        } else {
            FrameResult::Nothing
        }
    }
}

} // verus!
