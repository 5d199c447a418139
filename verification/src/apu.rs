use vstd::prelude::*;

use crate::apu::channels::{
    dmc_set_enabled, dmc_tick_sequencer, dmc_write, length_flush, length_set_enabled,
    noise_sample, noise_tick_sequencer, noise_write, pulse_half, pulse_quarter, pulse_sample,
    pulse_tick_sequencer, pulse_wf, pulse_write, noise_half, noise_quarter, triangle_half,
    triangle_quarter, triangle_sample, triangle_tick_sequencer, triangle_wf, triangle_write,
    DmcChannel, DmcView, LengthCounterView, NoiseChannel, NoiseView, PulseChannel, PulseView,
    SweepNegationMode, TriangleChannel, TriangleView,
};
use crate::apu::channels::{dmc_initial, noise_initial, pulse_initial, triangle_initial};
use crate::apu::frame_counter::{
    frame_period, frame_tick_post, frame_tick_result, frame_write_post, frame_write_result,
    FrameCounter, FrameCounterView, FrameResult,
};

pub mod channels;
pub mod envelope;
pub mod frame_counter;

verus! {

/// The five channel outputs at one sampling point: 0..15 for the pulses,
/// triangle and noise, 0..127 for the DMC. The host combines them with the
/// non-linear mixing formula and its filter chain, which work in floating
/// point and so live outside the verified core.
#[derive(Clone, Copy, PartialEq, Eq, Debug, Structural)]
pub struct ChannelSample {
    pub pulse_0: u8,
    pub pulse_1: u8,
    pub triangle: u8,
    pub noise: u8,
    pub dmc: u8,
}

/// Mathematical state of the audio processing unit.
#[verifier::ext_equal]
pub ghost struct ApuView {
    pub cycles: u64,
    pub sample_acc: u32,
    pub frame_counter: FrameCounterView,
    pub pulse_0: PulseView,
    pub pulse_1: PulseView,
    pub triangle: TriangleView,
    pub noise: NoiseView,
    pub dmc: DmcView,
    pub buffer: Seq<ChannelSample>,
}

/// The channel outputs sampled from state `a`.
pub open spec fn apu_sample(a: ApuView) -> ChannelSample {
    ChannelSample {
        pulse_0: pulse_sample(a.pulse_0),
        pulse_1: pulse_sample(a.pulse_1),
        triangle: triangle_sample(a.triangle),
        noise: noise_sample(a.noise),
        dmc: a.dmc.output_level,
    }
}

/// State after the channels take one frame-counter event: quarter frames
/// clock every envelope and the triangle's linear counter; half frames
/// additionally clock length counters and sweeps.
pub open spec fn apu_handle_frame(a: ApuView, r: FrameResult) -> ApuView {
    match r {
        FrameResult::Quarter => ApuView {
            pulse_0: pulse_quarter(a.pulse_0),
            pulse_1: pulse_quarter(a.pulse_1),
            triangle: triangle_quarter(a.triangle),
            noise: noise_quarter(a.noise),
            ..a
        },
        FrameResult::Half => ApuView {
            pulse_0: pulse_half(pulse_quarter(a.pulse_0)),
            pulse_1: pulse_half(pulse_quarter(a.pulse_1)),
            triangle: triangle_half(triangle_quarter(a.triangle)),
            noise: noise_half(noise_quarter(a.noise)),
            ..a
        },
        FrameResult::Nothing => a,
    }
}

/// State after one CPU cycle: the triangle clocks every cycle and the
/// other channels every second one; the frame counter advances and its
/// event is dispatched; pending length-counter loads land; and every
/// fortieth cycle the channel outputs are appended to the sample buffer.
pub open spec fn apu_step(a: ApuView) -> ApuView {
    let c = a.cycles.wrapping_add(1);
    let t1 = ApuView { cycles: c, triangle: triangle_tick_sequencer(a.triangle), ..a };
    let t2 = if c % 2 == 1 {
        ApuView {
            pulse_0: pulse_tick_sequencer(t1.pulse_0),
            pulse_1: pulse_tick_sequencer(t1.pulse_1),
            noise: noise_tick_sequencer(t1.noise),
            dmc: dmc_tick_sequencer(t1.dmc),
            ..t1
        }
    } else {
        t1
    };
    let fr = frame_tick_result(t2.frame_counter);
    let t3 = apu_handle_frame(
        ApuView { frame_counter: frame_tick_post(t2.frame_counter), ..t2 },
        fr,
    );
    let t4 = ApuView {
        pulse_0: PulseView { length: length_flush(t3.pulse_0.length), ..t3.pulse_0 },
        pulse_1: PulseView { length: length_flush(t3.pulse_1.length), ..t3.pulse_1 },
        triangle: TriangleView { length: length_flush(t3.triangle.length), ..t3.triangle },
        noise: NoiseView { length: length_flush(t3.noise.length), ..t3.noise },
        ..t3
    };
    if t4.sample_acc + 1 >= 40 {
        ApuView { sample_acc: 0, buffer: t4.buffer.push(apu_sample(t4)), ..t4 }
    } else {
        ApuView { sample_acc: (t4.sample_acc + 1) as u32, ..t4 }
    }
}

/// State after `n` CPU cycles.
pub open spec fn apu_step_n(a: ApuView, n: nat) -> ApuView
    decreases n,
{
    if n == 0 {
        a
    } else {
        apu_step(apu_step_n(a, (n - 1) as nat))
    }
}

/// State after a register write.
pub open spec fn apu_write(a: ApuView, address: u16, value: u8) -> ApuView {
    if 0x4000 <= address && address <= 0x4003 {
        ApuView { pulse_0: pulse_write(a.pulse_0, address & 0x03, value), ..a }
    } else if 0x4004 <= address && address <= 0x4007 {
        ApuView { pulse_1: pulse_write(a.pulse_1, address & 0x03, value), ..a }
    } else if 0x4008 <= address && address <= 0x400B {
        ApuView { triangle: triangle_write(a.triangle, address & 0x03, value), ..a }
    } else if 0x400C <= address && address <= 0x400F {
        ApuView { noise: noise_write(a.noise, address & 0x03, value), ..a }
    } else if 0x4010 <= address && address <= 0x4013 {
        ApuView { dmc: dmc_write(a.dmc, address & 0x03, value), ..a }
    } else if address == 0x4015 {
        ApuView {
            pulse_0: PulseView {
                length: length_set_enabled(a.pulse_0.length, value & 0x01 != 0),
                ..a.pulse_0
            },
            pulse_1: PulseView {
                length: length_set_enabled(a.pulse_1.length, value & 0x02 != 0),
                ..a.pulse_1
            },
            triangle: TriangleView {
                length: length_set_enabled(a.triangle.length, value & 0x04 != 0),
                ..a.triangle
            },
            noise: NoiseView {
                length: length_set_enabled(a.noise.length, value & 0x08 != 0),
                ..a.noise
            },
            dmc: dmc_set_enabled(a.dmc, value & 0x10 != 0),
            ..a
        }
    } else if address == 0x4017 {
        apu_handle_frame(
            ApuView { frame_counter: frame_write_post(a.frame_counter, value), ..a },
            frame_write_result(value),
        )
    } else {
        a
    }
}

/// The status byte a 0x4015 read reports.
pub open spec fn apu_status_value(a: ApuView) -> u8 {
    (if a.dmc.irq_flag { 0x80u8 } else { 0u8 })
    | (if a.frame_counter.private_irq_flag { 0x40u8 } else { 0u8 })
    | (if a.dmc.bytes_remaining > 0 { 0x10u8 } else { 0u8 })
    | (if a.noise.length.value > 0 { 0x08u8 } else { 0u8 })
    | (if a.triangle.length.value > 0 { 0x04u8 } else { 0u8 })
    | (if a.pulse_1.length.value > 0 { 0x02u8 } else { 0u8 })
    | (if a.pulse_0.length.value > 0 { 0x01u8 } else { 0u8 })
}

/// State after a 0x4015 read: both frame-IRQ flags drop.
pub open spec fn apu_read_status_post(a: ApuView) -> ApuView {
    ApuView {
        frame_counter: FrameCounterView {
            public_irq_flag: false,
            private_irq_flag: false,
            ..a.frame_counter
        },
        ..a
    }
}

/// The state a fresh APU starts in: everything idle and the noise
/// feedback register seeded with 1.
pub open spec fn apu_initial() -> ApuView {
    ApuView {
        cycles: 0u64,
        sample_acc: 0u32,
        frame_counter: FrameCounterView {
            mode_5step: false,
            irq_inhibit: false,
            counter: 0u32,
            public_irq_flag: false,
            private_irq_flag: false,
        },
        pulse_0: pulse_initial(SweepNegationMode::OnesCompliment),
        pulse_1: pulse_initial(SweepNegationMode::TwosCompliment),
        triangle: triangle_initial(),
        noise: noise_initial(),
        dmc: dmc_initial(),
        buffer: Seq::empty(),
    }
}

/// The counter ranges every reachable APU state keeps.
pub open spec fn apu_wf(a: ApuView) -> bool {
    &&& pulse_wf(a.pulse_0)
    &&& pulse_wf(a.pulse_1)
    &&& triangle_wf(a.triangle)
    &&& a.frame_counter.counter < frame_period(a.frame_counter.mode_5step)
    &&& a.sample_acc < 40
}

/// The audio processing unit: two pulse channels, triangle, noise and DMC,
/// sequenced by the frame counter. Every fortieth CPU cycle it appends the
/// raw channel outputs to `buffer`; the host drains the buffer once per
/// frame and runs the floating-point mixer over it.
pub struct APU {
    pub buffer: Vec<ChannelSample>,
    cycles: u64,
    sample_acc: u32,
    pub frame_counter: FrameCounter,
    pub pulse_0: PulseChannel,
    pub pulse_1: PulseChannel,
    pub triangle: TriangleChannel,
    pub noise: NoiseChannel,
    pub dmc: DmcChannel,
}

impl View for APU {
    type V = ApuView;

    closed spec fn view(&self) -> ApuView {
        ApuView {
            cycles: self.cycles,
            sample_acc: self.sample_acc,
            frame_counter: self.frame_counter@,
            pulse_0: self.pulse_0@,
            pulse_1: self.pulse_1@,
            triangle: self.triangle@,
            noise: self.noise@,
            dmc: self.dmc@,
            buffer: self.buffer@,
        }
    }
}

impl APU {
    /// Shorthand for [`apu_wf`] on this APU's view.
    pub open spec fn wf(&self) -> bool {
        apu_wf(self@)
    }

    pub fn new() -> (r: APU)
        ensures
            r.wf(),
            r@ == apu_initial(),
    {
        APU {
            buffer: Vec::new(),
            cycles: 0,
            sample_acc: 0,
            frame_counter: FrameCounter::new(),
            pulse_0: PulseChannel::new(SweepNegationMode::OnesCompliment),
            pulse_1: PulseChannel::new(SweepNegationMode::TwosCompliment),
            triangle: TriangleChannel::new(),
            noise: NoiseChannel::new(),
            dmc: DmcChannel::new(),
        }
    }

    /// Puts the frame counter back in 4-step mode with the IRQ allowed and
    /// lets the sequencers settle for a few cycles, as the hardware does
    /// after reset.
    pub fn reset(&mut self)
        requires
            old(self).wf(),
        ensures
            final(self).wf(),
            final(self)@ == apu_step_n(apu_write(old(self)@, 0x4017, 0), 11),
    {
        self.write_register(0x4017, 0);
        self.tick(11);
    }

    /// The 0x4015 status read; see [`apu_status_value`].
    pub fn read_register(&mut self) -> (r: u8)
        ensures
            r == apu_status_value(old(self)@),
            final(self)@ == apu_read_status_post(old(self)@),
            final(self).wf() == old(self).wf(),
    {
        let b7: u8 = if self.dmc.irq_flag { 0x80 } else { 0 };
        let b6: u8 = if self.frame_counter.private_irq_flag { 0x40 } else { 0 };
        let b4: u8 = if self.dmc.playing() { 0x10 } else { 0 };
        let b3: u8 = if self.noise.playing() { 0x08 } else { 0 };
        let b2: u8 = if self.triangle.playing() { 0x04 } else { 0 };
        let b1: u8 = if self.pulse_1.playing() { 0x02 } else { 0 };
        let b0: u8 = if self.pulse_0.playing() { 0x01 } else { 0 };
        let result: u8 = b7 | b6 | b4 | b3 | b2 | b1 | b0;
        self.frame_counter.private_irq_flag = false;
        self.frame_counter.public_irq_flag = false;
        result
    }

    /// A register write; see [`apu_write`].
    #[verifier::rlimit(100)]
    pub fn write_register(&mut self, address: u16, value: u8)
        requires
            old(self).wf(),
        ensures
            final(self).wf(),
            final(self)@ == apu_write(old(self)@, address, value),
    {
        if 0x4000 <= address && address <= 0x4003 {
            self.pulse_0.write_register(address, value);
            proof {
                assert(self@ =~= apu_write(old(self)@, address, value));
            }
        } else if 0x4004 <= address && address <= 0x4007 {
            self.pulse_1.write_register(address, value);
            proof {
                assert(self@ =~= apu_write(old(self)@, address, value));
            }
        } else if 0x4008 <= address && address <= 0x400B {
            self.triangle.write_register(address, value);
            proof {
                assert(self@ =~= apu_write(old(self)@, address, value));
            }
        } else if 0x400C <= address && address <= 0x400F {
            self.noise.write_register(address, value);
            proof {
                assert(self@ =~= apu_write(old(self)@, address, value));
            }
        } else if 0x4010 <= address && address <= 0x4013 {
            self.dmc.write_register(address, value);
            proof {
                assert(self@ =~= apu_write(old(self)@, address, value));
            }
        } else if address == 0x4015 {
            self.pulse_0.set_enabled(value & 0x01 != 0);
            self.pulse_1.set_enabled(value & 0x02 != 0);
            self.triangle.set_enabled(value & 0x04 != 0);
            self.noise.set_enabled(value & 0x08 != 0);
            self.dmc.set_enabled(value & 0x10 != 0);
            proof {
                assert(self@ =~= apu_write(old(self)@, address, value));
            }
        } else if address == 0x4017 {
            let r: FrameResult = self.frame_counter.write_register(value);
            self.handle_frame_result(r);
            proof {
                assert(self@ =~= apu_write(old(self)@, address, value));
            }
        } else {
            proof {
                assert(self@ =~= apu_write(old(self)@, address, value));
            }
        }
    }

    /// Advances the APU by `cycles` CPU cycles; see [`apu_step`].
    pub fn tick(&mut self, cycles: u8)
        requires
            old(self).wf(),
        ensures
            final(self).wf(),
            final(self)@ == apu_step_n(old(self)@, cycles as nat),
    {
        let mut i: u8 = 0;
        while i < cycles
            invariant
                i <= cycles,
                self.wf(),
                self@ == apu_step_n(old(self)@, i as nat),
            decreases cycles - i,
        {
            self.step_cycle();
            i = i + 1;
        }
    }

    /// One CPU cycle; see [`apu_step`].
    #[verifier::rlimit(100)]
    fn step_cycle(&mut self)
        requires
            old(self).wf(),
        ensures
            final(self).wf(),
            final(self)@ == apu_step(old(self)@),
    {
        self.cycles = self.cycles.wrapping_add(1);
        self.triangle.tick_sequencer();
        if self.cycles % 2 == 1 {
            self.pulse_0.tick_sequencer();
            self.pulse_1.tick_sequencer();
            self.noise.tick_sequencer();
            self.dmc.tick_sequencer();
        }
        let r: FrameResult = self.frame_counter.tick();
        self.handle_frame_result(r);
        self.pulse_0.update_pending_length_counter();
        self.pulse_1.update_pending_length_counter();
        self.triangle.update_pending_length_counter();
        self.noise.update_pending_length_counter();
        if self.sample_acc + 1 >= 40 {
            let s = self.sample();
            self.buffer.push(s);
            self.sample_acc = 0;
        } else {
            self.sample_acc = self.sample_acc + 1;
        }
        proof {
            assert(self@ =~= apu_step(old(self)@));
        }
    }

    /// Dispatches one frame-counter event; see [`apu_handle_frame`].
    fn handle_frame_result(&mut self, result: FrameResult)
        requires
            old(self).wf(),
        ensures
            final(self).wf(),
            final(self)@ == apu_handle_frame(old(self)@, result),
            final(self)@.frame_counter == old(self)@.frame_counter,
            final(self)@.cycles == old(self)@.cycles,
            final(self)@.sample_acc == old(self)@.sample_acc,
            final(self)@.buffer == old(self)@.buffer,
    {
        match result {
            FrameResult::Quarter => {
                self.pulse_0.tick_quarter_frame();
                self.pulse_1.tick_quarter_frame();
                self.triangle.tick_quarter_frame();
                self.noise.tick_quarter_frame();
            },
            FrameResult::Half => {
                self.pulse_0.tick_quarter_frame();
                self.pulse_0.tick_half_frame();
                self.pulse_1.tick_quarter_frame();
                self.pulse_1.tick_half_frame();
                self.triangle.tick_quarter_frame();
                self.triangle.tick_half_frame();
                self.noise.tick_quarter_frame();
                self.noise.tick_half_frame();
            },
            FrameResult::Nothing => (),
        }
    }

    /// True while the frame counter holds its IRQ line up.
    pub fn irq_flag(&self) -> (r: bool)
        ensures
            r == self@.frame_counter.public_irq_flag,
    {
        self.frame_counter.public_irq_flag
    }

    /// The five raw channel outputs right now; see [`apu_sample`].
    pub fn sample(&self) -> (r: ChannelSample)
        requires
            self.wf(),
        ensures
            r == apu_sample(self@),
    {
        ChannelSample {
            pulse_0: self.pulse_0.sample(),
            pulse_1: self.pulse_1.sample(),
            triangle: self.triangle.sample(),
            noise: self.noise.sample(),
            dmc: self.dmc.sample(),
        }
    }
}

} // verus!
