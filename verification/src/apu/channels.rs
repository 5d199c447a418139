use vstd::prelude::*;

use crate::apu::envelope::{
    envelope_tick, envelope_volume, envelope_write, Envelope, EnvelopeView,
};

verus! {

// ---------------------------------------------------------------------------
// Length counter
// ---------------------------------------------------------------------------
/// Mathematical state of a length counter.
pub ghost struct LengthCounterView {
    pub value: u8,
    pub halt: bool,
    /// A load written mid-frame, visible one CPU cycle later.
    pub pending: Option<u8>,
    pub enabled: bool,
}

/// The duration table, indexed by the high five bits of a channel's fourth
/// register write.
pub open spec fn spec_length_lookup(index: u8) -> u8 {
    if index == 0 {
        10
    } else if index == 1 {
        254
    } else if index == 2 {
        20
    } else if index == 3 {
        2
    } else if index == 4 {
        40
    } else if index == 5 {
        4
    } else if index == 6 {
        80
    } else if index == 7 {
        6
    } else if index == 8 {
        160
    } else if index == 9 {
        8
    } else if index == 10 {
        60
    } else if index == 11 {
        10
    } else if index == 12 {
        14
    } else if index == 13 {
        12
    } else if index == 14 {
        26
    } else if index == 15 {
        14
    } else if index == 16 {
        12
    } else if index == 17 {
        16
    } else if index == 18 {
        24
    } else if index == 19 {
        18
    } else if index == 20 {
        48
    } else if index == 21 {
        20
    } else if index == 22 {
        96
    } else if index == 23 {
        22
    } else if index == 24 {
        192
    } else if index == 25 {
        24
    } else if index == 26 {
        72
    } else if index == 27 {
        26
    } else if index == 28 {
        16
    } else if index == 29 {
        28
    } else if index == 30 {
        32
    } else {
        30
    }
}

/// Exec counterpart of [`spec_length_lookup`].
#[verifier::when_used_as_spec(spec_length_lookup)]
pub fn length_lookup(index: u8) -> (r: u8)
    ensures
        r == spec_length_lookup(index),
{
    if index == 0 {
        10
    } else if index == 1 {
        254
    } else if index == 2 {
        20
    } else if index == 3 {
        2
    } else if index == 4 {
        40
    } else if index == 5 {
        4
    } else if index == 6 {
        80
    } else if index == 7 {
        6
    } else if index == 8 {
        160
    } else if index == 9 {
        8
    } else if index == 10 {
        60
    } else if index == 11 {
        10
    } else if index == 12 {
        14
    } else if index == 13 {
        12
    } else if index == 14 {
        26
    } else if index == 15 {
        14
    } else if index == 16 {
        12
    } else if index == 17 {
        16
    } else if index == 18 {
        24
    } else if index == 19 {
        18
    } else if index == 20 {
        48
    } else if index == 21 {
        20
    } else if index == 22 {
        96
    } else if index == 23 {
        22
    } else if index == 24 {
        192
    } else if index == 25 {
        24
    } else if index == 26 {
        72
    } else if index == 27 {
        26
    } else if index == 28 {
        16
    } else if index == 29 {
        28
    } else if index == 30 {
        32
    } else {
        30
    }
}

/// A load lands in the pending slot only while the channel is enabled.
pub open spec fn length_load(l: LengthCounterView, raw: u8) -> LengthCounterView {
    if l.enabled {
        LengthCounterView { pending: Some(spec_length_lookup(raw >> 3)), ..l }
    } else {
        l
    }
}

/// The pending load becomes the counter value on the next CPU tick.
pub open spec fn length_flush(l: LengthCounterView) -> LengthCounterView {
    match l.pending {
        Some(v) => LengthCounterView { value: v, pending: None, ..l },
        None => l,
    }
}

/// Half-frame clock: the counter steps down unless halted or already zero.
pub open spec fn length_half(l: LengthCounterView) -> LengthCounterView {
    if !l.halt && l.value > 0 {
        LengthCounterView { value: (l.value - 1) as u8, ..l }
    } else {
        l
    }
}

/// Disabling a channel zeroes its counter and drops any pending load.
pub open spec fn length_set_enabled(l: LengthCounterView, e: bool) -> LengthCounterView {
    if e {
        LengthCounterView { enabled: true, ..l }
    } else {
        LengthCounterView { enabled: false, value: 0, pending: None, ..l }
    }
}

/// The shared length counter: silences a channel once its programmed
/// duration runs out, unless the halt flag is set.
pub struct LengthCounter {
    value: u8,
    halt: bool,
    pending: Option<u8>,
    enabled: bool,
}

impl View for LengthCounter {
    type V = LengthCounterView;

    closed spec fn view(&self) -> LengthCounterView {
        LengthCounterView {
            value: self.value,
            halt: self.halt,
            pending: self.pending,
            enabled: self.enabled,
        }
    }
}

impl LengthCounter {
    pub fn new() -> (r: LengthCounter)
        ensures
            r@ == (LengthCounterView {
                value: 0u8,
                halt: false,
                pending: None::<u8>,
                enabled: false,
            }),
    {
        LengthCounter { value: 0, halt: false, pending: None, enabled: false }
    }

    /// Queues a duration from the lookup table; see [`length_load`].
    pub fn load(&mut self, raw: u8)
        ensures
            final(self)@ == length_load(old(self)@, raw),
    {
        if self.enabled {
            self.pending = Some(length_lookup(raw >> 3));
        }
    }

    /// Applies a pending load; see [`length_flush`].
    pub fn flush_pending(&mut self)
        ensures
            final(self)@ == length_flush(old(self)@),
    {
        if let Some(v) = self.pending {
            self.value = v;
            self.pending = None;
        }
    }

    /// Half-frame clock; see [`length_half`].
    pub fn tick_half(&mut self)
        ensures
            final(self)@ == length_half(old(self)@),
    {
        if !self.halt && self.value > 0 {
            self.value = self.value - 1;
        }
    }

    pub fn set_halt(&mut self, halt: bool)
        ensures
            final(self)@ == (LengthCounterView { halt: halt, ..old(self)@ }),
    {
        self.halt = halt;
    }

    /// Enables or disables the channel; see [`length_set_enabled`].
    pub fn set_enabled(&mut self, e: bool)
        ensures
            final(self)@ == length_set_enabled(old(self)@, e),
    {
        self.enabled = e;
        if !e {
            self.value = 0;
            self.pending = None;
        }
    }

    /// True while the counter has time left.
    pub fn active(&self) -> (r: bool)
        ensures
            r == (self@.value > 0),
    {
        self.value > 0
    }
}

// ---------------------------------------------------------------------------
// Sweep
// ---------------------------------------------------------------------------
/// How a pulse channel's sweep negates the period change: the first pulse
/// channel uses ones'-complement, the second twos'-complement.
#[derive(Clone, Copy, PartialEq, Eq, Debug, Structural)]
pub enum SweepNegationMode {
    OnesCompliment,
    TwosCompliment,
}

/// The shift count a sweep register write can produce.
pub open spec fn sweep_wf(s: SweepView) -> bool {
    s.shift <= 7
}

/// Mathematical state of a sweep unit.
pub ghost struct SweepView {
    pub enabled: bool,
    pub period: u8,
    pub negate: bool,
    pub shift: u8,
    pub counter: u8,
    pub reload: bool,
    pub mode: SweepNegationMode,
}

/// The period the sweep is aiming at: the current period shifted down and
/// added or subtracted, the subtraction off by one extra in
/// ones'-complement mode (clamped at zero).
pub open spec fn sweep_target(timer_period: u16, s: SweepView) -> u16 {
    let change = timer_period >> s.shift;
    if !s.negate {
        (timer_period + change) as u16
    } else if s.mode == SweepNegationMode::OnesCompliment {
        if timer_period > change {
            (timer_period - change - 1) as u16
        } else {
            0
        }
    } else {
        (timer_period - change) as u16
    }
}

/// The sweep silences its channel when the period is below 8 or the target
/// period would overflow 11 bits.
pub open spec fn sweep_mutes(timer_period: u16, s: SweepView) -> bool {
    timer_period < 8 || sweep_target(timer_period, s) > 0x7FF
}

/// State after a sweep-register write (second pulse register).
pub open spec fn sweep_write(s: SweepView, value: u8) -> SweepView {
    SweepView {
        enabled: value & 0x80 != 0,
        period: (value >> 4) & 0x07,
        negate: value & 0x08 != 0,
        shift: value & 0x07,
        reload: true,
        ..s
    }
}

/// The period after a half-frame clock: the target is taken exactly when
/// the divider has run out, the sweep is on with a non-zero shift, and the
/// channel is not muted.
pub open spec fn sweep_half_period(timer_period: u16, s: SweepView) -> u16 {
    if s.counter == 0 && s.enabled && s.shift != 0 && !sweep_mutes(timer_period, s) {
        sweep_target(timer_period, s)
    } else {
        timer_period
    }
}

/// The sweep divider after a half-frame clock: reloaded when it ran out or
/// a write asked for it, else counted down.
pub open spec fn sweep_half_post(s: SweepView) -> SweepView {
    if s.counter == 0 || s.reload {
        SweepView { counter: s.period, reload: false, ..s }
    } else {
        SweepView { counter: (s.counter - 1) as u8, ..s }
    }
}

/// A pulse channel's sweep unit: periodically walks the timer period up or
/// down by a shifted copy of itself.
pub struct Sweep {
    enabled: bool,
    period: u8,
    negate: bool,
    shift: u8,
    counter: u8,
    reload: bool,
    mode: SweepNegationMode,
}

impl View for Sweep {
    type V = SweepView;

    closed spec fn view(&self) -> SweepView {
        SweepView {
            enabled: self.enabled,
            period: self.period,
            negate: self.negate,
            shift: self.shift,
            counter: self.counter,
            reload: self.reload,
            mode: self.mode,
        }
    }
}

impl Sweep {
    pub fn new(mode: SweepNegationMode) -> (r: Sweep)
        ensures
            r@ == (SweepView {
                enabled: false,
                period: 0u8,
                negate: false,
                shift: 0u8,
                counter: 0u8,
                reload: false,
                mode: mode,
            }),
    {
        Sweep {
            enabled: false,
            period: 0,
            negate: false,
            shift: 0,
            counter: 0,
            reload: false,
            mode,
        }
    }

    /// Register write; see [`sweep_write`].
    pub fn write(&mut self, value: u8)
        ensures
            final(self)@ == sweep_write(old(self)@, value),
            sweep_wf(final(self)@),
    {
        proof {
            assert(value & 0x07 <= 7) by (bit_vector);
        }
        self.enabled = value & 0x80 != 0;
        self.period = (value >> 4) & 0x07;
        self.negate = value & 0x08 != 0;
        self.shift = value & 0x07;
        self.reload = true;
    }
}

/// Shifting a period right never makes it larger.
proof fn lemma_shift_le(p: u16, s: u8)
    ensures
        p >> s <= p,
{
    assert(p >> s <= p) by (bit_vector);
}

/// Exec counterpart of [`sweep_target`].
fn sweep_target_period(timer_period: u16, sweep: &Sweep) -> (r: u16)
    requires
        timer_period <= 0x7FF,
        sweep_wf(sweep@),
    ensures
        r == sweep_target(timer_period, sweep@),
        r <= 0xFFE,
{
    proof {
        lemma_shift_le(timer_period, sweep@.shift);
    }
    let change: u16 = timer_period >> sweep.shift;
    if !sweep.negate {
        timer_period + change
    } else if matches!(sweep.mode, SweepNegationMode::OnesCompliment) {
        if timer_period > change {
            timer_period - change - 1
        } else {
            0
        }
    } else {
        timer_period - change
    }
}

// ---------------------------------------------------------------------------
// Pulse channels
// ---------------------------------------------------------------------------
/// Mathematical state of a pulse channel.
pub ghost struct PulseView {
    pub duty: u8,
    pub step: u8,
    pub timer_period: u16,
    pub timer: u16,
    pub envelope: EnvelopeView,
    pub sweep: SweepView,
    pub length: LengthCounterView,
}

/// Bit `step` of duty pattern `duty`: the four patterns are 12.5%, 25%,
/// 50% and 25%-negated.
pub open spec fn duty_bit(duty: u8, step: u8) -> bool {
    let pattern: u8 = if duty == 0 {
        0x40
    } else if duty == 1 {
        0x60
    } else if duty == 2 {
        0x78
    } else {
        0x9F
    };
    pattern & (0x80u8 >> step) != 0
}

/// State after one sequencer clock (every other CPU cycle): the timer
/// counts down and, on expiry, reloads and advances the duty step.
pub open spec fn pulse_tick_sequencer(p: PulseView) -> PulseView {
    if p.timer == 0 {
        PulseView {
            timer: p.timer_period,
            step: if p.step >= 7 {
                0
            } else {
                (p.step + 1) as u8
            },
            ..p
        }
    } else {
        PulseView { timer: (p.timer - 1) as u16, ..p }
    }
}

/// State after a quarter-frame clock: the envelope steps.
pub open spec fn pulse_quarter(p: PulseView) -> PulseView {
    PulseView { envelope: envelope_tick(p.envelope), ..p }
}

/// State after a half-frame clock: the sweep may retune the period, its
/// divider steps, and the length counter steps.
pub open spec fn pulse_half(p: PulseView) -> PulseView {
    PulseView {
        timer_period: sweep_half_period(p.timer_period, p.sweep),
        sweep: sweep_half_post(p.sweep),
        length: length_half(p.length),
        ..p
    }
}

/// State after a register write (`reg` is the address modulo 4).
pub open spec fn pulse_write(p: PulseView, reg: u16, value: u8) -> PulseView {
    if reg == 0 {
        PulseView {
            duty: value >> 6,
            envelope: envelope_write(p.envelope, value),
            length: LengthCounterView { halt: value & 0x20 != 0, ..p.length },
            ..p
        }
    } else if reg == 1 {
        PulseView { sweep: sweep_write(p.sweep, value), ..p }
    } else if reg == 2 {
        PulseView { timer_period: (p.timer_period & 0x0700) | (value as u16), ..p }
    } else {
        PulseView {
            timer_period: (p.timer_period & 0x00FF) | (((value & 0x07) as u16) << 8),
            length: length_load(p.length, value),
            envelope: EnvelopeView { start: true, ..p.envelope },
            step: 0,
            ..p
        }
    }
}

/// The channel's mixer input: the envelope volume while the duty bit is
/// up, the length counter runs, and the sweep does not mute it.
pub open spec fn pulse_sample(p: PulseView) -> u8 {
    if duty_bit(p.duty, p.step) && p.length.value > 0 && !sweep_mutes(p.timer_period, p.sweep) {
        envelope_volume(p.envelope)
    } else {
        0
    }
}

/// One square-wave channel: duty sequencer, sweep, envelope and length
/// counter.
pub struct PulseChannel {
    duty: u8,
    step: u8,
    timer_period: u16,
    timer: u16,
    envelope: Envelope,
    sweep: Sweep,
    length: LengthCounter,
}

impl View for PulseChannel {
    type V = PulseView;

    closed spec fn view(&self) -> PulseView {
        PulseView {
            duty: self.duty,
            step: self.step,
            timer_period: self.timer_period,
            timer: self.timer,
            envelope: self.envelope@,
            sweep: self.sweep@,
            length: self.length@,
        }
    }
}

/// The 11-bit ranges the pulse state keeps.
pub open spec fn pulse_wf(p: PulseView) -> bool {
    &&& p.timer_period <= 0x7FF
    &&& p.timer <= 0x7FF
    &&& p.step <= 7
    &&& p.duty <= 3
    &&& sweep_wf(p.sweep)
}

impl PulseChannel {
    pub open spec fn wf(&self) -> bool {
        pulse_wf(self@)
    }

    pub fn new(mode: SweepNegationMode) -> (r: PulseChannel)
        ensures
            r.wf(),
            r@ == pulse_initial(mode),
    {
        PulseChannel {
            duty: 0,
            step: 0,
            timer_period: 0,
            timer: 0,
            envelope: Envelope::new(),
            sweep: Sweep::new(mode),
            length: LengthCounter::new(),
        }
    }

    /// Register write; see [`pulse_write`].
    pub fn write_register(&mut self, address: u16, value: u8)
        requires
            old(self).wf(),
        ensures
            final(self).wf(),
            final(self)@ == pulse_write(old(self)@, address & 0x03, value),
    {
        let reg = address & 0x03;
        proof {
            assert(address & 0x03 <= 3) by (bit_vector);
            assert(value >> 6 <= 3) by (bit_vector);
            lemma_pulse_period_write_bounds(self.timer_period, value);
        }
        if reg == 0 {
            self.duty = value >> 6;
            self.length.set_halt(value & 0x20 != 0);
            self.envelope.write_register(value);
        } else if reg == 1 {
            self.sweep.write(value);
        } else if reg == 2 {
            self.timer_period = (self.timer_period & 0x0700) | (value as u16);
        } else {
            self.timer_period = (self.timer_period & 0x00FF) | (((value & 0x07) as u16) << 8);
            self.length.load(value);
            self.envelope.start();
            self.step = 0;
        }
    }

    /// Sequencer clock; see [`pulse_tick_sequencer`].
    pub fn tick_sequencer(&mut self)
        requires
            old(self).wf(),
        ensures
            final(self).wf(),
            final(self)@ == pulse_tick_sequencer(old(self)@),
    {
        if self.timer == 0 {
            self.timer = self.timer_period;
            self.step = if self.step >= 7 {
                0
            } else {
                self.step + 1
            };
        } else {
            self.timer = self.timer - 1;
        }
    }

    /// Quarter-frame clock; see [`pulse_quarter`].
    pub fn tick_quarter_frame(&mut self)
        ensures
            final(self)@ == pulse_quarter(old(self)@),
            final(self).wf() == old(self).wf(),
    {
        self.envelope.tick();
    }

    /// Half-frame clock; see [`pulse_half`].
    pub fn tick_half_frame(&mut self)
        requires
            old(self).wf(),
        ensures
            final(self).wf(),
            final(self)@ == pulse_half(old(self)@),
    {
        let target = sweep_target_period(self.timer_period, &self.sweep);
        if self.sweep.counter == 0 && self.sweep.enabled && self.sweep.shift != 0 && !(
        self.timer_period < 8 || target > 0x7FF) {
            self.timer_period = target;
        }
        if self.sweep.counter == 0 || self.sweep.reload {
            self.sweep.counter = self.sweep.period;
            self.sweep.reload = false;
        } else {
            self.sweep.counter = self.sweep.counter - 1;
        }
        self.length.tick_half();
    }

    /// Applies a pending length-counter load; see [`length_flush`].
    pub fn update_pending_length_counter(&mut self)
        ensures
            final(self)@ == (PulseView { length: length_flush(old(self)@.length), ..old(self)@ }),
            final(self).wf() == old(self).wf(),
    {
        self.length.flush_pending();
    }

    /// Enables or disables the channel; see [`length_set_enabled`].
    pub fn set_enabled(&mut self, e: bool)
        ensures
            final(self)@ == (PulseView {
                length: length_set_enabled(old(self)@.length, e),
                ..old(self)@
            }),
            final(self).wf() == old(self).wf(),
    {
        self.length.set_enabled(e);
    }

    /// True while the length counter runs.
    pub fn playing(&self) -> (r: bool)
        ensures
            r == (self@.length.value > 0),
    {
        self.length.active()
    }

    /// Mixer input; see [`pulse_sample`].
    pub fn sample(&self) -> (r: u8)
        requires
            self.wf(),
        ensures
            r == pulse_sample(self@),
    {
        let pattern: u8 = if self.duty == 0 {
            0x40
        } else if self.duty == 1 {
            0x60
        } else if self.duty == 2 {
            0x78
        } else {
            0x9F
        };
        let on = pattern & (0x80u8 >> self.step) != 0;
        let target = sweep_target_period(self.timer_period, &self.sweep);
        let muted = self.timer_period < 8 || target > 0x7FF;
        if on && self.length.active() && !muted {
            self.envelope.volume()
        } else {
            0
        }
    }
}

/// Both period-register writes keep the timer period inside 11 bits.
proof fn lemma_pulse_period_write_bounds(period: u16, value: u8)
    ensures
        ((period & 0x0700) | (value as u16)) <= 0x7FF,
        ((period & 0x00FF) | (((value & 0x07) as u16) << 8)) <= 0x7FF,
{
    assert(((period & 0x0700) | (value as u16)) <= 0x7FF) by (bit_vector);
    assert(((period & 0x00FF) | (((value & 0x07) as u16) << 8)) <= 0x7FF) by (bit_vector);
}

// ---------------------------------------------------------------------------
// Triangle channel
// ---------------------------------------------------------------------------
/// Mathematical state of the triangle channel.
pub ghost struct TriangleView {
    pub step: u8,
    pub timer_period: u16,
    pub timer: u16,
    pub linear_reload_value: u8,
    pub linear_counter: u8,
    pub linear_reload_flag: bool,
    pub control: bool,
    pub length: LengthCounterView,
}

/// The 32-step triangle wave: 15 down to 0, then 0 back up to 15.
pub open spec fn triangle_wave(step: u8) -> u8 {
    if step < 16 {
        (15 - step) as u8
    } else {
        (step - 16) as u8
    }
}

/// Whether the triangle advances and sounds at all: it needs a running
/// length counter, a running linear counter, and a period of at least 2.
pub open spec fn triangle_audible(t: TriangleView) -> bool {
    t.length.value > 0 && t.linear_counter > 0 && t.timer_period >= 2
}

/// State after one sequencer clock (every CPU cycle): while audible, the
/// timer counts down and on expiry advances the 32-step wave.
pub open spec fn triangle_tick_sequencer(t: TriangleView) -> TriangleView {
    if !triangle_audible(t) {
        t
    } else if t.timer == 0 {
        TriangleView {
            timer: t.timer_period,
            step: if t.step >= 31 {
                0
            } else {
                (t.step + 1) as u8
            },
            ..t
        }
    } else {
        TriangleView { timer: (t.timer - 1) as u16, ..t }
    }
}

/// State after a quarter-frame clock: the linear counter reloads or steps
/// down; the reload flag drops unless the control bit holds it.
pub open spec fn triangle_quarter(t: TriangleView) -> TriangleView {
    let counter = if t.linear_reload_flag {
        t.linear_reload_value
    } else if t.linear_counter > 0 {
        (t.linear_counter - 1) as u8
    } else {
        0
    };
    TriangleView {
        linear_counter: counter,
        linear_reload_flag: if t.control {
            t.linear_reload_flag
        } else {
            false
        },
        ..t
    }
}

/// State after a half-frame clock: the length counter steps.
pub open spec fn triangle_half(t: TriangleView) -> TriangleView {
    TriangleView { length: length_half(t.length), ..t }
}

/// State after a register write (`reg` is the address modulo 4).
pub open spec fn triangle_write(t: TriangleView, reg: u16, value: u8) -> TriangleView {
    if reg == 0 {
        TriangleView {
            control: value & 0x80 != 0,
            linear_reload_value: value & 0x7F,
            length: LengthCounterView { halt: value & 0x80 != 0, ..t.length },
            ..t
        }
    } else if reg == 1 {
        t
    } else if reg == 2 {
        TriangleView { timer_period: (t.timer_period & 0x0700) | (value as u16), ..t }
    } else {
        TriangleView {
            timer_period: (t.timer_period & 0x00FF) | (((value & 0x07) as u16) << 8),
            length: length_load(t.length, value),
            linear_reload_flag: true,
            ..t
        }
    }
}

/// The channel's mixer input: the current wave value while audible.
pub open spec fn triangle_sample(t: TriangleView) -> u8 {
    if triangle_audible(t) {
        triangle_wave(t.step)
    } else {
        0
    }
}

/// The triangle channel: a 32-step wave gated by both a length counter and
/// the finer-grained linear counter.
pub struct TriangleChannel {
    step: u8,
    timer_period: u16,
    timer: u16,
    linear_reload_value: u8,
    linear_counter: u8,
    linear_reload_flag: bool,
    control: bool,
    length: LengthCounter,
}

impl View for TriangleChannel {
    type V = TriangleView;

    closed spec fn view(&self) -> TriangleView {
        TriangleView {
            step: self.step,
            timer_period: self.timer_period,
            timer: self.timer,
            linear_reload_value: self.linear_reload_value,
            linear_counter: self.linear_counter,
            linear_reload_flag: self.linear_reload_flag,
            control: self.control,
            length: self.length@,
        }
    }
}

/// The ranges the triangle state keeps.
pub open spec fn triangle_wf(t: TriangleView) -> bool {
    &&& t.timer_period <= 0x7FF
    &&& t.timer <= 0x7FF
    &&& t.step <= 31
}

impl TriangleChannel {
    pub open spec fn wf(&self) -> bool {
        triangle_wf(self@)
    }

    pub fn new() -> (r: TriangleChannel)
        ensures
            r.wf(),
            r@ == triangle_initial(),
    {
        TriangleChannel {
            step: 0,
            timer_period: 0,
            timer: 0,
            linear_reload_value: 0,
            linear_counter: 0,
            linear_reload_flag: false,
            control: false,
            length: LengthCounter::new(),
        }
    }

    /// Register write; see [`triangle_write`].
    pub fn write_register(&mut self, address: u16, value: u8)
        requires
            old(self).wf(),
        ensures
            final(self).wf(),
            final(self)@ == triangle_write(old(self)@, address & 0x03, value),
    {
        let reg = address & 0x03;
        proof {
            assert(address & 0x03 <= 3) by (bit_vector);
            lemma_pulse_period_write_bounds(self.timer_period, value);
        }
        if reg == 0 {
            self.control = value & 0x80 != 0;
            self.length.set_halt(value & 0x80 != 0);
            self.linear_reload_value = value & 0x7F;
        } else if reg == 1 {
            // unused register
        } else if reg == 2 {
            self.timer_period = (self.timer_period & 0x0700) | (value as u16);
        } else {
            self.timer_period = (self.timer_period & 0x00FF) | (((value & 0x07) as u16) << 8);
            self.length.load(value);
            self.linear_reload_flag = true;
        }
    }

    /// Sequencer clock; see [`triangle_tick_sequencer`].
    pub fn tick_sequencer(&mut self)
        requires
            old(self).wf(),
        ensures
            final(self).wf(),
            final(self)@ == triangle_tick_sequencer(old(self)@),
    {
        if self.length.active() && self.linear_counter > 0 && self.timer_period >= 2 {
            if self.timer == 0 {
                self.timer = self.timer_period;
                self.step = if self.step >= 31 {
                    0
                } else {
                    self.step + 1
                };
            } else {
                self.timer = self.timer - 1;
            }
        }
    }

    /// Quarter-frame clock; see [`triangle_quarter`].
    pub fn tick_quarter_frame(&mut self)
        ensures
            final(self)@ == triangle_quarter(old(self)@),
            final(self).wf() == old(self).wf(),
    {
        if self.linear_reload_flag {
            self.linear_counter = self.linear_reload_value;
        } else if self.linear_counter > 0 {
            self.linear_counter = self.linear_counter - 1;
        }
        if !self.control {
            self.linear_reload_flag = false;
        }
    }

    /// Half-frame clock; see [`triangle_half`].
    pub fn tick_half_frame(&mut self)
        ensures
            final(self)@ == triangle_half(old(self)@),
            final(self).wf() == old(self).wf(),
    {
        self.length.tick_half();
    }

    /// Applies a pending length-counter load; see [`length_flush`].
    pub fn update_pending_length_counter(&mut self)
        ensures
            final(self)@ == (TriangleView {
                length: length_flush(old(self)@.length),
                ..old(self)@
            }),
            final(self).wf() == old(self).wf(),
    {
        self.length.flush_pending();
    }

    /// Enables or disables the channel; see [`length_set_enabled`].
    pub fn set_enabled(&mut self, e: bool)
        ensures
            final(self)@ == (TriangleView {
                length: length_set_enabled(old(self)@.length, e),
                ..old(self)@
            }),
            final(self).wf() == old(self).wf(),
    {
        self.length.set_enabled(e);
    }

    /// True while the length counter runs.
    pub fn playing(&self) -> (r: bool)
        ensures
            r == (self@.length.value > 0),
    {
        self.length.active()
    }

    /// Mixer input; see [`triangle_sample`].
    pub fn sample(&self) -> (r: u8)
        requires
            self.wf(),
        ensures
            r == triangle_sample(self@),
    {
        if self.length.active() && self.linear_counter > 0 && self.timer_period >= 2 {
            if self.step < 16 {
                15 - self.step
            } else {
                self.step - 16
            }
        } else {
            0
        }
    }
}

// ---------------------------------------------------------------------------
// Noise channel
// ---------------------------------------------------------------------------
/// Mathematical state of the noise channel.
pub ghost struct NoiseView {
    pub lfsr: u16,
    pub mode: bool,
    pub timer_period: u16,
    pub timer: u16,
    pub envelope: EnvelopeView,
    pub length: LengthCounterView,
}

/// The noise timer periods, indexed by the low nibble of the third
/// register write.
pub open spec fn spec_noise_period(index: u8) -> u16 {
    if index == 0 {
        4
    } else if index == 1 {
        8
    } else if index == 2 {
        16
    } else if index == 3 {
        32
    } else if index == 4 {
        64
    } else if index == 5 {
        96
    } else if index == 6 {
        128
    } else if index == 7 {
        160
    } else if index == 8 {
        202
    } else if index == 9 {
        254
    } else if index == 10 {
        380
    } else if index == 11 {
        508
    } else if index == 12 {
        762
    } else if index == 13 {
        1016
    } else if index == 14 {
        2034
    } else {
        4068
    }
}

/// Exec counterpart of [`spec_noise_period`].
#[verifier::when_used_as_spec(spec_noise_period)]
pub fn noise_period(index: u8) -> (r: u16)
    ensures
        r == spec_noise_period(index),
{
    if index == 0 {
        4
    } else if index == 1 {
        8
    } else if index == 2 {
        16
    } else if index == 3 {
        32
    } else if index == 4 {
        64
    } else if index == 5 {
        96
    } else if index == 6 {
        128
    } else if index == 7 {
        160
    } else if index == 8 {
        202
    } else if index == 9 {
        254
    } else if index == 10 {
        380
    } else if index == 11 {
        508
    } else if index == 12 {
        762
    } else if index == 13 {
        1016
    } else if index == 14 {
        2034
    } else {
        4068
    }
}

/// One step of the 15-bit feedback register: the tap is bit 6 in mode 1,
/// bit 1 in mode 0.
pub open spec fn lfsr_step(lfsr: u16, mode: bool) -> u16 {
    let tap = if mode {
        (lfsr >> 6) & 1
    } else {
        (lfsr >> 1) & 1
    };
    let feedback = (lfsr & 1) ^ tap;
    (lfsr >> 1) | (feedback << 14)
}

/// State after one sequencer clock (every other CPU cycle): the timer
/// counts down and, on expiry, reloads and steps the feedback register.
pub open spec fn noise_tick_sequencer(n: NoiseView) -> NoiseView {
    if n.timer == 0 {
        NoiseView { timer: n.timer_period, lfsr: lfsr_step(n.lfsr, n.mode), ..n }
    } else {
        NoiseView { timer: (n.timer - 1) as u16, ..n }
    }
}

/// State after a register write (`reg` is the address modulo 4).
pub open spec fn noise_write(n: NoiseView, reg: u16, value: u8) -> NoiseView {
    if reg == 0 {
        NoiseView {
            envelope: envelope_write(n.envelope, value),
            length: LengthCounterView { halt: value & 0x20 != 0, ..n.length },
            ..n
        }
    } else if reg == 2 {
        NoiseView {
            mode: value & 0x80 != 0,
            timer_period: spec_noise_period(value & 0x0F),
            ..n
        }
    } else if reg == 3 {
        NoiseView {
            length: length_load(n.length, value),
            envelope: EnvelopeView { start: true, ..n.envelope },
            ..n
        }
    } else {
        n
    }
}

/// State after a quarter-frame clock: the envelope steps.
pub open spec fn noise_quarter(n: NoiseView) -> NoiseView {
    NoiseView { envelope: envelope_tick(n.envelope), ..n }
}

/// State after a half-frame clock: the length counter steps.
pub open spec fn noise_half(n: NoiseView) -> NoiseView {
    NoiseView { length: length_half(n.length), ..n }
}

/// The channel's mixer input: the envelope volume while feedback bit 0 is
/// clear and the length counter runs.
pub open spec fn noise_sample(n: NoiseView) -> u8 {
    if n.lfsr & 1 == 0 && n.length.value > 0 {
        envelope_volume(n.envelope)
    } else {
        0
    }
}

/// The noise channel: a 15-bit linear-feedback shift register gated by an
/// envelope and a length counter.
pub struct NoiseChannel {
    lfsr: u16,
    mode: bool,
    timer_period: u16,
    timer: u16,
    envelope: Envelope,
    length: LengthCounter,
}

impl View for NoiseChannel {
    type V = NoiseView;

    closed spec fn view(&self) -> NoiseView {
        NoiseView {
            lfsr: self.lfsr,
            mode: self.mode,
            timer_period: self.timer_period,
            timer: self.timer,
            envelope: self.envelope@,
            length: self.length@,
        }
    }
}

impl NoiseChannel {
    pub fn new() -> (r: NoiseChannel)
        ensures
            r@ == noise_initial(),
    {
        NoiseChannel {
            lfsr: 1,
            mode: false,
            timer_period: 4,
            timer: 0,
            envelope: Envelope::new(),
            length: LengthCounter::new(),
        }
    }

    /// Register write; see [`noise_write`].
    pub fn write_register(&mut self, address: u16, value: u8)
        ensures
            final(self)@ == noise_write(old(self)@, address & 0x03, value),
    {
        let reg = address & 0x03;
        proof {
            assert(address & 0x03 <= 3) by (bit_vector);
        }
        if reg == 0 {
            self.length.set_halt(value & 0x20 != 0);
            self.envelope.write_register(value);
        } else if reg == 2 {
            self.mode = value & 0x80 != 0;
            self.timer_period = noise_period(value & 0x0F);
        } else if reg == 3 {
            self.length.load(value);
            self.envelope.start();
        }
    }

    /// Sequencer clock; see [`noise_tick_sequencer`].
    pub fn tick_sequencer(&mut self)
        ensures
            final(self)@ == noise_tick_sequencer(old(self)@),
    {
        if self.timer == 0 {
            self.timer = self.timer_period;
            let tap: u16 = if self.mode {
                (self.lfsr >> 6) & 1
            } else {
                (self.lfsr >> 1) & 1
            };
            let feedback: u16 = (self.lfsr & 1) ^ tap;
            proof {
                lemma_lfsr_shift_bounds(self.lfsr, feedback);
            }
            self.lfsr = (self.lfsr >> 1) | (feedback << 14);
        } else {
            self.timer = self.timer - 1;
        }
    }

    /// Quarter-frame clock; see [`noise_quarter`].
    pub fn tick_quarter_frame(&mut self)
        ensures
            final(self)@ == noise_quarter(old(self)@),
    {
        self.envelope.tick();
    }

    /// Half-frame clock; see [`noise_half`].
    pub fn tick_half_frame(&mut self)
        ensures
            final(self)@ == noise_half(old(self)@),
    {
        self.length.tick_half();
    }

    /// Applies a pending length-counter load; see [`length_flush`].
    pub fn update_pending_length_counter(&mut self)
        ensures
            final(self)@ == (NoiseView { length: length_flush(old(self)@.length), ..old(self)@ }),
    {
        self.length.flush_pending();
    }

    /// Enables or disables the channel; see [`length_set_enabled`].
    pub fn set_enabled(&mut self, e: bool)
        ensures
            final(self)@ == (NoiseView {
                length: length_set_enabled(old(self)@.length, e),
                ..old(self)@
            }),
    {
        self.length.set_enabled(e);
    }

    /// True while the length counter runs.
    pub fn playing(&self) -> (r: bool)
        ensures
            r == (self@.length.value > 0),
    {
        self.length.active()
    }

    /// Mixer input; see [`noise_sample`].
    pub fn sample(&self) -> (r: u8)
        ensures
            r == noise_sample(self@),
    {
        if self.lfsr & 1 == 0 && self.length.active() {
            self.envelope.volume()
        } else {
            0
        }
    }
}

/// The left operand keeps bit 15 clear, so the shift never overflows.
proof fn lemma_lfsr_shift_bounds(lfsr: u16, feedback: u16)
    ensures
        (lfsr >> 1) | (feedback << 14) == ((lfsr >> 1) | (feedback << 14)) as u16,
{
}

// ---------------------------------------------------------------------------
// Delta modulation channel
// ---------------------------------------------------------------------------
/// Mathematical state of the delta modulation channel.
pub ghost struct DmcView {
    pub irq_flag: bool,
    pub irq_enabled: bool,
    pub loop_flag: bool,
    pub rate_period: u16,
    pub timer: u16,
    pub output_level: u8,
    pub sample_address: u16,
    pub sample_length: u16,
    pub bytes_remaining: u16,
    pub bits_remaining: u8,
}

/// The DMC timer periods, indexed by the low nibble of its first register.
pub open spec fn spec_dmc_rate(index: u8) -> u16 {
    if index == 0 {
        428
    } else if index == 1 {
        380
    } else if index == 2 {
        340
    } else if index == 3 {
        320
    } else if index == 4 {
        286
    } else if index == 5 {
        254
    } else if index == 6 {
        226
    } else if index == 7 {
        214
    } else if index == 8 {
        190
    } else if index == 9 {
        160
    } else if index == 10 {
        142
    } else if index == 11 {
        128
    } else if index == 12 {
        106
    } else if index == 13 {
        84
    } else if index == 14 {
        72
    } else {
        54
    }
}

/// Exec counterpart of [`spec_dmc_rate`].
#[verifier::when_used_as_spec(spec_dmc_rate)]
pub fn dmc_rate(index: u8) -> (r: u16)
    ensures
        r == spec_dmc_rate(index),
{
    if index == 0 {
        428
    } else if index == 1 {
        380
    } else if index == 2 {
        340
    } else if index == 3 {
        320
    } else if index == 4 {
        286
    } else if index == 5 {
        254
    } else if index == 6 {
        226
    } else if index == 7 {
        214
    } else if index == 8 {
        190
    } else if index == 9 {
        160
    } else if index == 10 {
        142
    } else if index == 11 {
        128
    } else if index == 12 {
        106
    } else if index == 13 {
        84
    } else if index == 14 {
        72
    } else {
        54
    }
}

/// State after one sequencer clock: the timer counts down; on expiry the
/// channel consumes one sample bit, and on the last bit of the last byte
/// either loops or, when the IRQ is enabled, raises it.
pub open spec fn dmc_tick_sequencer(d: DmcView) -> DmcView {
    if d.timer > 0 {
        DmcView { timer: (d.timer - 1) as u16, ..d }
    } else if d.bytes_remaining == 0 {
        DmcView { timer: d.rate_period, ..d }
    } else if d.bits_remaining > 1 {
        DmcView { timer: d.rate_period, bits_remaining: (d.bits_remaining - 1) as u8, ..d }
    } else if d.bytes_remaining > 1 {
        DmcView {
            timer: d.rate_period,
            bits_remaining: 8,
            bytes_remaining: (d.bytes_remaining - 1) as u16,
            ..d
        }
    } else if d.loop_flag {
        DmcView {
            timer: d.rate_period,
            bits_remaining: 8,
            bytes_remaining: d.sample_length,
            ..d
        }
    } else {
        DmcView {
            timer: d.rate_period,
            bits_remaining: 8,
            bytes_remaining: 0,
            irq_flag: d.irq_flag || d.irq_enabled,
            ..d
        }
    }
}

/// State after a register write (`reg` is the address modulo 4).
pub open spec fn dmc_write(d: DmcView, reg: u16, value: u8) -> DmcView {
    if reg == 0 {
        DmcView {
            irq_enabled: value & 0x80 != 0,
            irq_flag: d.irq_flag && value & 0x80 != 0,
            loop_flag: value & 0x40 != 0,
            rate_period: spec_dmc_rate(value & 0x0F),
            ..d
        }
    } else if reg == 1 {
        DmcView { output_level: value & 0x7F, ..d }
    } else if reg == 2 {
        DmcView { sample_address: (0xC000 + (value as u16) * 64) as u16, ..d }
    } else {
        DmcView { sample_length: ((value as u16) * 16 + 1) as u16, ..d }
    }
}

/// State after an enable write: disabling stops playback, enabling an idle
/// channel restarts the programmed sample; either clears the IRQ.
pub open spec fn dmc_set_enabled(d: DmcView, e: bool) -> DmcView {
    if !e {
        DmcView { bytes_remaining: 0, irq_flag: false, ..d }
    } else if d.bytes_remaining == 0 {
        DmcView { bytes_remaining: d.sample_length, bits_remaining: 8, irq_flag: false, ..d }
    } else {
        DmcView { irq_flag: false, ..d }
    }
}

/// The delta modulation channel. Sample fetches from PRG are not wired
/// through this layer: the channel keeps exact address, length and bit
/// bookkeeping, and its 7-bit output level moves only by direct loads.
pub struct DmcChannel {
    pub irq_flag: bool,
    pub irq_enabled: bool,
    pub loop_flag: bool,
    pub rate_period: u16,
    pub timer: u16,
    pub output_level: u8,
    pub sample_address: u16,
    pub sample_length: u16,
    pub bytes_remaining: u16,
    pub bits_remaining: u8,
}

impl View for DmcChannel {
    type V = DmcView;

    open spec fn view(&self) -> DmcView {
        DmcView {
            irq_flag: self.irq_flag,
            irq_enabled: self.irq_enabled,
            loop_flag: self.loop_flag,
            rate_period: self.rate_period,
            timer: self.timer,
            output_level: self.output_level,
            sample_address: self.sample_address,
            sample_length: self.sample_length,
            bytes_remaining: self.bytes_remaining,
            bits_remaining: self.bits_remaining,
        }
    }
}

impl DmcChannel {
    pub fn new() -> (r: DmcChannel)
        ensures
            r@ == dmc_initial(),
    {
        DmcChannel {
            irq_flag: false,
            irq_enabled: false,
            loop_flag: false,
            rate_period: 428,
            timer: 0,
            output_level: 0,
            sample_address: 0xC000,
            sample_length: 1,
            bytes_remaining: 0,
            bits_remaining: 8,
        }
    }

    /// Register write; see [`dmc_write`].
    pub fn write_register(&mut self, address: u16, value: u8)
        ensures
            final(self)@ == dmc_write(old(self)@, address & 0x03, value),
    {
        let reg = address & 0x03;
        proof {
            assert(address & 0x03 <= 3) by (bit_vector);
        }
        if reg == 0 {
            self.irq_enabled = value & 0x80 != 0;
            if value & 0x80 == 0 {
                self.irq_flag = false;
            }
            self.loop_flag = value & 0x40 != 0;
            self.rate_period = dmc_rate(value & 0x0F);
        } else if reg == 1 {
            self.output_level = value & 0x7F;
        } else if reg == 2 {
            self.sample_address = 0xC000 + (value as u16) * 64;
        } else {
            self.sample_length = (value as u16) * 16 + 1;
        }
    }

    /// Sequencer clock; see [`dmc_tick_sequencer`].
    pub fn tick_sequencer(&mut self)
        ensures
            final(self)@ == dmc_tick_sequencer(old(self)@),
    {
        if self.timer > 0 {
            self.timer = self.timer - 1;
        } else if self.bytes_remaining == 0 {
            self.timer = self.rate_period;
        } else if self.bits_remaining > 1 {
            self.timer = self.rate_period;
            self.bits_remaining = self.bits_remaining - 1;
        } else if self.bytes_remaining > 1 {
            self.timer = self.rate_period;
            self.bits_remaining = 8;
            self.bytes_remaining = self.bytes_remaining - 1;
        } else if self.loop_flag {
            self.timer = self.rate_period;
            self.bits_remaining = 8;
            self.bytes_remaining = self.sample_length;
        } else {
            self.timer = self.rate_period;
            self.bits_remaining = 8;
            self.bytes_remaining = 0;
            if self.irq_enabled {
                self.irq_flag = true;
            }
        }
    }

    /// Enable write; see [`dmc_set_enabled`].
    pub fn set_enabled(&mut self, e: bool)
        ensures
            final(self)@ == dmc_set_enabled(old(self)@, e),
    {
        if !e {
            self.bytes_remaining = 0;
        } else if self.bytes_remaining == 0 {
            self.bytes_remaining = self.sample_length;
            self.bits_remaining = 8;
        }
        self.irq_flag = false;
    }

    /// True while sample bytes remain.
    pub fn playing(&self) -> (r: bool)
        ensures
            r == (self@.bytes_remaining > 0),
    {
        self.bytes_remaining > 0
    }

    /// Mixer input: the 7-bit output level.
    pub fn sample(&self) -> (r: u8)
        ensures
            r == self@.output_level,
    {
        self.output_level
    }
}


/// The state a fresh envelope starts in.
pub open spec fn envelope_initial() -> EnvelopeView {
    EnvelopeView {
        constant_level: 0u8,
        decay_period: 0u8,
        constant: false,
        looping: false,
        counter: 0u8,
        level: 0u8,
        start: false,
    }
}

/// The state a fresh length counter starts in.
pub open spec fn length_initial() -> LengthCounterView {
    LengthCounterView {
        value: 0u8,
        halt: false,
        pending: None::<u8>,
        enabled: false,
    }
}

/// The state a fresh sweep unit starts in.
pub open spec fn sweep_initial(mode: SweepNegationMode) -> SweepView {
    SweepView {
        enabled: false,
        period: 0u8,
        negate: false,
        shift: 0u8,
        counter: 0u8,
        reload: false,
        mode: mode,
    }
}

/// The state a fresh pulse channel starts in.
pub open spec fn pulse_initial(mode: SweepNegationMode) -> PulseView {
    PulseView {
        duty: 0u8,
        step: 0u8,
        timer_period: 0u16,
        timer: 0u16,
        envelope: envelope_initial(),
        sweep: sweep_initial(mode),
        length: length_initial(),
    }
}

/// The state a fresh triangle channel starts in.
pub open spec fn triangle_initial() -> TriangleView {
    TriangleView {
        step: 0u8,
        timer_period: 0u16,
        timer: 0u16,
        linear_reload_value: 0u8,
        linear_counter: 0u8,
        linear_reload_flag: false,
        control: false,
        length: length_initial(),
    }
}

/// The state a fresh noise channel starts in.
pub open spec fn noise_initial() -> NoiseView {
    NoiseView {
        lfsr: 1u16,
        mode: false,
        timer_period: 4u16,
        timer: 0u16,
        envelope: envelope_initial(),
        length: length_initial(),
    }
}

/// The state a fresh delta modulation channel starts in.
pub open spec fn dmc_initial() -> DmcView {
    DmcView {
        irq_flag: false,
        irq_enabled: false,
        loop_flag: false,
        rate_period: 428u16,
        timer: 0u16,
        output_level: 0u8,
        sample_address: 0xC000u16,
        sample_length: 1u16,
        bytes_remaining: 0u16,
        bits_remaining: 8u8,
    }
}

} // verus!
