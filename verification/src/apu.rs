//! The audio processing unit: two pulse channels, the frame sequencer,
//! and sample emission at a fixed rate.
//!
//! CPU and APU cycles are treated as equivalent, so the frame-sequencer
//! step numbers are the doubled ones. A channel's contribution to a
//! sample is its 4-bit volume; turning volumes into the mixed analogue
//! level is the host's affair. The fractional progress between emitted
//! samples is kept in fixed point with denominator `STEP_DEN`
//! (= 2 * SAMPLES_PER_FRAME), which represents the sample period
//! CLOCKS_PER_FRAME / SAMPLES_PER_FRAME / 2 - 1 exactly.

use vstd::prelude::*;

verus! {

/// Master-clock ticks per video frame.
pub const CLOCKS_PER_FRAME: u32 = 29781;

/// Audio samples owed per video frame.
pub const SAMPLES_PER_FRAME: u32 = 735;

/// Fixed-point denominator for the sample clock.
pub const STEP_DEN: i32 = 2 * 735;

/// Fixed-point numerator of the sample period: the period is
/// 29781 / (2 * 735) - 1 sample-clock steps, i.e. STEP_NUM / STEP_DEN.
pub const STEP_NUM: i32 = 29781 - 2 * 735;

/// The envelope generator: a decaying 4-bit volume, or a constant one.
#[derive(Clone, Copy, Debug, PartialEq, Eq, Structural)]
pub struct Envelope {
    /// Restart the decay instead of going silent (also halts the
    /// length counter on the real part; kept separately here).
    pub loop_flag: bool,
    /// Use `param` directly as the volume instead of the decay level.
    pub constant: bool,
    /// Volume when constant, divider period otherwise (4 bits).
    pub param: u8,
    /// Set by a length-load write; consumed on the next envelope clock.
    pub start: bool,
    /// Divider counting envelope clocks down from `param`.
    pub divider: u8,
    /// Current decay level, 15 down to 0.
    pub decay: u8,
}

/// The length counter: silences the channel when it reaches zero.
#[derive(Clone, Copy, Debug, PartialEq, Eq, Structural)]
pub struct LengthCounter {
    pub halt: bool,
    pub length: u8,
}

/// The sweep unit's register fields. This core stores them but does not
/// clock the sweep yet; the frame sequencer has its structural place.
#[derive(Clone, Copy, Debug, PartialEq, Eq, Structural)]
pub struct Sweep {
    pub enabled: bool,
    pub period: u8,
    pub negate: bool,
    pub shift: u8,
}

/// One pulse-wave channel.
#[derive(Clone, Copy, Debug, PartialEq, Eq, Structural)]
pub struct Pulse {
    /// Duty-cycle selector, 0..=3.
    pub duty: u8,
    /// Position in the 8-step duty sequence.
    pub duty_phase: u8,
    /// 11-bit timer period.
    pub timer_period: u16,
    /// Timer countdown; stepping the waveform when it reaches zero.
    pub timer: u16,
    pub envelope: Envelope,
    pub length_counter: LengthCounter,
    pub sweep: Sweep,
}

/// One emitted sample: the two pulse channels' 4-bit volumes at the
/// moment of emission (0 for a silent or disabled channel).
#[derive(Clone, Copy, Debug, PartialEq, Eq, Structural)]
pub struct Sample {
    pub pulse1: u8,
    pub pulse2: u8,
}

/// The APU's mathematical state.
#[verifier::ext_equal]
pub ghost struct ApuM {
    pub cycle: u16,
    pub sample_step: i32,
    pub samples: Seq<Sample>,
    pub pulse1: Pulse,
    pub pulse2: Pulse,
    pub enabled: u8,
    pub frame_counter: u8,
}

/// The audio processing unit.
pub struct Apu {
    /// Position in the frame-sequencer cycle.
    pub cycle: u16,
    /// Fixed-point progress to the next sample, scaled by `STEP_DEN`.
    pub sample_step: i32,
    /// Samples of the frame under construction.
    pub samples: Vec<Sample>,
    pub pulse1: Pulse,
    pub pulse2: Pulse,
    /// Channel-enable mask, bit 0 pulse 1 through bit 4 DMC.
    pub enabled: u8,
    /// Frame-counter mode byte: bit 7 five-step, bit 6 IRQ inhibit.
    pub frame_counter: u8,
}

impl View for Apu {
    type V = ApuM;

    open spec fn view(&self) -> ApuM {
        ApuM {
            cycle: self.cycle,
            sample_step: self.sample_step,
            samples: self.samples@,
            pulse1: self.pulse1,
            pulse2: self.pulse2,
            enabled: self.enabled,
            frame_counter: self.frame_counter,
        }
    }
}

impl ApuM {
    /// The sample clock stays within one decrement below zero and one
    /// period above.
    pub open spec fn wf(self) -> bool {
        -STEP_DEN < self.sample_step <= STEP_NUM
    }
}

/// Length-counter load values, indexed by the 5-bit field of a
/// length-load write (the hardware's fixed table).
#[verifier::opaque]
pub open spec fn spec_length_value(idx: u8) -> u8 {
    match idx & 0x1F {
        0x00 => 10,
        0x01 => 254,
        0x02 => 20,
        0x03 => 2,
        0x04 => 40,
        0x05 => 4,
        0x06 => 80,
        0x07 => 6,
        0x08 => 160,
        0x09 => 8,
        0x0A => 60,
        0x0B => 10,
        0x0C => 14,
        0x0D => 12,
        0x0E => 26,
        0x0F => 14,
        0x10 => 12,
        0x11 => 16,
        0x12 => 24,
        0x13 => 18,
        0x14 => 48,
        0x15 => 20,
        0x16 => 96,
        0x17 => 22,
        0x18 => 192,
        0x19 => 24,
        0x1A => 72,
        0x1B => 26,
        0x1C => 16,
        0x1D => 28,
        0x1E => 32,
        _ => 30,
    }
}

/// Executable counterpart of `spec_length_value`.
pub fn length_value(idx: u8) -> (r: u8)
    ensures
        r == spec_length_value(idx),
{
    proof {
        reveal(spec_length_value);
    }
    match idx & 0x1F {
        0x00 => 10,
        0x01 => 254,
        0x02 => 20,
        0x03 => 2,
        0x04 => 40,
        0x05 => 4,
        0x06 => 80,
        0x07 => 6,
        0x08 => 160,
        0x09 => 8,
        0x0A => 60,
        0x0B => 10,
        0x0C => 14,
        0x0D => 12,
        0x0E => 26,
        0x0F => 14,
        0x10 => 12,
        0x11 => 16,
        0x12 => 24,
        0x13 => 18,
        0x14 => 48,
        0x15 => 20,
        0x16 => 96,
        0x17 => 22,
        0x18 => 192,
        0x19 => 24,
        0x1A => 72,
        0x1B => 26,
        0x1C => 16,
        0x1D => 28,
        0x1E => 32,
        _ => 30,
    }
}

/// Whether the duty sequence outputs a high level at this phase.
pub open spec fn spec_duty_high(duty: u8, phase: u8) -> bool {
    let p = phase & 0x07;
    match duty & 0x03 {
        0 => p == 1,
        1 => p == 1 || p == 2,
        2 => 1 <= p <= 4,
        _ => !(p == 1 || p == 2),
    }
}

/// The envelope after one quarter-frame clock.
pub open spec fn spec_envelope_tick(e: Envelope) -> Envelope {
    if e.start {
        Envelope { start: false, decay: 15, divider: e.param, ..e }
    } else if e.divider == 0 {
        Envelope {
            divider: e.param,
            decay: if e.decay > 0 {
                (e.decay - 1) as u8
            } else if e.loop_flag {
                15u8
            } else {
                0u8
            },
            ..e
        }
    } else {
        Envelope { divider: (e.divider - 1) as u8, ..e }
    }
}

/// The length counter after one half-frame clock.
pub open spec fn spec_length_tick(l: LengthCounter) -> LengthCounter {
    if !l.halt && l.length > 0 {
        LengthCounter { length: (l.length - 1) as u8, ..l }
    } else {
        l
    }
}

/// The pulse channel after one timer clock.
pub open spec fn spec_pulse_tick(p: Pulse) -> Pulse {
    if p.timer == 0 {
        Pulse { timer: p.timer_period, duty_phase: crate::common::wadd8(p.duty_phase, 1) & 0x07, ..p }
    } else {
        Pulse { timer: (p.timer - 1) as u16, ..p }
    }
}

/// The channel's current output: None while the length counter is zero,
/// else the envelope volume where the duty sequence is high and 0 where
/// it is low.
pub open spec fn spec_pulse_sample(p: Pulse) -> Option<u8> {
    if p.length_counter.length == 0 {
        None
    } else if spec_duty_high(p.duty, p.duty_phase) {
        Some(
            if p.envelope.constant {
                p.envelope.param
            } else {
                p.envelope.decay
            },
        )
    } else {
        Some(0u8)
    }
}

/// A pulse channel after a write to one of its four registers
/// (`reg` is the address's low two bits).
pub open spec fn spec_pulse_set_register(p: Pulse, reg: u16, value: u8) -> Pulse {
    if reg == 0 {
        Pulse {
            duty: value >> 6,
            envelope: Envelope {
                loop_flag: value & 0x20 != 0,
                constant: value & 0x10 != 0,
                param: value & 0x0F,
                ..p.envelope
            },
            length_counter: LengthCounter { halt: value & 0x20 != 0, ..p.length_counter },
            ..p
        }
    } else if reg == 1 {
        Pulse {
            sweep: Sweep {
                enabled: value & 0x80 != 0,
                period: (value >> 4) & 0x07,
                negate: value & 0x08 != 0,
                shift: value & 0x07,
            },
            ..p
        }
    } else if reg == 2 {
        Pulse { timer_period: (p.timer_period & 0x0700) | (value as u16), ..p }
    } else {
        Pulse {
            timer_period: (p.timer_period & 0x00FF) | (((value & 0x07) as u16) << 8),
            length_counter: LengthCounter {
                length: spec_length_value(value >> 3),
                ..p.length_counter
            },
            envelope: Envelope { start: true, ..p.envelope },
            duty_phase: 0,
            ..p
        }
    }
}

/// The APU after a write to the channel-enable register: a cleared bit
/// forces the channel's length counter to zero.
pub open spec fn spec_set_enabled(a: ApuM, value: u8) -> ApuM {
    ApuM {
        enabled: value & 0x1F,
        pulse1: if value & 0x01 == 0 {
            Pulse {
                length_counter: LengthCounter { length: 0, ..a.pulse1.length_counter },
                ..a.pulse1
            }
        } else {
            a.pulse1
        },
        pulse2: if value & 0x02 == 0 {
            Pulse {
                length_counter: LengthCounter { length: 0, ..a.pulse2.length_counter },
                ..a.pulse2
            }
        } else {
            a.pulse2
        },
        ..a
    }
}

/// The APU after a register write. Registers this core does not
/// implement leave the state unchanged.
pub open spec fn spec_apu_set_register(a: ApuM, addr: u16, value: u8) -> ApuM {
    if 0x4000 <= addr <= 0x4003 {
        ApuM { pulse1: spec_pulse_set_register(a.pulse1, (addr - 0x4000) as u16, value), ..a }
    } else if 0x4004 <= addr <= 0x4007 {
        ApuM { pulse2: spec_pulse_set_register(a.pulse2, (addr - 0x4004) as u16, value), ..a }
    } else if addr == 0x4015 {
        spec_set_enabled(a, value)
    } else if addr == 0x4017 {
        ApuM { frame_counter: value & 0xC0, ..a }
    } else {
        a
    }
}

/// The sample the mixer sees right now: each enabled channel's current
/// volume, a disabled or silent channel contributing 0.
pub open spec fn spec_current_sample(a: ApuM) -> Sample {
    Sample {
        pulse1: if a.enabled & 0x01 != 0 {
            match spec_pulse_sample(a.pulse1) {
                Some(v) => v,
                None => 0,
            }
        } else {
            0
        },
        pulse2: if a.enabled & 0x02 != 0 {
            match spec_pulse_sample(a.pulse2) {
                Some(v) => v,
                None => 0,
            }
        } else {
            0
        },
    }
}

/// Both channels clocked by the frame sequencer: envelopes on every
/// quarter frame, length counters additionally on half frames.
pub open spec fn spec_clock_channels(a: ApuM, half_frame: bool) -> ApuM {
    let p1 = a.pulse1;
    let p2 = a.pulse2;
    let p1l = if half_frame {
        Pulse { length_counter: spec_length_tick(p1.length_counter), ..p1 }
    } else {
        p1
    };
    let p2l = if half_frame {
        Pulse { length_counter: spec_length_tick(p2.length_counter), ..p2 }
    } else {
        p2
    };
    ApuM {
        pulse1: Pulse { envelope: spec_envelope_tick(p1l.envelope), ..p1l },
        pulse2: Pulse { envelope: spec_envelope_tick(p2l.envelope), ..p2l },
        ..a
    }
}

/// The APU after one master-clock tick: pulse timers on even cycles,
/// the frame sequencer's quarter- and half-frame clocks at its step
/// numbers, then the sample clock on even cycles.
pub open spec fn spec_apu_tick(a0: ApuM) -> ApuM {
    let a1 = if a0.cycle & 1 == 0 {
        ApuM { pulse1: spec_pulse_tick(a0.pulse1), pulse2: spec_pulse_tick(a0.pulse2), ..a0 }
    } else {
        a0
    };
    let a2 = if a1.cycle == 7457 {
        spec_clock_channels(a1, false)
    } else if a1.cycle == 14913 {
        spec_clock_channels(a1, true)
    } else if a1.cycle == 22371 {
        spec_clock_channels(a1, false)
    } else if a1.cycle == 29829 {
        if a1.frame_counter & 0x80 == 0 {
            ApuM { cycle: 0, ..spec_clock_channels(a1, true) }
        } else {
            a1
        }
    } else if a1.cycle == 37281 {
        if a1.frame_counter & 0x80 != 0 {
            ApuM { cycle: 0, ..spec_clock_channels(a1, true) }
        } else {
            a1
        }
    } else {
        a1
    };
    let a3 = if a2.cycle & 1 == 0 {
        if a2.sample_step <= 0 {
            ApuM {
                samples: a2.samples.push(spec_current_sample(a2)),
                sample_step: (a2.sample_step + STEP_NUM) as i32,
                ..a2
            }
        } else {
            ApuM { sample_step: (a2.sample_step - STEP_DEN) as i32, ..a2 }
        }
    } else {
        a2
    };
    ApuM { cycle: vstd::wrapping::u16_specs::wrapping_add(a3.cycle, 1), ..a3 }
}

/// A pulse channel at power-up: everything zero.
pub open spec fn spec_pulse_power_up() -> Pulse {
    Pulse {
        duty: 0u8,
        duty_phase: 0u8,
        timer_period: 0u16,
        timer: 0u16,
        envelope: Envelope {
            loop_flag: false,
            constant: false,
            param: 0u8,
            start: false,
            divider: 0u8,
            decay: 0u8,
        },
        length_counter: LengthCounter { halt: false, length: 0u8 },
        sweep: Sweep { enabled: false, period: 0u8, negate: false, shift: 0u8 },
    }
}

impl Pulse {
    /// A channel at power-up: everything zero.
    pub fn power_up() -> (r: Pulse)
        ensures
            r == spec_pulse_power_up(),
    {
        Pulse {
            duty: 0,
            duty_phase: 0,
            timer_period: 0,
            timer: 0,
            envelope: Envelope {
                loop_flag: false,
                constant: false,
                param: 0,
                start: false,
                divider: 0,
                decay: 0,
            },
            length_counter: LengthCounter { halt: false, length: 0 },
            sweep: Sweep { enabled: false, period: 0, negate: false, shift: 0 },
        }
    }

    /// One timer clock.
    pub fn tick(&mut self)
        ensures
            *final(self) == spec_pulse_tick(*old(self)),
    {
        if self.timer == 0 {
            self.timer = self.timer_period;
            self.duty_phase = self.duty_phase.wrapping_add(1) & 0x07;
        } else {
            self.timer = self.timer - 1;
        }
    }

    /// The channel's current output volume, None while silenced.
    pub fn sample(&self) -> (r: Option<u8>)
        ensures
            r == spec_pulse_sample(*self),
    {
        if self.length_counter.length == 0 {
            return None;
        }
        let p = self.duty_phase & 0x07;
        let high = match self.duty & 0x03 {
            0 => p == 1,
            1 => p == 1 || p == 2,
            2 => 1 <= p && p <= 4,
            _ => !(p == 1 || p == 2),
        };
        if high {
            Some(
                if self.envelope.constant {
                    self.envelope.param
                } else {
                    self.envelope.decay
                },
            )
        } else {
            Some(0)
        }
    }

    /// A write to one of the channel's four registers; `reg` is the
    /// register address's low two bits.
    pub fn set_register(&mut self, reg: u16, value: u8)
        requires
            reg < 4,
        ensures
            *final(self) == spec_pulse_set_register(*old(self), reg, value),
    {
        if reg == 0 {
            self.duty = value >> 6;
            self.envelope.loop_flag = value & 0x20 != 0;
            self.envelope.constant = value & 0x10 != 0;
            self.envelope.param = value & 0x0F;
            self.length_counter.halt = value & 0x20 != 0;
        } else if reg == 1 {
            self.sweep = Sweep {
                enabled: value & 0x80 != 0,
                period: (value >> 4) & 0x07,
                negate: value & 0x08 != 0,
                shift: value & 0x07,
            };
        } else if reg == 2 {
            self.timer_period = (self.timer_period & 0x0700) | (value as u16);
        } else {
            self.timer_period = (self.timer_period & 0x00FF) | (((value & 0x07) as u16) << 8);
            self.length_counter.length = length_value(value >> 3);
            self.envelope.start = true;
            self.duty_phase = 0;
        }
    }
}

impl Envelope {
    /// One quarter-frame clock.
    pub fn tick(&mut self)
        ensures
            *final(self) == spec_envelope_tick(*old(self)),
    {
        if self.start {
            self.start = false;
            self.decay = 15;
            self.divider = self.param;
        } else if self.divider == 0 {
            self.divider = self.param;
            if self.decay > 0 {
                self.decay = self.decay - 1;
            } else if self.loop_flag {
                self.decay = 15;
            }
        } else {
            self.divider = self.divider - 1;
        }
    }
}

impl LengthCounter {
    /// One half-frame clock.
    pub fn tick(&mut self)
        ensures
            *final(self) == spec_length_tick(*old(self)),
    {
        if !self.halt && self.length > 0 {
            self.length = self.length - 1;
        }
    }
}

impl Apu {
    /// The APU at power-up: sequencer at step zero, all channels off.
    pub fn new() -> (r: Apu)
        ensures
            r@.wf(),
            r@.cycle == 0,
            r@.sample_step == 0,
            r@.samples == Seq::<Sample>::empty(),
            r@.enabled == 0,
            r@.frame_counter == 0,
            r@.pulse1 == spec_pulse_power_up(),
            r@.pulse2 == spec_pulse_power_up(),
    {
        Apu {
            cycle: 0,
            sample_step: 0,
            samples: Vec::new(),
            pulse1: Pulse::power_up(),
            pulse2: Pulse::power_up(),
            enabled: 0,
            frame_counter: 0,
        }
    }

    /// A write to one of the APU's registers (0x4000..=0x4017).
    /// Registers this core does not implement are ignored.
    pub fn set_register(&mut self, addr: u16, value: u8)
        ensures
            final(self)@ == spec_apu_set_register(old(self)@, addr, value),
    {
        if 0x4000 <= addr && addr <= 0x4003 {
            self.pulse1.set_register(addr - 0x4000, value);
        } else if 0x4004 <= addr && addr <= 0x4007 {
            self.pulse2.set_register(addr - 0x4004, value);
        } else if addr == 0x4015 {
            self.set_enabled_flags(value);
        } else if addr == 0x4017 {
            self.frame_counter = value & 0xC0;
        }
    }

    /// Writes the channel-enable mask; a cleared bit zeroes that
    /// channel's length counter.
    fn set_enabled_flags(&mut self, value: u8)
        ensures
            final(self)@ == spec_set_enabled(old(self)@, value),
    {
        self.enabled = value & 0x1F;
        if value & 0x01 == 0 {
            self.pulse1.length_counter.length = 0;
        }
        if value & 0x02 == 0 {
            self.pulse2.length_counter.length = 0;
        }
    }

    /// Appends the mixer's current sample.
    fn sample(&mut self)
        ensures
            final(self)@ == (ApuM {
                samples: old(self)@.samples.push(spec_current_sample(old(self)@)),
                ..old(self)@
            }),
    {
        let pulse1 = if self.enabled & 0x01 != 0 {
            match self.pulse1.sample() {
                Some(v) => v,
                None => 0,
            }
        } else {
            0
        };
        let pulse2 = if self.enabled & 0x02 != 0 {
            match self.pulse2.sample() {
                Some(v) => v,
                None => 0,
            }
        } else {
            0
        };
        self.samples.push(Sample { pulse1, pulse2 });
    }

    /// The samples accumulated so far this frame.
    pub fn samples(&self) -> (r: &Vec<Sample>)
        ensures
            r@ == self@.samples,
    {
        &self.samples
    }

    /// Hands the accumulated samples to the host and starts an empty
    /// frame; the host drains this once per video frame.
    pub fn take_samples(&mut self) -> (r: Vec<Sample>)
        ensures
            r@ == old(self)@.samples,
            final(self)@ == (ApuM { samples: Seq::<Sample>::empty(), ..old(self)@ }),
    {
        let r = self.samples.split_off(0);
        proof {
            assert(r@ =~= old(self)@.samples);
            assert(self@.samples =~= Seq::<Sample>::empty());
        }
        r
    }

    /// Quarter- or half-frame clock for both channels.
    fn clock_channels(&mut self, half_frame: bool)
        ensures
            final(self)@ == spec_clock_channels(old(self)@, half_frame),
    {
        if half_frame {
            self.pulse1.length_counter.tick();
            self.pulse2.length_counter.tick();
            // sweep units would be clocked here as well
        }
        self.pulse1.envelope.tick();
        self.pulse2.envelope.tick();
    }

    /// One master-clock tick.
    pub fn tick(&mut self)
        requires
            old(self)@.wf(),
        ensures
            final(self)@.wf(),
            final(self)@ == spec_apu_tick(old(self)@),
    {
        if self.cycle & 1 == 0 {
            self.pulse1.tick();
            self.pulse2.tick();
        }
        if self.cycle == 7457 {
            self.clock_channels(false);
        } else if self.cycle == 14913 {
            self.clock_channels(true);
        } else if self.cycle == 22371 {
            self.clock_channels(false);
        } else if self.cycle == 29828 {
            // four-step frame IRQ would be raised here when enabled;
            // structural placeholder only
        } else if self.cycle == 29829 {
            if self.frame_counter & 0x80 == 0 {
                self.clock_channels(true);
                self.cycle = 0;
            }
        } else if self.cycle == 37281 {
            if self.frame_counter & 0x80 != 0 {
                self.clock_channels(true);
                self.cycle = 0;
            }
        }
        if self.cycle & 1 == 0 {
            if self.sample_step <= 0 {
                self.sample();
                self.sample_step = self.sample_step + STEP_NUM;
            } else {
                self.sample_step = self.sample_step - STEP_DEN;
            }
        }
        self.cycle = self.cycle.wrapping_add(1);
    }
}

} // verus!
