//! One pulse (square-wave) channel of the audio unit: the four write-only
//! registers a game programs it through, and the sequencer that walks the
//! duty cycle.

use vstd::prelude::*;
use crate::divider::Divider;

verus! {

// ---------------------------------------------------------------------------
// Envelope register (first channel register): volume, duty and halt bits.
// ---------------------------------------------------------------------------

#[derive(Clone, Copy, Debug, PartialEq, Eq, Structural)]
pub struct PulseEnvelope {
    pub bits: u8,
}

impl PulseEnvelope {
    pub fn new() -> (r: PulseEnvelope)
        ensures
            r.bits == 0,
    {
        PulseEnvelope { bits: 0 }
    }

    pub fn update(&mut self, data: u8)
        ensures
            final(self).bits == data,
    {
        self.bits = data;
    }

    /// The constant-volume level in the low four bits.
    pub fn get_envelope_volume(&self) -> (v: u8)
        ensures
            v == self.bits & 0x0F,
    {
        self.bits & 0x0F
    }

    /// The duty-cycle selector in the top two bits.
    pub fn get_duty_cycle(&self) -> (d: u8)
        ensures
            d == (self.bits & 0xC0) >> 6,
    {
        (self.bits & 0xC0) >> 6
    }
}

// ---------------------------------------------------------------------------
// Length register (fourth channel register): length-counter load and the
// high three bits of the timer period.
// ---------------------------------------------------------------------------

#[derive(Clone, Copy, Debug, PartialEq, Eq, Structural)]
pub struct PulseLength {
    pub bits: u8,
}

impl PulseLength {
    pub fn new() -> (r: PulseLength)
        ensures
            r.bits == 0,
    {
        PulseLength { bits: 0 }
    }

    pub fn update(&mut self, data: u8)
        ensures
            final(self).bits == data,
    {
        self.bits = data;
    }

    /// The length-counter load value in the top five bits.
    pub fn read_length(&self) -> (v: u8)
        ensures
            v == (self.bits & 0xF8) >> 3,
    {
        (self.bits & 0xF8) >> 3
    }

    /// The high three bits of the timer period, already shifted into place.
    pub fn read_timer_high(&self) -> (v: u16)
        ensures
            v == ((self.bits & 0x07) as u16) << 8,
    {
        ((self.bits & 0x07) as u16) << 8
    }
}

// ---------------------------------------------------------------------------
// Timer register (third channel register): the low byte of the timer period.
// ---------------------------------------------------------------------------

#[derive(Clone, Copy, Debug, PartialEq, Eq, Structural)]
pub struct PulseTimer {
    pub timer_low: u8,
}

impl PulseTimer {
    pub fn new() -> (r: PulseTimer)
        ensures
            r.timer_low == 0,
    {
        PulseTimer { timer_low: 0 }
    }

    pub fn update(&mut self, data: u8)
        ensures
            final(self).timer_low == data,
    {
        self.timer_low = data;
    }

    pub fn read_timer_low(&self) -> (v: u8)
        ensures
            v == self.timer_low,
    {
        self.timer_low
    }
}

// ---------------------------------------------------------------------------
// Sequencer: a divider clocked from the CPU, stepping an eight-step wave.
// ---------------------------------------------------------------------------

#[derive(Clone, Copy, Debug, PartialEq, Eq, Structural)]
pub struct PulseSequencer {
    pub divider: u16,
    pub step: u8,
}

impl PulseSequencer {
    /// The wave position never leaves its eight steps.
    pub open spec fn wf(self) -> bool {
        self.step < 8
    }

    pub fn new() -> (r: PulseSequencer)
        ensures
            r == (PulseSequencer { divider: 0, step: 0 }),
            r.wf(),
    {
        PulseSequencer { divider: 0, step: 0 }
    }

    pub fn update_divider(&mut self, data: u16)
        ensures
            *final(self) == (PulseSequencer { divider: data, ..*old(self) }),
    {
        self.divider = data;
    }

    pub fn reset_step(&mut self)
        ensures
            *final(self) == (PulseSequencer { step: 0, ..*old(self) }),
            final(self).wf(),
    {
        self.step = 0;
    }

    pub fn get_divider(&self) -> (v: u16)
        ensures
            v == self.divider,
    {
        self.divider
    }

    pub fn get_sequence_step(&self) -> (v: u8)
        ensures
            v == self.step,
    {
        self.step
    }

    pub fn decrement_divider(&mut self)
        requires
            old(self).divider > 0,
        ensures
            *final(self) == (PulseSequencer {
                divider: (old(self).divider - 1) as u16,
                ..*old(self)
            }),
    {
        self.divider = self.divider - 1;
    }

    pub fn clock_sequence_step(&mut self)
        ensures
            *final(self) == (PulseSequencer {
                step: old(self).step.wrapping_add(1) % 8,
                ..*old(self)
            }),
            final(self).wf(),
    {
        self.step = self.step.wrapping_add(1) % 8;
    }
}

// ---------------------------------------------------------------------------
// Sweep unit (second channel register).
// ---------------------------------------------------------------------------

#[derive(Clone, Copy, Debug, PartialEq, Eq, Structural)]
pub struct PulseSweepRegister {
    pub bits: u8,
}

impl PulseSweepRegister {
    pub fn update(&mut self, data: u8)
        ensures
            final(self).bits == data,
    {
        self.bits = data;
    }
}

/// The period the sweep aims at: the current period shifted down by the
/// shift count, added to or subtracted from the period (subtracting one more
/// on the first channel, whose adder carries differently).
pub open spec fn spec_target_period(bits: u8, timer_period: u16, is_pulse_1: bool) -> u16 {
    let shift_count = bits & 0x07;
    let change_amount = timer_period >> shift_count as u16;
    if bits & 0x08 != 0 {
        timer_period.wrapping_sub(change_amount).wrapping_sub(if is_pulse_1 { 1 } else { 0 })
    } else {
        timer_period.wrapping_add(change_amount)
    }
}

#[derive(Clone, Copy, Debug, PartialEq, Eq, Structural)]
pub struct PulseSweep {
    pub register: PulseSweepRegister,
    pub divider: Divider,
    pub reload_flag: bool,
}

impl PulseSweep {
    pub fn new() -> (r: PulseSweep)
        ensures
            r == (PulseSweep {
                register: PulseSweepRegister { bits: 0 },
                divider: Divider { period_reload_val: 0, counter: 0 },
                reload_flag: false,
            }),
    {
        PulseSweep {
            register: PulseSweepRegister { bits: 0 },
            divider: Divider::new(),
            reload_flag: false,
        }
    }

    pub fn update(&mut self, data: u8)
        ensures
            *final(self) == (PulseSweep {
                register: PulseSweepRegister { bits: data },
                ..*old(self)
            }),
    {
        self.register.update(data);
    }

    pub fn calculate_target_period(&self, timer_period: u16, is_pulse_1: bool) -> (target: u16)
        ensures
            target == spec_target_period(self.register.bits, timer_period, is_pulse_1),
    {
        let shift_count = self.register.bits & 0x07;
        proof {
            crate::bitops::lemma_u8_and_le(self.register.bits, 0x07);
        }
        let change_amount = timer_period >> shift_count as u16;

        if self.register.bits & 0x08 != 0 {
            timer_period.wrapping_sub(change_amount).wrapping_sub(if is_pulse_1 { 1 } else { 0 })
        } else {
            timer_period.wrapping_add(change_amount)
        }
    }
}

// ---------------------------------------------------------------------------
// The assembled channel.
// ---------------------------------------------------------------------------

/// The eight-step waveform for each of the four duty settings: the level of
/// step `step` under duty `duty`.
pub open spec fn spec_duty_wave(duty: u8, step: u8) -> u8 {
    if duty == 0 {
        if step == 1 { 1 } else { 0 }
    } else if duty == 1 {
        if step == 1 || step == 2 { 1 } else { 0 }
    } else if duty == 2 {
        if 1 <= step && step <= 4 { 1 } else { 0 }
    } else {
        if step == 0 || step >= 3 { 1 } else { 0 }
    }
}

/// Level of the eight-step waveform `duty` at position `step`.
pub fn duty_wave(duty: u8, step: u8) -> (level: u8)
    requires
        duty < 4,
        step < 8,
    ensures
        level == spec_duty_wave(duty, step),
{
    if duty == 0 {
        if step == 1 { 1 } else { 0 }
    } else if duty == 1 {
        if step == 1 || step == 2 { 1 } else { 0 }
    } else if duty == 2 {
        if 1 <= step && step <= 4 { 1 } else { 0 }
    } else {
        if step == 0 || step >= 3 { 1 } else { 0 }
    }
}

#[derive(Clone, Copy, Debug, PartialEq, Eq, Structural)]
pub struct PulseRegister {
    pub envelope: PulseEnvelope,
    pub length: PulseLength,
    pub sweep: PulseSweep,
    pub timer: PulseTimer,
    pub sequencer: PulseSequencer,
    pub target_period: u16,
    pub sweep_reset: bool,
}

/// The eleven-bit timer period assembled from its two registers.
pub open spec fn spec_timer_val(p: PulseRegister) -> u16 {
    (((p.length.bits & 0x07) as u16) << 8) | (p.timer.timer_low as u16 & 0xFF)
}

/// State after one sequencer clock: a running divider counts down; a spent
/// one reloads from the timer period and advances the wave position.
pub open spec fn spec_clock_sequencer(p: PulseRegister) -> PulseRegister {
    if p.sequencer.divider > 0 {
        PulseRegister {
            sequencer: PulseSequencer {
                divider: (p.sequencer.divider - 1) as u16,
                ..p.sequencer
            },
            ..p
        }
    } else {
        PulseRegister {
            sequencer: PulseSequencer {
                divider: spec_timer_val(p),
                step: p.sequencer.step.wrapping_add(1) % 8,
            },
            ..p
        }
    }
}

/// The channel's current output level: silent when the length counter is
/// spent, the period is below eight, or the waveform is low; otherwise the
/// envelope volume.
pub open spec fn spec_pulse_output(p: PulseRegister) -> u8 {
    if (p.length.bits & 0xF8) >> 3 == 0
        || spec_timer_val(p) < 8
        || spec_duty_wave((p.envelope.bits & 0xC0) >> 6, p.sequencer.step) == 0 {
        0
    } else {
        p.envelope.bits & 0x0F
    }
}

impl PulseRegister {
    pub open spec fn wf(self) -> bool {
        self.sequencer.wf()
    }

    pub fn new() -> (r: PulseRegister)
        ensures
            r == (PulseRegister {
                envelope: PulseEnvelope { bits: 0 },
                length: PulseLength { bits: 0 },
                sweep: PulseSweep {
                    register: PulseSweepRegister { bits: 0 },
                    divider: Divider { period_reload_val: 0, counter: 0 },
                    reload_flag: false,
                },
                timer: PulseTimer { timer_low: 0 },
                sequencer: PulseSequencer { divider: 0, step: 0 },
                target_period: 0,
                sweep_reset: false,
            }),
            r.wf(),
    {
        PulseRegister {
            envelope: PulseEnvelope::new(),
            length: PulseLength::new(),
            sweep: PulseSweep::new(),
            timer: PulseTimer::new(),
            sequencer: PulseSequencer::new(),
            target_period: 0,
            sweep_reset: false,
        }
    }

    pub fn write_to_envelope(&mut self, data: u8)
        ensures
            *final(self) == (PulseRegister {
                envelope: PulseEnvelope { bits: data },
                ..*old(self)
            }),
    {
        self.envelope.update(data)
    }

    pub fn write_to_sweep(&mut self, data: u8)
        ensures
            *final(self) == (PulseRegister {
                sweep: PulseSweep {
                    register: PulseSweepRegister { bits: data },
                    ..old(self).sweep
                },
                ..*old(self)
            }),
    {
        self.sweep.update(data)
    }

    pub fn write_to_timer(&mut self, data: u8)
        ensures
            *final(self) == (PulseRegister {
                timer: PulseTimer { timer_low: data },
                ..*old(self)
            }),
    {
        self.timer.update(data)
    }

    pub fn write_to_length(&mut self, data: u8)
        ensures
            *final(self) == (PulseRegister {
                length: PulseLength { bits: data },
                ..*old(self)
            }),
    {
        self.length.update(data)
    }

    pub fn read_length_counter(&self) -> (v: u8)
        ensures
            v == (self.length.bits & 0xF8) >> 3,
    {
        self.length.read_length()
    }

    pub fn read_timer_val(&self) -> (v: u16)
        ensures
            v == spec_timer_val(*self),
    {
        self.length.read_timer_high() | ((self.timer.read_timer_low() as u16) & 0xFF)
    }

    /// Zero the length counter (and with it the timer's high bits).
    pub fn silence_channel(&mut self)
        ensures
            *final(self) == (PulseRegister {
                length: PulseLength { bits: 0 },
                ..*old(self)
            }),
    {
        self.write_to_length(0)
    }

    pub fn clock_sequencer(&mut self)
        ensures
            *final(self) == spec_clock_sequencer(*old(self)),
            old(self).wf() ==> final(self).wf(),
    {
        if self.sequencer.get_divider() > 0 {
            self.sequencer.decrement_divider();
        } else {
            let timer_val = self.read_timer_val();
            self.sequencer.update_divider(timer_val);
            self.sequencer.clock_sequence_step();
        }
    }

    pub fn get_output(&self) -> (level: u8)
        requires
            self.wf(),
        ensures
            level == spec_pulse_output(*self),
    {
        proof {
            let b = self.envelope.bits;
            assert(((b & 0xC0) >> 6) < 4) by (bit_vector);
        }
        if self.read_length_counter() == 0 || self.read_timer_val() < 8
            || duty_wave(self.envelope.get_duty_cycle(), self.sequencer.get_sequence_step()) == 0 {
            0
        } else {
            self.envelope.get_envelope_volume()
        }
    }
}

impl PulseRegister {
    /// The power-on channel state.
    pub open spec fn spec_initial() -> PulseRegister {
        PulseRegister {
            envelope: PulseEnvelope { bits: 0 },
            length: PulseLength { bits: 0 },
            sweep: PulseSweep {
                register: PulseSweepRegister { bits: 0 },
                divider: Divider { period_reload_val: 0, counter: 0 },
                reload_flag: false,
            },
            timer: PulseTimer { timer_low: 0 },
            sequencer: PulseSequencer { divider: 0, step: 0 },
            target_period: 0,
            sweep_reset: false,
        }
    }
}

} // verus!

