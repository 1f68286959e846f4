//! The audio processing unit, as seen from the CPU bus: two pulse channels,
//! the status register and the frame counter.  Waveform mixing is not this
//! crate's concern; the channels' digital output levels are exposed instead.

use vstd::prelude::*;
use crate::pulse::PulseRegister;
use crate::pulse::spec_clock_sequencer;
use crate::pulse::spec_pulse_output;

verus! {

// ---------------------------------------------------------------------------
// Status register (0x4015).
// ---------------------------------------------------------------------------

#[derive(Clone, Copy, Debug, PartialEq, Eq, Structural)]
pub struct APUStatus {
    pub bits: u8,
}

impl APUStatus {
    pub fn new() -> (r: APUStatus)
        ensures
            r.bits == 0,
    {
        APUStatus { bits: 0 }
    }

    pub fn update(&mut self, data: u8)
        ensures
            final(self).bits == data,
    {
        self.bits = data;
    }
}

// ---------------------------------------------------------------------------
// Frame counter (0x4017).
// ---------------------------------------------------------------------------

#[derive(Clone, Copy, Debug, PartialEq, Eq, Structural)]
pub struct FrameCounterByte {
    pub bits: u8,
}

impl FrameCounterByte {
    pub fn new() -> (r: FrameCounterByte)
        ensures
            r.bits == 0,
    {
        FrameCounterByte { bits: 0 }
    }

    pub fn update(&mut self, data: u8)
        ensures
            final(self).bits == data,
    {
        self.bits = data;
    }
}

#[derive(Clone, Copy, Debug, PartialEq, Eq, Structural)]
pub struct FrameCounter {
    pub data: FrameCounterByte,
    pub apu_cycles: u32,
}

/// Position in the frame sequence for an audio-cycle count: each step lasts
/// roughly a quarter frame.
pub open spec fn spec_sequence_step(apu_cycles: u32) -> u8 {
    if apu_cycles > 18640 {
        5
    } else if apu_cycles > 14914 {
        4
    } else if apu_cycles > 11185 {
        3
    } else if apu_cycles > 7456 {
        2
    } else {
        1
    }
}

impl FrameCounter {
    pub fn new() -> (r: FrameCounter)
        ensures
            r == (FrameCounter { data: FrameCounterByte { bits: 0 }, apu_cycles: 0 }),
    {
        FrameCounter { data: FrameCounterByte::new(), apu_cycles: 0 }
    }

    fn get_sequence_step(&self) -> (step: u8)
        requires
            self.apu_cycles > 3728,
        ensures
            step == spec_sequence_step(self.apu_cycles),
    {
        if self.apu_cycles > 18640 {
            5
        } else if self.apu_cycles > 14914 {
            4
        } else if self.apu_cycles > 11185 {
            3
        } else if self.apu_cycles > 7456 {
            2
        } else {
            1
        }
    }

    /// Walk the frame sequence once.  The envelope, length and sweep clocks
    /// the steps would distribute are not modelled, so the state is
    /// unchanged; the step must at least have begun (enough audio cycles).
    pub fn sequence(&mut self)
        requires
            old(self).apu_cycles > 3728,
        ensures
            *final(self) == *old(self),
    {
        if self.data.bits & 0x80 != 0 {
            self.sequence_mode_1()
        }
        self.sequence_mode_0()
    }

    fn sequence_mode_0(&mut self)
        requires
            old(self).apu_cycles > 3728,
        ensures
            *final(self) == *old(self),
    {
        let step = self.get_sequence_step();
        if step == 1 || step == 3 {
            // would clock envelopes
        } else if step == 2 || step == 4 {
            // would clock envelopes, length counters and sweeps
        }
    }

    fn sequence_mode_1(&mut self)
        requires
            old(self).apu_cycles > 3728,
        ensures
            *final(self) == *old(self),
    {
        let step = self.get_sequence_step();
        if step == 1 || step == 3 {
            // would clock envelopes
        } else if step == 2 || step == 5 {
            // would clock envelopes, length counters and sweeps
        }
    }
}

// ---------------------------------------------------------------------------
// The assembled unit.
// ---------------------------------------------------------------------------

#[derive(Clone, Copy, Debug, PartialEq, Eq, Structural)]
pub struct APU {
    pub pulse: PulseRegister,
    pub pulse_2: PulseRegister,
    pub status: APUStatus,
    pub cpu_cycles: u64,
    pub frame_counter: FrameCounter,
}

/// State after a write to the status register: the byte is latched, and each
/// pulse channel named by its low bit has its length counter zeroed.
pub open spec fn spec_apu_write_status(a: APU, data: u8) -> APU {
    let a1 = APU { status: APUStatus { bits: data }, ..a };
    let a2 = if data & 0x01 != 0 {
        APU {
            pulse: PulseRegister {
                length: crate::pulse::PulseLength { bits: 0 },
                ..a1.pulse
            },
            ..a1
        }
    } else {
        a1
    };
    if data & 0x02 != 0 {
        APU {
            pulse_2: PulseRegister {
                length: crate::pulse::PulseLength { bits: 0 },
                ..a2.pulse_2
            },
            ..a2
        }
    } else {
        a2
    }
}

/// The status read-back: one bit per pulse channel whose length counter is
/// still running.
pub open spec fn spec_apu_read_status(a: APU) -> u8 {
    let b0: u8 = 0;
    let b1: u8 = if (a.pulse.length.bits & 0xF8) >> 3 > 0 {
        b0 | 0x01
    } else {
        b0
    };
    if (a.pulse_2.length.bits & 0xF8) >> 3 > 0 {
        b1 | 0x02
    } else {
        b1
    }
}

/// State after one CPU cycle: the cycle counter steps, and on even counts
/// both pulse sequencers are clocked.
pub open spec fn spec_apu_step(a: APU) -> APU {
    let a1 = APU { cpu_cycles: a.cpu_cycles.wrapping_add(1), ..a };
    if a1.cpu_cycles % 2 == 0 {
        APU {
            pulse: spec_clock_sequencer(a1.pulse),
            pulse_2: spec_clock_sequencer(a1.pulse_2),
            ..a1
        }
    } else {
        a1
    }
}

/// State after `n` CPU cycles.
pub open spec fn spec_apu_tick(a: APU, n: nat) -> APU
    decreases n,
{
    if n == 0 {
        a
    } else {
        spec_apu_step(spec_apu_tick(a, (n - 1) as nat))
    }
}

/// The power-on state of the audio unit.
pub open spec fn spec_apu_initial() -> APU {
    APU {
        pulse: PulseRegister::spec_initial(),
        pulse_2: PulseRegister::spec_initial(),
        status: APUStatus { bits: 0 },
        cpu_cycles: 0,
        frame_counter: FrameCounter { data: FrameCounterByte { bits: 0 }, apu_cycles: 0 },
    }
}

impl APU {
    pub open spec fn wf(self) -> bool {
        self.pulse.wf() && self.pulse_2.wf()
    }

    pub fn new() -> (a: APU)
        ensures
            a == spec_apu_initial(),
            a.wf(),
    {
        APU {
            pulse: PulseRegister::new(),
            pulse_2: PulseRegister::new(),
            status: APUStatus::new(),
            cpu_cycles: 0,
            frame_counter: FrameCounter::new(),
        }
    }

    pub fn write_to_pulse_envelope(&mut self, data: u8)
        ensures
            *final(self) == (APU {
                pulse: PulseRegister {
                    envelope: crate::pulse::PulseEnvelope { bits: data },
                    ..old(self).pulse
                },
                ..*old(self)
            }),
    {
        self.pulse.write_to_envelope(data)
    }

    pub fn write_to_pulse_sweep(&mut self, data: u8)
        ensures
            *final(self) == (APU {
                pulse: PulseRegister {
                    sweep: crate::pulse::PulseSweep {
                        register: crate::pulse::PulseSweepRegister { bits: data },
                        ..old(self).pulse.sweep
                    },
                    ..old(self).pulse
                },
                ..*old(self)
            }),
    {
        self.pulse.write_to_sweep(data)
    }

    pub fn write_to_pulse_timer(&mut self, data: u8)
        ensures
            *final(self) == (APU {
                pulse: PulseRegister {
                    timer: crate::pulse::PulseTimer { timer_low: data },
                    ..old(self).pulse
                },
                ..*old(self)
            }),
    {
        self.pulse.write_to_timer(data)
    }

    pub fn write_to_pulse_length(&mut self, data: u8)
        ensures
            *final(self) == (APU {
                pulse: PulseRegister {
                    length: crate::pulse::PulseLength { bits: data },
                    ..old(self).pulse
                },
                ..*old(self)
            }),
    {
        self.pulse.write_to_length(data)
    }

    pub fn write_to_pulse_2_envelope(&mut self, data: u8)
        ensures
            *final(self) == (APU {
                pulse_2: PulseRegister {
                    envelope: crate::pulse::PulseEnvelope { bits: data },
                    ..old(self).pulse_2
                },
                ..*old(self)
            }),
    {
        self.pulse_2.write_to_envelope(data)
    }

    pub fn write_to_pulse_2_sweep(&mut self, data: u8)
        ensures
            *final(self) == (APU {
                pulse_2: PulseRegister {
                    sweep: crate::pulse::PulseSweep {
                        register: crate::pulse::PulseSweepRegister { bits: data },
                        ..old(self).pulse_2.sweep
                    },
                    ..old(self).pulse_2
                },
                ..*old(self)
            }),
    {
        self.pulse_2.write_to_sweep(data)
    }

    pub fn write_to_pulse_2_timer(&mut self, data: u8)
        ensures
            *final(self) == (APU {
                pulse_2: PulseRegister {
                    timer: crate::pulse::PulseTimer { timer_low: data },
                    ..old(self).pulse_2
                },
                ..*old(self)
            }),
    {
        self.pulse_2.write_to_timer(data)
    }

    pub fn write_to_pulse_2_length(&mut self, data: u8)
        ensures
            *final(self) == (APU {
                pulse_2: PulseRegister {
                    length: crate::pulse::PulseLength { bits: data },
                    ..old(self).pulse_2
                },
                ..*old(self)
            }),
    {
        self.pulse_2.write_to_length(data)
    }

    pub fn write_to_status(&mut self, data: u8)
        ensures
            *final(self) == spec_apu_write_status(*old(self), data),
    {
        let silence_pulse_1 = data & 0x01 != 0;
        let silence_pulse_2 = data & 0x02 != 0;

        self.status.update(data);

        if silence_pulse_1 {
            self.pulse.silence_channel();
        }

        if silence_pulse_2 {
            self.pulse_2.silence_channel();
        }
    }

    pub fn read_status(&self) -> (status: u8)
        ensures
            status == spec_apu_read_status(*self),
    {
        let mut status: u8 = 0;

        if self.pulse.read_length_counter() > 0 {
            status = status | 0x01;
        }

        if self.pulse_2.read_length_counter() > 0 {
            status = status | 0x02;
        }

        status
    }

    /// The two channels' current digital output levels.
    pub fn get_audio_sample(&self) -> (levels: (u8, u8))
        requires
            self.wf(),
        ensures
            levels.0 == spec_pulse_output(self.pulse),
            levels.1 == spec_pulse_output(self.pulse_2),
    {
        (self.pulse.get_output(), self.pulse_2.get_output())
    }

    fn clock_timers(&mut self)
        ensures
            *final(self) == if old(self).cpu_cycles % 2 == 0 {
                APU {
                    pulse: spec_clock_sequencer(old(self).pulse),
                    pulse_2: spec_clock_sequencer(old(self).pulse_2),
                    ..*old(self)
                }
            } else {
                *old(self)
            },
            old(self).wf() ==> final(self).wf(),
    {
        if self.cpu_cycles % 2 == 0 {
            self.pulse.clock_sequencer();
            self.pulse_2.clock_sequencer();
        }
    }

    /// Run the unit for `cycles` CPU cycles.
    pub fn tick(&mut self, cycles: u8)
        ensures
            *final(self) == spec_apu_tick(*old(self), cycles as nat),
            old(self).wf() ==> final(self).wf(),
    {
        let mut i: u8 = 0;
        while i < cycles
            invariant
                i <= cycles,
                *self == spec_apu_tick(*old(self), i as nat),
                old(self).wf() ==> self.wf(),
            decreases cycles - i,
        {
            self.cpu_cycles = self.cpu_cycles.wrapping_add(1);
            self.clock_timers();
            i = i + 1;
        }
    }
}

} // verus!
