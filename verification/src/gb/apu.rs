//! The Game Boy audio processing unit: four channels, their registers, and the
//! frame sequencer that clocks length counters, envelopes and the sweep.
//!
//! Samples are produced as integers: each channel contributes a level 0-15, a stereo
//! sample is the sum of the channels panned to a side times that side's master volume
//! (0-7). Dividing by `SAMPLE_SCALE` gives the level in 0.0-1.0.
use vstd::prelude::*;
use crate::bits::lemma_and_le_u8;

verus! {

/// CPU clock rate in Hz.
pub const CPU_CLOCK_HZ: u32 = 4194304;
/// Output sample rate in Hz.
pub const SAMPLE_RATE: u32 = 44100;
/// A stereo sample divided by this is the level in 0.0-1.0 (15 per channel, 4 channels, volume 7).
pub const SAMPLE_SCALE: u32 = 420;

/// A pulse (square wave) channel; channel 1 also has a frequency sweep.
#[derive(Debug, Clone, Copy, PartialEq, Eq, Structural)]
pub struct PulseChannel {
    pub enabled: bool,
    pub dac_enabled: bool,
    pub frequency: u16,
    pub timer: i32,
    pub duty: u8,
    pub duty_step: u8,
    pub length_counter: u16,
    pub length_enabled: bool,
    pub envelope_initial_volume: u8,
    pub envelope_volume: u8,
    pub envelope_direction: bool,
    pub envelope_period: u8,
    pub envelope_timer: u8,
    pub has_sweep: bool,
    pub sweep_period: u8,
    pub sweep_timer: u8,
    pub sweep_direction: bool,
    pub sweep_shift: u8,
    pub shadow_frequency: u16,
    pub sweep_enabled: bool,
}

/// The wave channel, which plays the 32 4-bit samples of wave RAM.
#[derive(Debug, Clone, Copy, PartialEq, Eq, Structural)]
pub struct WaveChannel {
    pub enabled: bool,
    pub dac_enabled: bool,
    pub frequency: u16,
    pub timer: i32,
    pub wave_index: u8,
    pub length_counter: u16,
    pub length_enabled: bool,
    pub volume_shift: u8,
}

/// The noise channel, driven by a linear feedback shift register.
#[derive(Debug, Clone, Copy, PartialEq, Eq, Structural)]
pub struct NoiseChannel {
    pub enabled: bool,
    pub dac_enabled: bool,
    pub timer: i32,
    pub lfsr: u16,
    pub lfsr_7bit: bool,
    pub length_counter: u16,
    pub length_enabled: bool,
    pub envelope_initial_volume: u8,
    pub envelope_volume: u8,
    pub envelope_direction: bool,
    pub envelope_period: u8,
    pub envelope_timer: u8,
    pub dividing_ratio: u8,
    pub shift_clock_frequency: u8,
}

/// How often a timer at `t` must be reloaded by `step` until it is above zero.
pub open spec fn reloads(t: int, step: int) -> int {
    if t > 0 {
        0
    } else {
        (-t) / step + 1
    }
}

/// While the timer is at or below zero, fewer reloads than needed have been made.
pub proof fn lemma_reload_step(t0: int, step: int, k: int)
    requires
        step > 0,
        k >= 0,
        t0 + k * step <= 0,
    ensures
        k + 1 <= reloads(t0, step),
{
    assert(t0 <= 0) by (nonlinear_arith)
        requires
            step > 0,
            k >= 0,
            t0 + k * step <= 0,
    ;
    assert(k * step <= -t0);
    assert(k <= (-t0) / step) by (nonlinear_arith)
        requires
            step > 0,
            k >= 0,
            k * step <= -t0,
    ;
}

/// Once the timer is above zero, exactly the needed reloads have been made.
pub proof fn lemma_reload_done(t0: int, step: int, k: int)
    requires
        step > 0,
        k >= 0,
        t0 + k * step > 0,
        k > 0 ==> t0 + (k - 1) * step <= 0,
    ensures
        k == reloads(t0, step),
{
    if k > 0 {
        assert(k - 1 <= (-t0) / step && (-t0) / step < k) by (nonlinear_arith)
            requires
                step > 0,
                k > 0,
                t0 + k * step > 0,
                t0 + (k - 1) * step <= 0,
        ;
    } else {
        assert(t0 > 0);
    }
}

/// The 8-step duty pattern of duty setting `duty`, as a bit at `step`.
pub open spec fn duty_bit(duty: u8, step: u8) -> bool {
    let pattern: u8 = if duty == 0 {
        0x01
    } else if duty == 1 {
        0x81
    } else if duty == 2 {
        0x87
    } else {
        0x7E
    };
    (pattern >> (7 - step) as u8) & 1 == 1
}

impl PulseChannel {
    /// Register fields stay within their bit widths.
    pub open spec fn wf(self) -> bool {
        &&& self.duty <= 3
        &&& self.duty_step < 8
        &&& self.frequency <= 0x7FF
        &&& self.shadow_frequency <= 0x7FF
        &&& self.envelope_initial_volume <= 15
        &&& self.envelope_volume <= 15
        &&& self.envelope_period <= 7
        &&& self.sweep_period <= 7
        &&& self.sweep_shift <= 7
        &&& self.length_counter <= 64
    }

    pub open spec fn spec_new(has_sweep: bool) -> PulseChannel {
        PulseChannel {
            enabled: false,
            dac_enabled: false,
            frequency: 0,
            timer: 0,
            duty: 0,
            duty_step: 0,
            length_counter: 0,
            length_enabled: false,
            envelope_initial_volume: 0,
            envelope_volume: 0,
            envelope_direction: false,
            envelope_period: 0,
            envelope_timer: 0,
            has_sweep,
            sweep_period: 0,
            sweep_timer: 0,
            sweep_direction: false,
            sweep_shift: 0,
            shadow_frequency: 0,
            sweep_enabled: false,
        }
    }

    /// A silent channel.
    pub fn new(has_sweep: bool) -> (c: Self)
        ensures
            c == Self::spec_new(has_sweep),
            c.wf(),
    {
        PulseChannel {
            enabled: false,
            dac_enabled: false,
            frequency: 0,
            timer: 0,
            duty: 0,
            duty_step: 0,
            length_counter: 0,
            length_enabled: false,
            envelope_initial_volume: 0,
            envelope_volume: 0,
            envelope_direction: false,
            envelope_period: 0,
            envelope_timer: 0,
            has_sweep,
            sweep_period: 0,
            sweep_timer: 0,
            sweep_direction: false,
            sweep_shift: 0,
            shadow_frequency: 0,
            sweep_enabled: false,
        }
    }

    /// The next sweep frequency, or `None` when it leaves the 11-bit range.
    pub open spec fn spec_sweep_frequency(self) -> Option<u16> {
        let delta = self.shadow_frequency >> self.sweep_shift;
        let new_freq: int = if self.sweep_direction {
            self.shadow_frequency - delta
        } else {
            self.shadow_frequency + delta
        };
        if 0 <= new_freq <= 2047 {
            Some(new_freq as u16)
        } else {
            None
        }
    }

    fn calculate_sweep_frequency(&self) -> (r: Option<u16>)
        requires
            self.wf(),
        ensures
            r == self.spec_sweep_frequency(),
    {
        let delta = self.shadow_frequency >> self.sweep_shift;
        let new_freq = if self.sweep_direction {
            self.shadow_frequency.checked_sub(delta)
        } else {
            self.shadow_frequency.checked_add(delta)
        };
        match new_freq {
            Some(freq) => {
                if freq <= 2047 {
                    Some(freq)
                } else {
                    None
                }
            },
            None => None,
        }
    }

    /// The channel after a trigger write (bit 7 of NRx4).
    pub open spec fn spec_trigger(self) -> PulseChannel {
        let c1 = PulseChannel {
            enabled: true,
            length_counter: if self.length_counter == 0 { 64 } else { self.length_counter },
            timer: ((2048 - self.frequency) * 4) as i32,
            envelope_volume: self.envelope_initial_volume,
            envelope_timer: self.envelope_period,
            ..self
        };
        if self.has_sweep {
            let c2 = PulseChannel {
                shadow_frequency: self.frequency,
                sweep_timer: if self.sweep_period > 0 { self.sweep_period } else { 8 },
                sweep_enabled: self.sweep_period > 0 || self.sweep_shift > 0,
                ..c1
            };
            if c2.sweep_shift > 0 && c2.spec_sweep_frequency() is None {
                PulseChannel { enabled: false, ..c2 }
            } else {
                c2
            }
        } else {
            c1
        }
    }

    fn trigger(&mut self)
        requires
            old(self).wf(),
        ensures
            *final(self) == old(self).spec_trigger(),
            final(self).wf(),
    {
        self.enabled = true;
        if self.length_counter == 0 {
            self.length_counter = 64;
        }
        self.timer = (2048 - self.frequency as i32) * 4;
        self.envelope_volume = self.envelope_initial_volume;
        self.envelope_timer = self.envelope_period;
        if self.has_sweep {
            self.shadow_frequency = self.frequency;
            self.sweep_timer = if self.sweep_period > 0 { self.sweep_period } else { 8 };
            self.sweep_enabled = self.sweep_period > 0 || self.sweep_shift > 0;
            if self.sweep_shift > 0 && self.calculate_sweep_frequency().is_none() {
                self.enabled = false;
            }
        }
    }

    /// The channel after a length counter clock.
    pub open spec fn spec_tick_length(self) -> PulseChannel {
        if self.length_enabled && self.length_counter > 0 {
            let n = (self.length_counter - 1) as u16;
            PulseChannel { length_counter: n, enabled: if n == 0 { false } else { self.enabled }, ..self }
        } else {
            self
        }
    }

    fn tick_length(&mut self)
        requires
            old(self).wf(),
        ensures
            *final(self) == old(self).spec_tick_length(),
            final(self).wf(),
    {
        if self.length_enabled && self.length_counter > 0 {
            self.length_counter = self.length_counter - 1;
            if self.length_counter == 0 {
                self.enabled = false;
            }
        }
    }

    /// The channel after a volume envelope clock.
    pub open spec fn spec_tick_envelope(self) -> PulseChannel {
        if self.envelope_period == 0 || self.envelope_timer == 0 {
            self
        } else if self.envelope_timer > 1 {
            PulseChannel { envelope_timer: (self.envelope_timer - 1) as u8, ..self }
        } else {
            let v: u8 = if self.envelope_direction {
                if self.envelope_volume < 15 { (self.envelope_volume + 1) as u8 } else { self.envelope_volume }
            } else {
                if self.envelope_volume > 0 { (self.envelope_volume - 1) as u8 } else { self.envelope_volume }
            };
            PulseChannel { envelope_timer: self.envelope_period, envelope_volume: v, ..self }
        }
    }

    fn tick_envelope(&mut self)
        requires
            old(self).wf(),
        ensures
            *final(self) == old(self).spec_tick_envelope(),
            final(self).wf(),
    {
        if self.envelope_period == 0 {
            return;
        }
        if self.envelope_timer > 0 {
            self.envelope_timer = self.envelope_timer - 1;
            if self.envelope_timer == 0 {
                self.envelope_timer = self.envelope_period;
                if self.envelope_direction {
                    if self.envelope_volume < 15 {
                        self.envelope_volume = self.envelope_volume + 1;
                    }
                } else {
                    if self.envelope_volume > 0 {
                        self.envelope_volume = self.envelope_volume - 1;
                    }
                }
            }
        }
    }

    /// The channel after a sweep clock.
    pub open spec fn spec_tick_sweep(self) -> PulseChannel {
        if !self.has_sweep || !self.sweep_enabled || self.sweep_period == 0 || self.sweep_timer == 0 {
            self
        } else if self.sweep_timer > 1 {
            PulseChannel { sweep_timer: (self.sweep_timer - 1) as u8, ..self }
        } else {
            let c = PulseChannel { sweep_timer: self.sweep_period, ..self };
            match c.spec_sweep_frequency() {
                Some(f) => {
                    if self.sweep_shift > 0 {
                        let c2 = PulseChannel { frequency: f, shadow_frequency: f, ..c };
                        if c2.spec_sweep_frequency() is None {
                            PulseChannel { enabled: false, ..c2 }
                        } else {
                            c2
                        }
                    } else {
                        c
                    }
                },
                None => PulseChannel { enabled: false, ..c },
            }
        }
    }

    fn tick_sweep(&mut self)
        requires
            old(self).wf(),
        ensures
            *final(self) == old(self).spec_tick_sweep(),
            final(self).wf(),
    {
        if !self.has_sweep || !self.sweep_enabled || self.sweep_period == 0 {
            return;
        }
        if self.sweep_timer > 0 {
            self.sweep_timer = self.sweep_timer - 1;
            if self.sweep_timer == 0 {
                self.sweep_timer = self.sweep_period;
                match self.calculate_sweep_frequency() {
                    Some(new_freq) => {
                        if self.sweep_shift > 0 {
                            self.frequency = new_freq;
                            self.shadow_frequency = new_freq;
                            if self.calculate_sweep_frequency().is_none() {
                                self.enabled = false;
                            }
                        }
                    },
                    None => {
                        self.enabled = false;
                    },
                }
            }
        }
    }

    /// The timer reload of the channel's frequency.
    pub open spec fn spec_period(self) -> int {
        let period = (2048 - self.frequency) * 4;
        if period > 4 { period } else { 4 }
    }

    /// The channel after its frequency timer runs for `cycles` cycles: the timer is
    /// reloaded as often as it reaches zero, and the duty step advances with each reload.
    pub open spec fn spec_tick_frequency(self, cycles: i32) -> PulseChannel {
        if !self.enabled {
            self
        } else {
            let t = self.timer - cycles;
            let k = reloads(t, self.spec_period());
            PulseChannel {
                timer: (t + k * self.spec_period()) as i32,
                duty_step: ((self.duty_step + k) % 8) as u8,
                ..self
            }
        }
    }

    fn tick_frequency(&mut self, cycles: i32)
        requires
            old(self).wf(),
            0 <= cycles,
            0 <= old(self).timer <= 8192,
        ensures
            *final(self) == old(self).spec_tick_frequency(cycles),
            final(self).wf(),
            0 <= final(self).timer <= 8192,
    {
        if !self.enabled {
            return;
        }
        let t0 = self.timer - cycles;
        let d0 = self.duty_step;
        let period = (2048 - self.frequency as i32) * 4;
        let step = if period > 4 { period } else { 4 };
        let mut timer = t0;
        let mut duty = d0;
        let ghost mut k: int = 0;
        while timer <= 0
            invariant
                4 <= step <= 8192,
                timer == t0 + k * step,
                k >= 0,
                k > 0 ==> t0 + (k - 1) * step <= 0,
                duty == (d0 + k) % 8,
                timer >= t0,
                t0 >= -0x7FFF_FFFF,
            decreases (if timer <= 0 { 1 - timer } else { 0 }),
        {
            proof { lemma_reload_step(t0 as int, step as int, k); }
            timer = timer + step;
            duty = (duty + 1) % 8;
            proof {
                assert((k + 1) * step == k * step + step) by (nonlinear_arith);
                k = k + 1;
            }
        }
        proof {
            lemma_reload_done(t0 as int, step as int, k);
            if k > 0 {
                assert(t0 + k * step == t0 + (k - 1) * step + step) by (nonlinear_arith);
            }
        }
        self.timer = timer;
        self.duty_step = duty;
    }

    /// The channel's level, 0-15.
    pub open spec fn spec_sample(self) -> u32 {
        if !self.enabled || !self.dac_enabled {
            0
        } else if duty_bit(self.duty, self.duty_step) {
            self.envelope_volume as u32
        } else {
            0
        }
    }

    fn sample(&self) -> (v: u32)
        requires
            self.wf(),
        ensures
            v == self.spec_sample(),
            v <= 15,
    {
        if !self.enabled || !self.dac_enabled {
            return 0;
        }
        let pattern: u8 = if self.duty == 0 {
            0x01
        } else if self.duty == 1 {
            0x81
        } else if self.duty == 2 {
            0x87
        } else {
            0x7E
        };
        if (pattern >> (7 - self.duty_step)) & 1 == 1 {
            self.envelope_volume as u32
        } else {
            0
        }
    }
}


/// A volume envelope clock, shared by the pulse and noise channels:
/// the new (timer, volume).
pub open spec fn envelope_step(period: u8, timer: u8, volume: u8, increase: bool) -> (u8, u8) {
    if period == 0 || timer == 0 {
        (timer, volume)
    } else if timer > 1 {
        ((timer - 1) as u8, volume)
    } else {
        let v: u8 = if increase {
            if volume < 15 { (volume + 1) as u8 } else { volume }
        } else {
            if volume > 0 { (volume - 1) as u8 } else { volume }
        };
        (period, v)
    }
}

impl WaveChannel {
    pub open spec fn wf(self) -> bool {
        &&& self.volume_shift <= 3
        &&& self.wave_index < 32
        &&& self.frequency <= 0x7FF
        &&& self.length_counter <= 256
        &&& 0 <= self.timer <= 4096
    }

    pub open spec fn spec_new() -> WaveChannel {
        WaveChannel {
            enabled: false,
            dac_enabled: false,
            frequency: 0,
            timer: 0,
            wave_index: 0,
            length_counter: 0,
            length_enabled: false,
            volume_shift: 0,
        }
    }

    /// A silent channel.
    pub fn new() -> (c: Self)
        ensures
            c == Self::spec_new(),
            c.wf(),
    {
        WaveChannel {
            enabled: false,
            dac_enabled: false,
            frequency: 0,
            timer: 0,
            wave_index: 0,
            length_counter: 0,
            length_enabled: false,
            volume_shift: 0,
        }
    }

    pub open spec fn spec_period(self) -> int {
        let period = (2048 - self.frequency) * 2;
        if period > 2 { period } else { 2 }
    }

    /// The channel after its frequency timer runs for `cycles` cycles: each reload
    /// moves to the next of the 32 wave samples.
    pub open spec fn spec_tick_frequency(self, cycles: i32) -> WaveChannel {
        if !self.enabled {
            self
        } else {
            let t = self.timer - cycles;
            let k = reloads(t, self.spec_period());
            WaveChannel {
                timer: (t + k * self.spec_period()) as i32,
                wave_index: ((self.wave_index + k) % 32) as u8,
                ..self
            }
        }
    }

    fn tick_frequency(&mut self, cycles: i32)
        requires
            old(self).wf(),
            0 <= cycles,
        ensures
            *final(self) == old(self).spec_tick_frequency(cycles),
            final(self).wf(),
    {
        if !self.enabled {
            return;
        }
        let t0 = self.timer - cycles;
        let i0 = self.wave_index;
        let period = (2048 - self.frequency as i32) * 2;
        let step = if period > 2 { period } else { 2 };
        let mut timer = t0;
        let mut index = i0;
        let ghost mut k: int = 0;
        while timer <= 0
            invariant
                2 <= step <= 4096,
                timer == t0 + k * step,
                k >= 0,
                k > 0 ==> t0 + (k - 1) * step <= 0,
                index == (i0 + k) % 32,
                timer >= t0,
                t0 >= -0x7FFF_FFFF,
            decreases (if timer <= 0 { 1 - timer } else { 0 }),
        {
            proof { lemma_reload_step(t0 as int, step as int, k); }
            timer = timer + step;
            index = (index + 1) % 32;
            proof {
                assert((k + 1) * step == k * step + step) by (nonlinear_arith);
                k = k + 1;
            }
        }
        proof {
            lemma_reload_done(t0 as int, step as int, k);
            if k > 0 {
                assert(t0 + k * step == t0 + (k - 1) * step + step) by (nonlinear_arith);
            }
        }
        self.timer = timer;
        self.wave_index = index;
    }

    pub open spec fn spec_tick_length(self) -> WaveChannel {
        if self.length_enabled && self.length_counter > 0 {
            let n = (self.length_counter - 1) as u16;
            WaveChannel { length_counter: n, enabled: if n == 0 { false } else { self.enabled }, ..self }
        } else {
            self
        }
    }

    fn tick_length(&mut self)
        requires
            old(self).wf(),
        ensures
            *final(self) == old(self).spec_tick_length(),
            final(self).wf(),
    {
        if self.length_enabled && self.length_counter > 0 {
            self.length_counter = self.length_counter - 1;
            if self.length_counter == 0 {
                self.enabled = false;
            }
        }
    }

    pub open spec fn spec_trigger(self) -> WaveChannel {
        WaveChannel {
            enabled: true,
            length_counter: if self.length_counter == 0 { 256 } else { self.length_counter },
            timer: ((2048 - self.frequency) * 2) as i32,
            wave_index: 0,
            ..self
        }
    }

    fn trigger(&mut self)
        requires
            old(self).wf(),
        ensures
            *final(self) == old(self).spec_trigger(),
            final(self).wf(),
    {
        self.enabled = true;
        if self.length_counter == 0 {
            self.length_counter = 256;
        }
        self.timer = (2048 - self.frequency as i32) * 2;
        self.wave_index = 0;
    }

    /// The channel's level, 0-15, given wave RAM.
    pub open spec fn spec_sample(self, wave_ram: Seq<u8>) -> u32 {
        if !self.enabled || !self.dac_enabled || self.volume_shift == 0 {
            0
        } else {
            let packed = wave_ram[(self.wave_index / 2) as int];
            let nibble: u8 = if self.wave_index % 2 == 0 { packed >> 4u8 } else { packed & 0x0F };
            (nibble >> ((self.volume_shift - 1) as u8)) as u32
        }
    }

    fn sample(&self, wave_ram: &[u8; 16]) -> (v: u32)
        requires
            self.wf(),
        ensures
            v == self.spec_sample(wave_ram@),
            v <= 15,
    {
        if !self.enabled || !self.dac_enabled || self.volume_shift == 0 {
            return 0;
        }
        let packed = wave_ram[(self.wave_index / 2) as usize];
        let nibble: u8 = if self.wave_index % 2 == 0 { packed >> 4u8 } else { packed & 0x0F };
        let sh = self.volume_shift - 1;
        proof {
            assert(packed >> 4u8 <= 15) by (bit_vector);
            lemma_and_le_u8(packed, 0x0F);
            assert(nibble <= 15 && sh <= 2 ==> nibble >> sh <= 15) by (bit_vector);
        }
        (nibble >> sh) as u32
    }
}

/// One shift of the noise channel's feedback register.
pub open spec fn lfsr_next(l: u16, seven_bit: bool) -> u16 {
    let x = (l & 1) ^ ((l >> 1u16) & 1);
    let l1 = (l >> 1u16) | (x << 14u16);
    if seven_bit {
        (l1 & !(1u16 << 6u16)) | (x << 6u16)
    } else {
        l1
    }
}

/// The feedback register after `k` shifts.
pub open spec fn lfsr_after(l: u16, seven_bit: bool, k: nat) -> u16
    decreases k,
{
    if k == 0 {
        l
    } else {
        lfsr_next(lfsr_after(l, seven_bit, (k - 1) as nat), seven_bit)
    }
}

impl NoiseChannel {
    pub open spec fn wf(self) -> bool {
        &&& self.envelope_initial_volume <= 15
        &&& self.envelope_volume <= 15
        &&& self.envelope_period <= 7
        &&& self.dividing_ratio <= 7
        &&& self.shift_clock_frequency <= 15
        &&& self.length_counter <= 64
        &&& 0 <= self.timer <= 0x40_0000
    }

    pub open spec fn spec_new() -> NoiseChannel {
        NoiseChannel {
            enabled: false,
            dac_enabled: false,
            timer: 0,
            lfsr: 0x7FFF,
            lfsr_7bit: false,
            length_counter: 0,
            length_enabled: false,
            envelope_initial_volume: 0,
            envelope_volume: 0,
            envelope_direction: false,
            envelope_period: 0,
            envelope_timer: 0,
            dividing_ratio: 0,
            shift_clock_frequency: 0,
        }
    }

    /// A silent channel with the register at its initial value.
    pub fn new() -> (c: Self)
        ensures
            c == Self::spec_new(),
            c.wf(),
    {
        NoiseChannel {
            enabled: false,
            dac_enabled: false,
            timer: 0,
            lfsr: 0x7FFF,
            lfsr_7bit: false,
            length_counter: 0,
            length_enabled: false,
            envelope_initial_volume: 0,
            envelope_volume: 0,
            envelope_direction: false,
            envelope_period: 0,
            envelope_timer: 0,
            dividing_ratio: 0,
            shift_clock_frequency: 0,
        }
    }

    /// The timer reload: the divisor shifted by the clock shift.
    pub open spec fn spec_reload(self) -> int {
        let div: u32 = if self.dividing_ratio == 0 { 8 } else { (self.dividing_ratio * 16) as u32 };
        (div << self.shift_clock_frequency) as int
    }

    fn reload(&self) -> (r: i32)
        requires
            self.wf(),
        ensures
            r == self.spec_reload(),
            8 <= r <= 0x40_0000,
    {
        let div: u32 = if self.dividing_ratio == 0 { 8 } else { self.dividing_ratio as u32 * 16 };
        let sh = self.shift_clock_frequency as u32;
        proof {
            assert(8 <= div <= 112 && sh <= 15 ==> 8 <= div << sh <= 0x40_0000) by (bit_vector);
        }
        (div << sh) as i32
    }

    pub open spec fn spec_period(self) -> int {
        if self.spec_reload() > 8 { self.spec_reload() } else { 8 }
    }

    /// The channel after its frequency timer runs for `cycles` cycles: each reload
    /// shifts the feedback register once.
    pub open spec fn spec_tick_frequency(self, cycles: i32) -> NoiseChannel {
        if !self.enabled {
            self
        } else {
            let t = self.timer - cycles;
            let k = reloads(t, self.spec_period());
            NoiseChannel {
                timer: (t + k * self.spec_period()) as i32,
                lfsr: lfsr_after(self.lfsr, self.lfsr_7bit, k as nat),
                ..self
            }
        }
    }

    fn tick_frequency(&mut self, cycles: i32)
        requires
            old(self).wf(),
            0 <= cycles,
        ensures
            *final(self) == old(self).spec_tick_frequency(cycles),
            final(self).wf(),
    {
        if !self.enabled {
            return;
        }
        let t0 = self.timer - cycles;
        let l0 = self.lfsr;
        let reload = self.reload();
        let step = if reload > 8 { reload } else { 8 };
        let seven = self.lfsr_7bit;
        let mut timer = t0;
        let mut lfsr = l0;
        let ghost mut k: int = 0;
        while timer <= 0
            invariant
                8 <= step <= 0x40_0000,
                timer == t0 + k * step,
                k >= 0,
                k > 0 ==> t0 + (k - 1) * step <= 0,
                lfsr == lfsr_after(l0, seven, k as nat),
                timer >= t0,
                t0 >= -0x7FFF_FFFF,
            decreases (if timer <= 0 { 1 - timer } else { 0 }),
        {
            proof { lemma_reload_step(t0 as int, step as int, k); }
            timer = timer + step;
            let bit0 = lfsr & 1;
            let bit1 = (lfsr >> 1u16) & 1;
            let x = bit0 ^ bit1;
            lfsr = (lfsr >> 1u16) | (x << 14u16);
            if seven {
                lfsr = (lfsr & !(1u16 << 6u16)) | (x << 6u16);
            }
            proof {
                assert((k + 1) * step == k * step + step) by (nonlinear_arith);
                k = k + 1;
            }
        }
        proof {
            lemma_reload_done(t0 as int, step as int, k);
            if k > 0 {
                assert(t0 + k * step == t0 + (k - 1) * step + step) by (nonlinear_arith);
            }
        }
        self.timer = timer;
        self.lfsr = lfsr;
    }

    pub open spec fn spec_tick_length(self) -> NoiseChannel {
        if self.length_enabled && self.length_counter > 0 {
            let n = (self.length_counter - 1) as u16;
            NoiseChannel { length_counter: n, enabled: if n == 0 { false } else { self.enabled }, ..self }
        } else {
            self
        }
    }

    fn tick_length(&mut self)
        requires
            old(self).wf(),
        ensures
            *final(self) == old(self).spec_tick_length(),
            final(self).wf(),
    {
        if self.length_enabled && self.length_counter > 0 {
            self.length_counter = self.length_counter - 1;
            if self.length_counter == 0 {
                self.enabled = false;
            }
        }
    }

    pub open spec fn spec_tick_envelope(self) -> NoiseChannel {
        let (t, v) = envelope_step(
            self.envelope_period,
            self.envelope_timer,
            self.envelope_volume,
            self.envelope_direction,
        );
        NoiseChannel { envelope_timer: t, envelope_volume: v, ..self }
    }

    fn tick_envelope(&mut self)
        requires
            old(self).wf(),
        ensures
            *final(self) == old(self).spec_tick_envelope(),
            final(self).wf(),
    {
        if self.envelope_period == 0 {
            return;
        }
        if self.envelope_timer > 0 {
            self.envelope_timer = self.envelope_timer - 1;
            if self.envelope_timer == 0 {
                self.envelope_timer = self.envelope_period;
                if self.envelope_direction {
                    if self.envelope_volume < 15 {
                        self.envelope_volume = self.envelope_volume + 1;
                    }
                } else {
                    if self.envelope_volume > 0 {
                        self.envelope_volume = self.envelope_volume - 1;
                    }
                }
            }
        }
    }

    pub open spec fn spec_trigger(self) -> NoiseChannel {
        NoiseChannel {
            enabled: true,
            length_counter: if self.length_counter == 0 { 64 } else { self.length_counter },
            timer: self.spec_reload() as i32,
            lfsr: 0x7FFF,
            envelope_volume: self.envelope_initial_volume,
            envelope_timer: self.envelope_period,
            ..self
        }
    }

    fn trigger(&mut self)
        requires
            old(self).wf(),
        ensures
            *final(self) == old(self).spec_trigger(),
            final(self).wf(),
    {
        self.enabled = true;
        if self.length_counter == 0 {
            self.length_counter = 64;
        }
        self.timer = self.reload();
        self.lfsr = 0x7FFF;
        self.envelope_volume = self.envelope_initial_volume;
        self.envelope_timer = self.envelope_period;
    }

    /// The channel's level, 0-15: its volume while bit 0 of the register is clear.
    pub open spec fn spec_sample(self) -> u32 {
        if !self.enabled || !self.dac_enabled {
            0
        } else if self.lfsr & 1 == 0 {
            self.envelope_volume as u32
        } else {
            0
        }
    }

    fn sample(&self) -> (v: u32)
        requires
            self.wf(),
        ensures
            v == self.spec_sample(),
            v <= 15,
    {
        if !self.enabled || !self.dac_enabled {
            return 0;
        }
        if self.lfsr & 1 == 0 {
            self.envelope_volume as u32
        } else {
            0
        }
    }
}


/// The audio unit as a value.
pub struct ApuModel {
    pub channel1: PulseChannel,
    pub channel2: PulseChannel,
    pub channel3: WaveChannel,
    pub channel4: NoiseChannel,
    pub wave_ram: Seq<u8>,
    pub nr50: u8,
    pub nr51: u8,
    pub nr52: u8,
    pub frame_sequencer_cycle: u32,
    pub frame_sequencer_step: u8,
    pub sample_accumulator: u64,
    pub samples: Seq<u16>,
}

/// The Game Boy audio processing unit.
#[derive(Debug)]
pub struct Apu {
    channel1: PulseChannel,
    channel2: PulseChannel,
    channel3: WaveChannel,
    channel4: NoiseChannel,
    wave_ram: [u8; 16],
    nr50: u8,
    nr51: u8,
    nr52: u8,
    frame_sequencer_cycle: u32,
    frame_sequencer_step: u8,
    sample_accumulator: u64,
    samples: Vec<u16>,
}

impl View for Apu {
    type V = ApuModel;

    closed spec fn view(&self) -> ApuModel {
        ApuModel {
            channel1: self.channel1,
            channel2: self.channel2,
            channel3: self.channel3,
            channel4: self.channel4,
            wave_ram: self.wave_ram@,
            nr50: self.nr50,
            nr51: self.nr51,
            nr52: self.nr52,
            frame_sequencer_cycle: self.frame_sequencer_cycle,
            frame_sequencer_step: self.frame_sequencer_step,
            sample_accumulator: self.sample_accumulator,
            samples: self.samples@,
        }
    }
}

/// Bit `b` as a mask when `flag` holds, else 0.
pub open spec fn flag_bit(flag: bool, b: u8) -> u8 {
    if flag { b } else { 0 }
}

/// One clock cycle divided among samples: `SAMPLE_RATE` units per cycle, `CPU_CLOCK_HZ` per sample.
pub open spec fn samples_for(acc: u64, cycles: u32) -> nat {
    ((acc + cycles * SAMPLE_RATE) / (CPU_CLOCK_HZ as int)) as nat
}

impl ApuModel {
    pub open spec fn wf(self) -> bool {
        &&& self.channel1.wf()
        &&& self.channel2.wf()
        &&& self.channel3.wf()
        &&& self.channel4.wf()
        &&& 0 <= self.channel1.timer <= 8192
        &&& 0 <= self.channel2.timer <= 8192
        &&& self.channel1.has_sweep
        &&& !self.channel2.has_sweep
        &&& self.wave_ram.len() == 16
        &&& self.frame_sequencer_cycle < 8192
        &&& self.frame_sequencer_step < 8
        &&& self.sample_accumulator < CPU_CLOCK_HZ
    }

    pub open spec fn powered(self) -> bool {
        self.nr52 & 0x80 != 0
    }

    /// The unit after power-up.
    pub open spec fn initial() -> ApuModel {
        ApuModel {
            channel1: PulseChannel::spec_new(true),
            channel2: PulseChannel::spec_new(false),
            channel3: WaveChannel::spec_new(),
            channel4: NoiseChannel::spec_new(),
            wave_ram: Seq::new(16, |i: int| 0u8),
            nr50: 0x77,
            nr51: 0xF3,
            nr52: 0xF1,
            frame_sequencer_cycle: 0,
            frame_sequencer_step: 0,
            sample_accumulator: 0,
            samples: Seq::empty(),
        }
    }

    /// The unit after power-down: channels, wave RAM and master registers cleared.
    pub open spec fn cleared(self) -> ApuModel {
        ApuModel {
            channel1: PulseChannel::spec_new(true),
            channel2: PulseChannel::spec_new(false),
            channel3: WaveChannel::spec_new(),
            channel4: NoiseChannel::spec_new(),
            wave_ram: Seq::new(16, |i: int| 0u8),
            nr50: 0,
            nr51: 0,
            nr52: 0,
            frame_sequencer_cycle: 0,
            frame_sequencer_step: 0,
            ..self
        }
    }

    /// What a read of sound register `address` returns.
    pub open spec fn read_register(self, address: u16) -> u8 {
        let c1 = self.channel1;
        let c2 = self.channel2;
        let c3 = self.channel3;
        let c4 = self.channel4;
        if !self.powered() && address != 0xFF26 {
            0
        } else if address == 0xFF10 {
            0x80 | (c1.sweep_period << 4u8) | flag_bit(c1.sweep_direction, 0x08) | c1.sweep_shift
        } else if address == 0xFF11 {
            0x3F | (c1.duty << 6u8)
        } else if address == 0xFF12 {
            (c1.envelope_initial_volume << 4u8) | flag_bit(c1.envelope_direction, 0x08) | c1.envelope_period
        } else if address == 0xFF14 {
            0xBF | flag_bit(c1.length_enabled, 0x40)
        } else if address == 0xFF16 {
            0x3F | (c2.duty << 6u8)
        } else if address == 0xFF17 {
            (c2.envelope_initial_volume << 4u8) | flag_bit(c2.envelope_direction, 0x08) | c2.envelope_period
        } else if address == 0xFF19 {
            0xBF | flag_bit(c2.length_enabled, 0x40)
        } else if address == 0xFF1A {
            0x7F | flag_bit(c3.dac_enabled, 0x80)
        } else if address == 0xFF1C {
            0x9F | (c3.volume_shift << 5u8)
        } else if address == 0xFF1E {
            0xBF | flag_bit(c3.length_enabled, 0x40)
        } else if address == 0xFF21 {
            (c4.envelope_initial_volume << 4u8) | flag_bit(c4.envelope_direction, 0x08) | c4.envelope_period
        } else if address == 0xFF22 {
            (c4.shift_clock_frequency << 4u8) | flag_bit(c4.lfsr_7bit, 0x08) | c4.dividing_ratio
        } else if address == 0xFF23 {
            0xBF | flag_bit(c4.length_enabled, 0x40)
        } else if address == 0xFF24 {
            self.nr50
        } else if address == 0xFF25 {
            self.nr51
        } else if address == 0xFF26 {
            (self.nr52 & 0x80) | 0x70 | flag_bit(c1.enabled, 0x01) | flag_bit(c2.enabled, 0x02)
                | flag_bit(c3.enabled, 0x04) | flag_bit(c4.enabled, 0x08)
        } else if 0xFF30 <= address <= 0xFF3F {
            self.wave_ram[address - 0xFF30]
        } else {
            0xFF
        }
    }

    /// The unit after a write of `value` to sound register `address`.
    pub open spec fn write_register(self, address: u16, value: u8) -> ApuModel {
        let c1 = self.channel1;
        let c2 = self.channel2;
        let c3 = self.channel3;
        let c4 = self.channel4;
        if !self.powered() && address != 0xFF26 {
            if address == 0xFF11 {
                ApuModel { channel1: PulseChannel { length_counter: (64 - (value & 0x3F)) as u16, ..c1 }, ..self }
            } else if address == 0xFF16 {
                ApuModel { channel2: PulseChannel { length_counter: (64 - (value & 0x3F)) as u16, ..c2 }, ..self }
            } else if address == 0xFF1B {
                ApuModel { channel3: WaveChannel { length_counter: (256 - value) as u16, ..c3 }, ..self }
            } else if address == 0xFF20 {
                ApuModel { channel4: NoiseChannel { length_counter: (64 - (value & 0x3F)) as u16, ..c4 }, ..self }
            } else {
                self
            }
        } else if address == 0xFF10 {
            ApuModel {
                channel1: PulseChannel {
                    sweep_period: (value >> 4u8) & 0x07,
                    sweep_direction: (value & 0x08) != 0,
                    sweep_shift: value & 0x07,
                    ..c1
                },
                ..self
            }
        } else if address == 0xFF11 {
            ApuModel { channel1: pulse_write_length_duty(c1, value), ..self }
        } else if address == 0xFF12 {
            ApuModel { channel1: pulse_write_envelope(c1, value), ..self }
        } else if address == 0xFF13 {
            ApuModel { channel1: PulseChannel { frequency: (c1.frequency & 0x0700) | (value as u16), ..c1 }, ..self }
        } else if address == 0xFF14 {
            ApuModel { channel1: pulse_write_control(c1, value), ..self }
        } else if address == 0xFF16 {
            ApuModel { channel2: pulse_write_length_duty(c2, value), ..self }
        } else if address == 0xFF17 {
            ApuModel { channel2: pulse_write_envelope(c2, value), ..self }
        } else if address == 0xFF18 {
            ApuModel { channel2: PulseChannel { frequency: (c2.frequency & 0x0700) | (value as u16), ..c2 }, ..self }
        } else if address == 0xFF19 {
            ApuModel { channel2: pulse_write_control(c2, value), ..self }
        } else if address == 0xFF1A {
            let dac = (value & 0x80) != 0;
            ApuModel {
                channel3: WaveChannel { dac_enabled: dac, enabled: if dac { c3.enabled } else { false }, ..c3 },
                ..self
            }
        } else if address == 0xFF1B {
            ApuModel { channel3: WaveChannel { length_counter: (256 - value) as u16, ..c3 }, ..self }
        } else if address == 0xFF1C {
            ApuModel { channel3: WaveChannel { volume_shift: (value >> 5u8) & 0x03, ..c3 }, ..self }
        } else if address == 0xFF1D {
            ApuModel { channel3: WaveChannel { frequency: (c3.frequency & 0x0700) | (value as u16), ..c3 }, ..self }
        } else if address == 0xFF1E {
            let c = WaveChannel {
                frequency: (c3.frequency & 0x00FF) | (((value as u16) & 0x07) << 8u16),
                length_enabled: (value & 0x40) != 0,
                ..c3
            };
            ApuModel { channel3: if (value & 0x80) != 0 { c.spec_trigger() } else { c }, ..self }
        } else if address == 0xFF20 {
            ApuModel { channel4: NoiseChannel { length_counter: (64 - (value & 0x3F)) as u16, ..c4 }, ..self }
        } else if address == 0xFF21 {
            let dac = (value & 0xF8) != 0;
            ApuModel {
                channel4: NoiseChannel {
                    envelope_initial_volume: value >> 4u8,
                    envelope_direction: (value & 0x08) != 0,
                    envelope_period: value & 0x07,
                    dac_enabled: dac,
                    enabled: if dac { c4.enabled } else { false },
                    ..c4
                },
                ..self
            }
        } else if address == 0xFF22 {
            ApuModel {
                channel4: NoiseChannel {
                    shift_clock_frequency: value >> 4u8,
                    lfsr_7bit: (value & 0x08) != 0,
                    dividing_ratio: value & 0x07,
                    ..c4
                },
                ..self
            }
        } else if address == 0xFF23 {
            let c = NoiseChannel { length_enabled: (value & 0x40) != 0, ..c4 };
            ApuModel { channel4: if (value & 0x80) != 0 { c.spec_trigger() } else { c }, ..self }
        } else if address == 0xFF24 {
            ApuModel { nr50: value, ..self }
        } else if address == 0xFF25 {
            ApuModel { nr51: value, ..self }
        } else if address == 0xFF26 {
            let old_pwr = self.nr52 & 0x80;
            let new_pwr = value & 0x80;
            let m = ApuModel { nr52: (self.nr52 & 0x7F) | new_pwr, ..self };
            if old_pwr != 0 && new_pwr == 0 {
                m.cleared()
            } else if old_pwr == 0 && new_pwr != 0 {
                ApuModel { frame_sequencer_step: 0, ..m }
            } else {
                m
            }
        } else if 0xFF30 <= address <= 0xFF3F {
            ApuModel { wave_ram: self.wave_ram.update(address - 0xFF30, value), ..self }
        } else {
            self
        }
    }

    /// The unit after one frame sequencer clock (512 Hz).
    pub open spec fn frame_sequencer_tick(self) -> ApuModel {
        let step = self.frame_sequencer_step;
        let m = if step == 0 || step == 4 || step == 2 || step == 6 {
            let m1 = ApuModel {
                channel1: self.channel1.spec_tick_length(),
                channel2: self.channel2.spec_tick_length(),
                channel3: self.channel3.spec_tick_length(),
                channel4: self.channel4.spec_tick_length(),
                ..self
            };
            if step == 2 || step == 6 {
                ApuModel { channel1: m1.channel1.spec_tick_sweep(), ..m1 }
            } else {
                m1
            }
        } else if step == 7 {
            ApuModel {
                channel1: self.channel1.spec_tick_envelope(),
                channel2: self.channel2.spec_tick_envelope(),
                channel4: self.channel4.spec_tick_envelope(),
                ..self
            }
        } else {
            self
        };
        ApuModel { frame_sequencer_step: ((step + 1) % 8) as u8, ..m }
    }

    /// The unit after `n` frame sequencer clocks.
    pub open spec fn frame_sequencer_ticks(self, n: nat) -> ApuModel
        decreases n,
    {
        if n == 0 {
            self
        } else {
            self.frame_sequencer_ticks((n - 1) as nat).frame_sequencer_tick()
        }
    }

    /// The left and right sample of the current channel levels.
    pub open spec fn mix(self) -> (u16, u16) {
        let l1 = self.channel1.spec_sample();
        let l2 = self.channel2.spec_sample();
        let l3 = self.channel3.spec_sample(self.wave_ram);
        let l4 = self.channel4.spec_sample();
        let p = self.nr51;
        let left = (if p & 0x10 != 0 { l1 } else { 0 }) + (if p & 0x20 != 0 { l2 } else { 0 })
            + (if p & 0x40 != 0 { l3 } else { 0 }) + (if p & 0x80 != 0 { l4 } else { 0 });
        let right = (if p & 0x01 != 0 { l1 } else { 0 }) + (if p & 0x02 != 0 { l2 } else { 0 })
            + (if p & 0x04 != 0 { l3 } else { 0 }) + (if p & 0x08 != 0 { l4 } else { 0 });
        (
            (left * ((self.nr50 >> 4u8) & 0x07)) as u16,
            (right * (self.nr50 & 0x07)) as u16,
        )
    }

    /// The unit after `cycles` CPU cycles: when powered, the channel timers run, the
    /// frame sequencer clocks once per 8192 cycles, and one stereo sample is appended
    /// per 1/44100 s (silence when unpowered).
    pub open spec fn tick(self, cycles: u32) -> ApuModel {
        let n = samples_for(self.sample_accumulator, cycles);
        let acc = ((self.sample_accumulator + cycles * SAMPLE_RATE) % (CPU_CLOCK_HZ as int)) as u64;
        if !self.powered() {
            ApuModel {
                sample_accumulator: acc,
                samples: self.samples + Seq::new(2 * n, |i: int| 0u16),
                ..self
            }
        } else {
            let c = cycles as i32;
            let m1 = ApuModel {
                channel1: self.channel1.spec_tick_frequency(c),
                channel2: self.channel2.spec_tick_frequency(c),
                channel3: self.channel3.spec_tick_frequency(c),
                channel4: self.channel4.spec_tick_frequency(c),
                ..self
            };
            let total = self.frame_sequencer_cycle + cycles;
            let m2 = ApuModel { frame_sequencer_cycle: (total % 8192) as u32, ..m1 }.frame_sequencer_ticks(
                (total / 8192) as nat,
            );
            let (l, r) = m2.mix();
            ApuModel {
                sample_accumulator: acc,
                samples: m2.samples + Seq::new(2 * n, |i: int| if i % 2 == 0 { l } else { r }),
                ..m2
            }
        }
    }
}

/// A pulse channel after a write to NRx1: duty and length.
pub open spec fn pulse_write_length_duty(c: PulseChannel, value: u8) -> PulseChannel {
    PulseChannel { duty: value >> 6u8, length_counter: (64 - (value & 0x3F)) as u16, ..c }
}

/// A pulse channel after a write to NRx2: the volume envelope.
pub open spec fn pulse_write_envelope(c: PulseChannel, value: u8) -> PulseChannel {
    let dac = (value & 0xF8) != 0;
    PulseChannel {
        envelope_initial_volume: value >> 4u8,
        envelope_direction: (value & 0x08) != 0,
        envelope_period: value & 0x07,
        dac_enabled: dac,
        enabled: if dac { c.enabled } else { false },
        ..c
    }
}

/// A pulse channel after a write to NRx4: high frequency bits, length enable, trigger.
pub open spec fn pulse_write_control(c: PulseChannel, value: u8) -> PulseChannel {
    let c1 = PulseChannel {
        frequency: (c.frequency & 0x00FF) | (((value as u16) & 0x07) << 8u16),
        length_enabled: (value & 0x40) != 0,
        ..c
    };
    if (value & 0x80) != 0 {
        c1.spec_trigger()
    } else {
        c1
    }
}


/// Field extractions of a register byte stay within their widths.
proof fn lemma_register_fields(v: u8, f: u16)
    ensures
        v >> 6u8 <= 3,
        v >> 4u8 <= 15,
        (v >> 4u8) & 0x07 <= 7,
        v & 0x07 <= 7,
        v & 0x3F <= 63,
        (v >> 5u8) & 0x03 <= 3,
        (f & 0x0700) | (v as u16) <= 0x7FF,
        (f & 0x00FF) | (((v as u16) & 0x07) << 8u16) <= 0x7FF,
{
    assert(v >> 6u8 <= 3) by (bit_vector);
    assert(v >> 4u8 <= 15) by (bit_vector);
    assert((v >> 4u8) & 0x07 <= 7) by (bit_vector);
    assert(v & 0x07 <= 7) by (bit_vector);
    assert(v & 0x3F <= 63) by (bit_vector);
    assert((v >> 5u8) & 0x03 <= 3) by (bit_vector);
    assert((f & 0x0700) | (v as u16) <= 0x7FF) by (bit_vector);
    assert((f & 0x00FF) | (((v as u16) & 0x07) << 8u16) <= 0x7FF) by (bit_vector);
}

impl PulseChannel {
    fn write_length_duty(&mut self, value: u8)
        requires
            old(self).wf(),
        ensures
            *final(self) == pulse_write_length_duty(*old(self), value),
            final(self).wf(),
    {
        proof { lemma_register_fields(value, self.frequency); }
        self.duty = value >> 6u8;
        self.length_counter = 64 - (value & 0x3F) as u16;
    }

    fn write_envelope(&mut self, value: u8)
        requires
            old(self).wf(),
        ensures
            *final(self) == pulse_write_envelope(*old(self), value),
            final(self).wf(),
    {
        proof { lemma_register_fields(value, self.frequency); }
        self.envelope_initial_volume = value >> 4u8;
        self.envelope_direction = (value & 0x08) != 0;
        self.envelope_period = value & 0x07;
        self.dac_enabled = (value & 0xF8) != 0;
        if !self.dac_enabled {
            self.enabled = false;
        }
    }

    fn write_frequency_low(&mut self, value: u8)
        requires
            old(self).wf(),
        ensures
            *final(self) == (PulseChannel { frequency: (old(self).frequency & 0x0700) | (value as u16), ..*old(self) }),
            final(self).wf(),
    {
        proof { lemma_register_fields(value, self.frequency); }
        self.frequency = (self.frequency & 0x0700) | value as u16;
    }

    fn write_control(&mut self, value: u8)
        requires
            old(self).wf(),
        ensures
            *final(self) == pulse_write_control(*old(self), value),
            final(self).wf(),
    {
        proof { lemma_register_fields(value, self.frequency); }
        self.frequency = (self.frequency & 0x00FF) | (((value as u16) & 0x07) << 8u16);
        self.length_enabled = (value & 0x40) != 0;
        if (value & 0x80) != 0 {
            self.trigger();
        }
    }

    fn read_sweep(&self) -> (v: u8)
        ensures
            v == 0x80 | (self.sweep_period << 4u8) | flag_bit(self.sweep_direction, 0x08) | self.sweep_shift,
    {
        let dir: u8 = if self.sweep_direction { 0x08 } else { 0x00 };
        0x80 | (self.sweep_period << 4u8) | dir | self.sweep_shift
    }

    fn read_envelope(&self) -> (v: u8)
        ensures
            v == (self.envelope_initial_volume << 4u8) | flag_bit(self.envelope_direction, 0x08) | self.envelope_period,
    {
        let dir: u8 = if self.envelope_direction { 0x08 } else { 0x00 };
        (self.envelope_initial_volume << 4u8) | dir | self.envelope_period
    }
}

/// The stereo sample of the given channel levels, panning and master volume.
fn mix_levels(l1: u32, l2: u32, l3: u32, l4: u32, nr50: u8, nr51: u8) -> (r: (u16, u16))
    requires
        l1 <= 15,
        l2 <= 15,
        l3 <= 15,
        l4 <= 15,
    ensures
        ({
            let left = (if nr51 & 0x10 != 0 { l1 } else { 0 }) + (if nr51 & 0x20 != 0 { l2 } else { 0 })
                + (if nr51 & 0x40 != 0 { l3 } else { 0 }) + (if nr51 & 0x80 != 0 { l4 } else { 0 });
            let right = (if nr51 & 0x01 != 0 { l1 } else { 0 }) + (if nr51 & 0x02 != 0 { l2 } else { 0 })
                + (if nr51 & 0x04 != 0 { l3 } else { 0 }) + (if nr51 & 0x08 != 0 { l4 } else { 0 });
            r == ((left * ((nr50 >> 4u8) & 0x07)) as u16, (right * (nr50 & 0x07)) as u16)
        }),
{
    let mut left: u32 = 0;
    let mut right: u32 = 0;
    if (nr51 & 0x10) != 0 { left = left + l1; }
    if (nr51 & 0x01) != 0 { right = right + l1; }
    if (nr51 & 0x20) != 0 { left = left + l2; }
    if (nr51 & 0x02) != 0 { right = right + l2; }
    if (nr51 & 0x40) != 0 { left = left + l3; }
    if (nr51 & 0x04) != 0 { right = right + l3; }
    if (nr51 & 0x80) != 0 { left = left + l4; }
    if (nr51 & 0x08) != 0 { right = right + l4; }
    let lv = ((nr50 >> 4u8) & 0x07) as u32;
    let rv = (nr50 & 0x07) as u32;
    proof { lemma_register_fields(nr50, 0); }
    assert(left * lv <= 420) by (nonlinear_arith)
        requires
            left <= 60,
            lv <= 7,
    ;
    assert(right * rv <= 420) by (nonlinear_arith)
        requires
            right <= 60,
            rv <= 7,
    ;
    ((left * lv) as u16, (right * rv) as u16)
}

impl Apu {
    pub open spec fn wf(&self) -> bool {
        self@.wf()
    }

    /// The unit in its post-boot state.
    pub fn new() -> (a: Self)
        ensures
            a@ == ApuModel::initial(),
            a.wf(),
    {
        let a = Apu {
            channel1: PulseChannel::new(true),
            channel2: PulseChannel::new(false),
            channel3: WaveChannel::new(),
            channel4: NoiseChannel::new(),
            wave_ram: [0u8; 16],
            nr50: 0x77,
            nr51: 0xF3,
            nr52: 0xF1,
            frame_sequencer_cycle: 0,
            frame_sequencer_step: 0,
            sample_accumulator: 0,
            samples: Vec::new(),
        };
        assert(a@.wave_ram =~= Seq::new(16, |i: int| 0u8));
        a
    }

    /// Resets everything that powering down clears.
    fn clear_state(&mut self)
        requires
            old(self).wf(),
        ensures
            final(self)@ == old(self)@.cleared(),
            final(self).wf(),
    {
        self.channel1 = PulseChannel::new(true);
        self.channel2 = PulseChannel::new(false);
        self.channel3 = WaveChannel::new();
        self.channel4 = NoiseChannel::new();
        self.wave_ram = [0u8; 16];
        self.nr50 = 0;
        self.nr51 = 0;
        self.nr52 = 0;
        self.frame_sequencer_cycle = 0;
        self.frame_sequencer_step = 0;
        assert(self@.wave_ram =~= Seq::new(16, |i: int| 0u8));
    }

    /// Reads a sound register or wave RAM byte (0xFF10-0xFF3F).
    pub fn read_register(&self, address: u16) -> (v: u8)
        requires
            self.wf(),
        ensures
            v == self@.read_register(address),
    {
        if (self.nr52 & 0x80) == 0 && address != 0xFF26 {
            return 0;
        }
        let c1 = &self.channel1;
        let c2 = &self.channel2;
        let c3 = &self.channel3;
        let c4 = &self.channel4;
        if address == 0xFF10 {
            c1.read_sweep()
        } else if address == 0xFF11 {
            0x3F | (c1.duty << 6u8)
        } else if address == 0xFF12 {
            c1.read_envelope()
        } else if address == 0xFF14 {
            0xBF | (if c1.length_enabled { 0x40u8 } else { 0x00u8 })
        } else if address == 0xFF16 {
            0x3F | (c2.duty << 6u8)
        } else if address == 0xFF17 {
            c2.read_envelope()
        } else if address == 0xFF19 {
            0xBF | (if c2.length_enabled { 0x40u8 } else { 0x00u8 })
        } else if address == 0xFF1A {
            0x7F | (if c3.dac_enabled { 0x80u8 } else { 0x00u8 })
        } else if address == 0xFF1C {
            0x9F | (c3.volume_shift << 5u8)
        } else if address == 0xFF1E {
            0xBF | (if c3.length_enabled { 0x40u8 } else { 0x00u8 })
        } else if address == 0xFF21 {
            let dir: u8 = if c4.envelope_direction { 0x08 } else { 0x00 };
            (c4.envelope_initial_volume << 4u8) | dir | c4.envelope_period
        } else if address == 0xFF22 {
            let step: u8 = if c4.lfsr_7bit { 0x08 } else { 0x00 };
            (c4.shift_clock_frequency << 4u8) | step | c4.dividing_ratio
        } else if address == 0xFF23 {
            0xBF | (if c4.length_enabled { 0x40u8 } else { 0x00u8 })
        } else if address == 0xFF24 {
            self.nr50
        } else if address == 0xFF25 {
            self.nr51
        } else if address == 0xFF26 {
            let ch1: u8 = if c1.enabled { 0x01 } else { 0x00 };
            let ch2: u8 = if c2.enabled { 0x02 } else { 0x00 };
            let ch3: u8 = if c3.enabled { 0x04 } else { 0x00 };
            let ch4: u8 = if c4.enabled { 0x08 } else { 0x00 };
            (self.nr52 & 0x80) | 0x70 | ch1 | ch2 | ch3 | ch4
        } else if 0xFF30 <= address && address <= 0xFF3F {
            self.wave_ram[(address - 0xFF30) as usize]
        } else {
            0xFF
        }
    }

    /// Writes a sound register or wave RAM byte (0xFF10-0xFF3F).
    pub fn write_register(&mut self, address: u16, value: u8)
        requires
            old(self).wf(),
        ensures
            final(self)@ == old(self)@.write_register(address, value),
            final(self).wf(),
    {
        proof { lemma_register_fields(value, 0); }
        if (self.nr52 & 0x80) == 0 && address != 0xFF26 {
            if address == 0xFF11 {
                self.channel1.length_counter = 64 - (value & 0x3F) as u16;
            } else if address == 0xFF16 {
                self.channel2.length_counter = 64 - (value & 0x3F) as u16;
            } else if address == 0xFF1B {
                self.channel3.length_counter = 256 - value as u16;
            } else if address == 0xFF20 {
                self.channel4.length_counter = 64 - (value & 0x3F) as u16;
            }
            return;
        }
        if address <= 0xFF14 {
            self.write_channel1(address, value);
        } else if address <= 0xFF19 {
            self.write_channel2(address, value);
        } else if address <= 0xFF1E {
            self.write_channel3(address, value);
        } else if address <= 0xFF23 {
            self.write_channel4(address, value);
        } else {
            self.write_master(address, value);
        }
    }

    fn write_channel1(&mut self, address: u16, value: u8)
        requires
            old(self).wf(),
            old(self)@.powered() || address == 0xFF26,
            address <= 0xFF14,
        ensures
            final(self)@ == old(self)@.write_register(address, value),
            final(self).wf(),
    {
        proof { lemma_register_fields(value, 0); }
        if address == 0xFF10 {
            self.channel1.sweep_period = (value >> 4u8) & 0x07;
            self.channel1.sweep_direction = (value & 0x08) != 0;
            self.channel1.sweep_shift = value & 0x07;
        } else if address == 0xFF11 {
            self.channel1.write_length_duty(value);
        } else if address == 0xFF12 {
            self.channel1.write_envelope(value);
        } else if address == 0xFF13 {
            self.channel1.write_frequency_low(value);
        } else if address == 0xFF14 {
            self.channel1.write_control(value);
        }
    }

    fn write_channel2(&mut self, address: u16, value: u8)
        requires
            old(self).wf(),
            old(self)@.powered() || address == 0xFF26,
            0xFF14 < address <= 0xFF19,
        ensures
            final(self)@ == old(self)@.write_register(address, value),
            final(self).wf(),
    {
        if address == 0xFF16 {
            self.channel2.write_length_duty(value);
        } else if address == 0xFF17 {
            self.channel2.write_envelope(value);
        } else if address == 0xFF18 {
            self.channel2.write_frequency_low(value);
        } else if address == 0xFF19 {
            self.channel2.write_control(value);
        }
    }

    fn write_channel3(&mut self, address: u16, value: u8)
        requires
            old(self).wf(),
            old(self)@.powered() || address == 0xFF26,
            0xFF19 < address <= 0xFF1E,
        ensures
            final(self)@ == old(self)@.write_register(address, value),
            final(self).wf(),
    {
        proof { lemma_register_fields(value, self.channel3.frequency); }
        if address == 0xFF1A {
            self.channel3.dac_enabled = (value & 0x80) != 0;
            if !self.channel3.dac_enabled {
                self.channel3.enabled = false;
            }
        } else if address == 0xFF1B {
            self.channel3.length_counter = 256 - value as u16;
        } else if address == 0xFF1C {
            self.channel3.volume_shift = (value >> 5u8) & 0x03;
        } else if address == 0xFF1D {
            self.channel3.frequency = (self.channel3.frequency & 0x0700) | value as u16;
        } else if address == 0xFF1E {
            self.channel3.frequency = (self.channel3.frequency & 0x00FF) | (((value as u16) & 0x07) << 8u16);
            self.channel3.length_enabled = (value & 0x40) != 0;
            if (value & 0x80) != 0 {
                self.channel3.trigger();
            }
        }
    }

    fn write_channel4(&mut self, address: u16, value: u8)
        requires
            old(self).wf(),
            old(self)@.powered() || address == 0xFF26,
            0xFF1E < address <= 0xFF23,
        ensures
            final(self)@ == old(self)@.write_register(address, value),
            final(self).wf(),
    {
        proof { lemma_register_fields(value, 0); }
        if address == 0xFF20 {
            self.channel4.length_counter = 64 - (value & 0x3F) as u16;
        } else if address == 0xFF21 {
            self.channel4.envelope_initial_volume = value >> 4u8;
            self.channel4.envelope_direction = (value & 0x08) != 0;
            self.channel4.envelope_period = value & 0x07;
            self.channel4.dac_enabled = (value & 0xF8) != 0;
            if !self.channel4.dac_enabled {
                self.channel4.enabled = false;
            }
        } else if address == 0xFF22 {
            self.channel4.shift_clock_frequency = value >> 4u8;
            self.channel4.lfsr_7bit = (value & 0x08) != 0;
            self.channel4.dividing_ratio = value & 0x07;
        } else if address == 0xFF23 {
            self.channel4.length_enabled = (value & 0x40) != 0;
            if (value & 0x80) != 0 {
                self.channel4.trigger();
            }
        }
    }

    fn write_master(&mut self, address: u16, value: u8)
        requires
            old(self).wf(),
            old(self)@.powered() || address == 0xFF26,
            0xFF23 < address,
        ensures
            final(self)@ == old(self)@.write_register(address, value),
            final(self).wf(),
    {
        if address == 0xFF24 {
            self.nr50 = value;
        } else if address == 0xFF25 {
            self.nr51 = value;
        } else if address == 0xFF26 {
            let old_pwr = self.nr52 & 0x80;
            let new_pwr = value & 0x80;
            self.nr52 = (self.nr52 & 0x7F) | new_pwr;
            if old_pwr != 0 && new_pwr == 0 {
                self.clear_state();
            } else if old_pwr == 0 && new_pwr != 0 {
                self.frame_sequencer_step = 0;
            }
        } else if 0xFF30 <= address && address <= 0xFF3F {
            self.wave_ram[(address - 0xFF30) as usize] = value;
        }
    }

    /// One frame sequencer clock: lengths on even steps, the sweep on steps 2 and 6,
    /// envelopes on step 7.
    fn tick_frame_sequencer(&mut self)
        requires
            old(self).wf(),
        ensures
            final(self)@ == old(self)@.frame_sequencer_tick(),
            final(self).wf(),
    {
        let step = self.frame_sequencer_step;
        if step == 0 || step == 4 || step == 2 || step == 6 {
            self.channel1.tick_length();
            self.channel2.tick_length();
            self.channel3.tick_length();
            self.channel4.tick_length();
            if step == 2 || step == 6 {
                self.channel1.tick_sweep();
            }
        } else if step == 7 {
            self.channel1.tick_envelope();
            self.channel2.tick_envelope();
            self.channel4.tick_envelope();
        }
        self.frame_sequencer_step = (step + 1) % 8;
    }

    /// The stereo sample of the current channel levels.
    fn mix(&self) -> (r: (u16, u16))
        requires
            self.wf(),
        ensures
            r == self@.mix(),
    {
        let l1 = self.channel1.sample();
        let l2 = self.channel2.sample();
        let l3 = self.channel3.sample(&self.wave_ram);
        let l4 = self.channel4.sample();
        mix_levels(l1, l2, l3, l4, self.nr50, self.nr51)
    }

    /// Runs the unit for `cycles` CPU cycles, appending the samples that fall in that time.
    pub fn tick(&mut self, cycles: u32)
        requires
            old(self).wf(),
            cycles <= i32::MAX,
        ensures
            final(self)@ == old(self)@.tick(cycles),
            final(self).wf(),
    {
        let total_acc: u64 = self.sample_accumulator + cycles as u64 * SAMPLE_RATE as u64;
        let n: u64 = total_acc / CPU_CLOCK_HZ as u64;
        let (l, r): (u16, u16) = if (self.nr52 & 0x80) == 0 {
            (0, 0)
        } else {
            let c = cycles as i32;
            self.channel1.tick_frequency(c);
            self.channel2.tick_frequency(c);
            self.channel3.tick_frequency(c);
            self.channel4.tick_frequency(c);
            let total = self.frame_sequencer_cycle + cycles;
            let ticks = total / 8192;
            self.frame_sequencer_cycle = total % 8192;
            let ghost base = self@;
            proof {
                let o = old(self)@;
                let m1 = ApuModel {
                    channel1: o.channel1.spec_tick_frequency(c),
                    channel2: o.channel2.spec_tick_frequency(c),
                    channel3: o.channel3.spec_tick_frequency(c),
                    channel4: o.channel4.spec_tick_frequency(c),
                    ..o
                };
                assert(base == ApuModel { frame_sequencer_cycle: ((o.frame_sequencer_cycle + cycles) % 8192) as u32, ..m1 });
            }
            let mut i: u32 = 0;
            while i < ticks
                invariant
                    self.wf(),
                    i <= ticks,
                    self@ == base.frame_sequencer_ticks(i as nat),
                decreases ticks - i,
            {
                self.tick_frame_sequencer();
                i = i + 1;
            }
            self.mix()
        };
        let ghost before = self@.samples;
        let ghost pre = self@;
        let mut j: u64 = 0;
        while j < n
            invariant
                j <= n,
                self@ == (ApuModel { samples: self@.samples, ..pre }),
                self.wf(),
                self@.samples == before + Seq::new(2 * j as nat, |i: int| if i % 2 == 0 { l } else { r }),
            decreases n - j,
        {
            self.samples.push(l);
            self.samples.push(r);
            j = j + 1;
            assert(self@.samples =~= before + Seq::new(2 * j as nat, |i: int| if i % 2 == 0 { l } else { r }));
        }
        self.sample_accumulator = total_acc % CPU_CLOCK_HZ as u64;
        proof {
            let o = old(self)@;
            let spec = o.tick(cycles);
            assert(n == samples_for(o.sample_accumulator, cycles));
            if o.nr52 & 0x80 == 0 {
                assert(Seq::new(2 * n as nat, |i: int| if i % 2 == 0 { l } else { r })
                    =~= Seq::new(2 * n as nat, |i: int| 0u16));
            }
        }
    }

    /// Hands out the samples gathered so far and empties the buffer.
    pub fn take_samples(&mut self) -> (s: Vec<u16>)
        ensures
            s@ == old(self)@.samples,
            final(self)@ == (ApuModel { samples: Seq::empty(), ..old(self)@ }),
            final(self).wf() == old(self).wf(),
    {
        let mut out: Vec<u16> = Vec::new();
        std::mem::swap(&mut out, &mut self.samples);
        out
    }
}


/// While the unit is powered, wave RAM and the master volume and panning registers read
/// back what was written.
pub proof fn lemma_register_write_read(m: ApuModel, address: u16, value: u8)
    requires
        m.wf(),
        m.powered(),
        (0xFF30 <= address <= 0xFF3F) || address == 0xFF24 || address == 0xFF25,
    ensures
        m.write_register(address, value).read_register(address) == value,
{
}

/// While the unit is powered off, every register but NR52 reads 0, and writes other than
/// to NR52 and the length registers change nothing.
pub proof fn lemma_powered_off(m: ApuModel, address: u16, value: u8)
    requires
        !m.powered(),
        address != 0xFF26,
    ensures
        m.read_register(address) == 0,
        address != 0xFF11 && address != 0xFF16 && address != 0xFF1B && address != 0xFF20
            ==> m.write_register(address, value) == m,
{
}

/// Turning the power off through NR52 clears the channels, wave RAM and master registers.
pub proof fn lemma_power_off_clears(m: ApuModel, value: u8)
    requires
        m.powered(),
        value & 0x80 == 0,
    ensures
        m.write_register(0xFF26, value) == (ApuModel { nr52: (m.nr52 & 0x7F) | (value & 0x80), ..m }).cleared(),
        !m.write_register(0xFF26, value).powered(),
{
    assert(0u8 & 0x80 == 0) by (bit_vector);
}

} // verus!
