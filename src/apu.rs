use vstd::prelude::*;
use crate::ppu::Queue;

verus! {

/// Whether step `step` of duty pattern `duty` is high: 12.5%, 25%, 50% and 75% of the eight
/// steps.
pub open spec fn duty_high(duty: u8, step: u8) -> bool {
    if duty == 0 {
        step == 7
    } else if duty == 1 {
        step >= 6
    } else if duty == 2 {
        step >= 4
    } else {
        step <= 5
    }
}

fn duty_is_high(duty: u8, step: u8) -> (r: bool)
    ensures
        r == duty_high(duty, step),
{
    if duty == 0 {
        step == 7
    } else if duty == 1 {
        step >= 6
    } else if duty == 2 {
        step >= 4
    } else {
        step <= 5
    }
}

/// The four sound channels.
pub enum Channel {
    Chnl1,
    Chnl2,
    Chnl3,
    Chnl4,
}

/// Clocks the length counters, the sweep and the envelopes, stepping through 8 steps of
/// 8192 ticks each: length on even steps, sweep on steps 2 and 6, envelopes on step 7.
pub struct FrameSequencer {
    pub cycles: u16,
    pub last_step: u8,
    pub step: u8,
}

impl FrameSequencer {
    pub open spec fn wf(&self) -> bool {
        self.cycles < 8192 && self.step < 8
    }

    pub fn new() -> (r: Self)
        ensures
            r.wf(),
            r.cycles == 0 && r.step == 0 && r.last_step == 0,
    {
        FrameSequencer { cycles: 0, last_step: 0, step: 0 }
    }

    /// One tick: remembers the step, and moves to the next step every 8192 ticks.
    pub fn tick(&mut self)
        requires
            old(self).wf(),
        ensures
            final(self).wf(),
            final(self).last_step == old(self).step,
            old(self).cycles + 1 == 8192 ==> final(self).cycles == 0 && final(self).step == (old(self).step + 1) % 8,
            old(self).cycles + 1 < 8192 ==> final(self).cycles == old(self).cycles + 1 && final(self).step == old(self).step,
    {
        self.cycles = self.cycles + 1;
        self.last_step = self.step;
        if self.cycles == 8192 {
            if self.step != 7 {
                self.step = self.step + 1;
            } else {
                self.step = 0;
            }
            self.cycles = 0;
        }
    }
}

/// Silences a channel when its length runs out.
pub struct LengthCtr {
    pub enabled: bool,
    pub max_length: u16,
    pub length_timer: u16,
}

impl LengthCtr {
    pub fn new(max: u16) -> (r: Self)
        ensures
            !r.enabled && r.max_length == max && r.length_timer == 0,
    {
        LengthCtr { enabled: false, max_length: max, length_timer: 0 }
    }

    /// On a trigger an expired counter restarts at the full length.
    pub fn trigger(&mut self)
        ensures
            *final(self) == (LengthCtr {
                length_timer: if old(self).length_timer == 0 {
                    old(self).max_length
                } else {
                    old(self).length_timer
                },
                ..*old(self)
            }),
    {
        if self.length_timer == 0 {
            self.length_timer = self.max_length;
        }
    }

    pub fn channel_active(&self) -> (r: bool)
        ensures
            r == (self.length_timer > 0),
    {
        self.length_timer > 0
    }

    /// The counter after one clock.
    pub open spec fn after_tick(self) -> LengthCtr {
        LengthCtr {
            length_timer: if self.enabled && self.length_timer > 0 {
                (self.length_timer - 1) as u16
            } else {
                self.length_timer
            },
            ..self
        }
    }

    /// Counts down while enabled, stopping at 0.
    pub fn tick(&mut self)
        ensures
            *final(self) == old(self).after_tick(),
    {
        if self.length_timer == 0 || !self.enabled {
            return ;
        }
        self.length_timer = self.length_timer - 1;
    }
}

/// The frequency sweep of channel 1.
pub struct Sweep {
    pub enabled: bool,
    pub frequency: u16,
    pub shadow_frequency: u16,
    pub sweep_timer: u8,
    pub period: u8,
    pub direction_up: bool,
    pub shift: u8,
}

/// The next sweep frequency: the shadow frequency plus or minus itself shifted right.
pub open spec fn swept(shadow: u16, shift: u8, up: bool) -> int {
    if up {
        shadow + (shadow >> shift)
    } else {
        shadow - (shadow >> shift)
    }
}

impl Sweep {
    pub open spec fn wf(&self) -> bool {
        self.shift < 8
    }

    pub fn new() -> (r: Self)
        ensures
            r.wf(),
            !r.enabled && r.frequency == 0 && r.shadow_frequency == 0 && r.sweep_timer == 0,
            r.period == 0 && !r.direction_up && r.shift == 0,
    {
        Sweep {
            enabled: false,
            frequency: 0,
            shadow_frequency: 0,
            sweep_timer: 0,
            period: 0,
            direction_up: false,
            shift: 0,
        }
    }

    /// The frequency the next sweep step moves to.
    pub fn calculate_frequency(&self) -> (r: u32)
        requires
            self.wf(),
        ensures
            r == swept(self.shadow_frequency, self.shift, self.direction_up),
    {
        let shadow = self.shadow_frequency;
        let delta = shadow >> self.shift;
        if self.direction_up {
            shadow as u32 + delta as u32
        } else {
            let sh = self.shift;
            assert(shadow >> sh <= shadow) by (bit_vector);
            (shadow - delta) as u32
        }
    }

    /// The sweep after one clock.
    pub open spec fn after_tick(self) -> Sweep {
        let t = if self.sweep_timer > 0 {
            (self.sweep_timer - 1) as u8
        } else {
            0u8
        };
        let n = swept(self.shadow_frequency, self.shift, self.direction_up);
        if t != 0 {
            Sweep { sweep_timer: t, ..self }
        } else {
            let restarted = Sweep {
                sweep_timer: if self.period > 0 {
                    self.period
                } else {
                    8
                },
                ..self
            };
            if self.enabled && self.period > 0 && n <= 2047 && self.shift > 0 {
                Sweep { frequency: n as u16, shadow_frequency: n as u16, ..restarted }
            } else {
                restarted
            }
        }
    }

    /// Counts the sweep period down; when it runs out it restarts (at 8 for a period of 0)
    /// and, if the sweep is on, moves to the next frequency when that stays within 11 bits
    /// and the shift is non-zero.
    pub fn tick(&mut self)
        requires
            old(self).wf(),
        ensures
            final(self).wf(),
            *final(self) == old(self).after_tick(),
            final(self).period == old(self).period && final(self).shift == old(self).shift,
            ({
                let t = if old(self).sweep_timer > 0 {
                    (old(self).sweep_timer - 1) as u8
                } else {
                    0u8
                };
                let n = swept(old(self).shadow_frequency, old(self).shift, old(self).direction_up);
                &&& t != 0 ==> *final(self) == (Sweep { sweep_timer: t, ..*old(self) })
                &&& t == 0 ==> final(self).sweep_timer == if old(self).period > 0 {
                    old(self).period
                } else {
                    8
                }
                &&& t == 0 && old(self).enabled && old(self).period > 0 && n <= 2047 && old(self).shift > 0
                    ==> final(self).frequency == n && final(self).shadow_frequency == n
                &&& !(t == 0 && old(self).enabled && old(self).period > 0 && n <= 2047 && old(self).shift > 0)
                    ==> final(self).frequency == old(self).frequency && final(self).shadow_frequency
                    == old(self).shadow_frequency
            }),
    {
        if self.sweep_timer > 0 {
            self.sweep_timer = self.sweep_timer - 1;
        }
        if self.sweep_timer == 0 {
            if self.period > 0 {
                self.sweep_timer = self.period;
            } else {
                self.sweep_timer = 8;
            }
            if self.enabled && self.period > 0 {
                let new_frequency = self.calculate_frequency();
                if new_frequency <= 2047 && self.shift > 0 {
                    self.frequency = new_frequency as u16;
                    self.shadow_frequency = new_frequency as u16;
                }
            }
        }
    }
}

/// The volume envelope of channels 1, 2 and 4.
pub struct VolumeEnvelope {
    pub enabled: bool,
    pub initial_volume: u8,
    pub current_volume: u8,
    pub direction_up: bool,
    pub period_timer: u8,
    pub period: u8,
}

impl VolumeEnvelope {
    pub open spec fn wf(&self) -> bool {
        self.current_volume <= 15 && self.initial_volume <= 15 && self.period <= 7
    }

    pub fn new() -> (r: Self)
        ensures
            r.wf(),
            !r.enabled && r.initial_volume == 0 && r.current_volume == 0 && !r.direction_up,
            r.period_timer == 0 && r.period == 0,
    {
        VolumeEnvelope {
            enabled: false,
            initial_volume: 0,
            current_volume: 0,
            direction_up: false,
            period_timer: 0,
            period: 0,
        }
    }

    /// The envelope after one clock.
    pub open spec fn after_tick(self) -> VolumeEnvelope {
        let t = if self.period_timer > 0 {
            (self.period_timer - 1) as u8
        } else {
            0u8
        };
        let v = self.current_volume;
        if !self.enabled || self.period == 0 {
            self
        } else if t != 0 {
            VolumeEnvelope { period_timer: t, ..self }
        } else {
            VolumeEnvelope {
                period_timer: self.period,
                current_volume: if self.direction_up && v < 15 {
                    (v + 1) as u8
                } else if !self.direction_up && v > 0 {
                    (v - 1) as u8
                } else {
                    v
                },
                ..self
            }
        }
    }

    /// Counts the period down; each time it runs out the volume moves one step in its
    /// direction, staying within 0–15.
    pub fn tick(&mut self)
        requires
            old(self).wf(),
        ensures
            final(self).wf(),
            *final(self) == old(self).after_tick(),
            !old(self).enabled || old(self).period == 0 ==> *final(self) == *old(self),
            old(self).enabled && old(self).period > 0 ==> {
                let t = if old(self).period_timer > 0 {
                    (old(self).period_timer - 1) as u8
                } else {
                    0u8
                };
                let v = old(self).current_volume;
                &&& t != 0 ==> *final(self) == (VolumeEnvelope { period_timer: t, ..*old(self) })
                &&& t == 0 ==> final(self).period_timer == old(self).period && final(self).current_volume == if old(
                    self,
                ).direction_up && v < 15 {
                    (v + 1) as u8
                } else if !old(self).direction_up && v > 0 {
                    (v - 1) as u8
                } else {
                    v
                }
            },
    {
        if !self.enabled || self.period == 0 {
            return ;
        }
        if self.period_timer > 0 {
            self.period_timer = self.period_timer - 1;
        }
        if self.period_timer == 0 {
            self.period_timer = self.period;
            if self.current_volume < 0xF && self.direction_up {
                self.current_volume = self.current_volume + 1;
            } else if self.current_volume > 0 && !self.direction_up {
                self.current_volume = self.current_volume - 1;
            }
        }
    }
}

/// Square wave with sweep.
pub struct Channel1 {
    pub timer: u16,
    pub enabled: bool,
    pub dac_enabled: bool,
    pub length_ctr: LengthCtr,
    pub volume_envelope: VolumeEnvelope,
    pub sweep: Sweep,
    pub duty: u8,
    pub sequence: u8,
    pub output: u8,
}

impl Channel1 {
    pub open spec fn wf(&self) -> bool {
        self.duty < 4 && self.sequence < 8 && self.volume_envelope.wf() && self.sweep.wf()
    }

    pub fn new() -> (r: Self)
        ensures
            r.wf(),
            r.timer == 0 && !r.enabled && r.length_ctr.max_length == 64 && r.duty == 0 && r.sequence == 0,
    {
        Channel1 {
            timer: 0,
            enabled: false,
            dac_enabled: false,
            length_ctr: LengthCtr::new(64),
            volume_envelope: VolumeEnvelope::new(),
            sweep: Sweep::new(),
            duty: 0,
            sequence: 0,
            output: 0,
        }
    }

    /// Counts the timer down; when it runs out, outputs the envelope volume on a high duty
    /// step (0 when disabled or low), reloads the timer and moves to the next step.
    pub fn tick(&mut self)
        requires
            old(self).wf(),
        ensures
            final(self).wf(),
            old(self).timer > 1 ==> *final(self) == (Channel1 { timer: (old(self).timer - 1) as u16, ..*old(self) }),
            old(self).timer <= 1 ==> {
                &&& final(self).output == if old(self).enabled && duty_high(old(self).duty, old(self).sequence) {
                    old(self).volume_envelope.current_volume
                } else {
                    0
                }
                &&& final(self).sequence == (old(self).sequence + 1) % 8
                &&& final(self).timer == (2048 - old(self).sequence) * 4
            },
    {
        self.timer = self.timer.saturating_sub(1);
        if self.timer > 0 {
            return ;
        }
        self.output = if self.enabled && duty_is_high(self.duty, self.sequence) {
            self.volume_envelope.current_volume
        } else {
            0
        };
        self.timer = (2048 - self.sequence as u16) * 4;
        self.sequence = if self.sequence < 7 {
            self.sequence + 1
        } else {
            0
        };
    }
}

/// Square wave without sweep.
pub struct Channel2 {
    pub timer: u16,
    pub enabled: bool,
    pub dac_enabled: bool,
    pub length_ctr: LengthCtr,
    pub volume_envelope: VolumeEnvelope,
    pub duty: u8,
    pub sequence: u8,
    pub output: u8,
}

impl Channel2 {
    pub open spec fn wf(&self) -> bool {
        self.duty < 4 && self.sequence < 8 && self.volume_envelope.wf()
    }

    pub fn new() -> (r: Self)
        ensures
            r.wf(),
            r.timer == 0 && !r.enabled && r.length_ctr.max_length == 64 && r.duty == 0 && r.sequence == 0,
    {
        Channel2 {
            timer: 0,
            enabled: false,
            dac_enabled: false,
            length_ctr: LengthCtr::new(64),
            volume_envelope: VolumeEnvelope::new(),
            duty: 0,
            sequence: 0,
            output: 0,
        }
    }

    /// As channel 1's tick.
    pub fn tick(&mut self)
        requires
            old(self).wf(),
        ensures
            final(self).wf(),
            old(self).timer > 1 ==> *final(self) == (Channel2 { timer: (old(self).timer - 1) as u16, ..*old(self) }),
            old(self).timer <= 1 ==> {
                &&& final(self).output == if old(self).enabled && duty_high(old(self).duty, old(self).sequence) {
                    old(self).volume_envelope.current_volume
                } else {
                    0
                }
                &&& final(self).sequence == (old(self).sequence + 1) % 8
                &&& final(self).timer == (2048 - old(self).sequence) * 4
            },
    {
        self.timer = self.timer.saturating_sub(1);
        if self.timer > 0 {
            return ;
        }
        self.output = if self.enabled && duty_is_high(self.duty, self.sequence) {
            self.volume_envelope.current_volume
        } else {
            0
        };
        self.timer = (2048 - self.sequence as u16) * 4;
        self.sequence = if self.sequence < 7 {
            self.sequence + 1
        } else {
            0
        };
    }
}

/// Wave channel playing samples from wave RAM.
pub struct Channel3 {
    pub timer: u16,
    pub enabled: bool,
    pub dac_enabled: bool,
    pub length_ctr: LengthCtr,
    pub volume: u8,
    pub wave_ram: [u8; 16],
    pub output: u8,
}

impl Channel3 {
    pub fn new() -> (r: Self)
        ensures
            r.timer == 0 && !r.enabled && !r.dac_enabled && r.length_ctr.max_length == 256 && r.volume == 0,
    {
        Channel3 {
            timer: 0,
            enabled: false,
            dac_enabled: false,
            length_ctr: LengthCtr::new(256),
            volume: 0,
            wave_ram: [0u8; 16],
            output: 0,
        }
    }

    /// Counts the timer down, stopping at 0.
    pub fn tick(&mut self)
        ensures
            final(self).timer == if old(self).timer > 0 {
                (old(self).timer - 1) as u16
            } else {
                0
            },
    {
        self.timer = self.timer.saturating_sub(1);
    }
}

/// The reload of the noise channel's timer: its divisor (8 for code 0, else 16 × code)
/// shifted left by the clock shift.
pub open spec fn noise_period(divisor_code: u8, shift: u8) -> u16 {
    let d: u16 = if divisor_code % 8 == 0 {
        8
    } else {
        (16 * (divisor_code % 8)) as u16
    };
    d << shift
}

/// Noise channel.
pub struct Channel4 {
    pub timer: u16,
    pub enabled: bool,
    pub dac_enabled: bool,
    pub length_ctr: LengthCtr,
    pub volume_envelope: VolumeEnvelope,
    pub divisor_code: u8,
    pub shift: u8,
    pub counter_width: u8,
    pub output: u8,
}

impl Channel4 {
    pub open spec fn wf(&self) -> bool {
        self.shift < 16 && self.volume_envelope.wf()
    }

    pub fn new() -> (r: Self)
        ensures
            r.wf(),
            r.timer == 0 && !r.enabled && r.length_ctr.max_length == 64 && r.divisor_code == 0 && r.shift == 0,
    {
        Channel4 {
            timer: 0,
            enabled: false,
            dac_enabled: false,
            length_ctr: LengthCtr::new(64),
            volume_envelope: VolumeEnvelope::new(),
            divisor_code: 0,
            shift: 0,
            counter_width: 0,
            output: 0,
        }
    }

    /// Counts the timer down; when it runs out, reloads it from the divisor and shift.
    pub fn tick(&mut self)
        requires
            old(self).wf(),
        ensures
            final(self).wf(),
            old(self).timer > 1 ==> *final(self) == (Channel4 { timer: (old(self).timer - 1) as u16, ..*old(self) }),
            old(self).timer <= 1 ==> *final(self) == (Channel4 {
                timer: noise_period(old(self).divisor_code, old(self).shift),
                ..*old(self)
            }),
    {
        self.timer = self.timer.saturating_sub(1);
        if self.timer > 0 {
            return ;
        }
        let code = self.divisor_code % 8;
        let d: u16 = if code == 0 {
            8
        } else {
            16 * code as u16
        };
        self.timer = d << self.shift;
    }
}

/// The audio unit: four channels clocked by a frame sequencer.
pub struct APU {
    pub channel_1: Channel1,
    pub channel_2: Channel2,
    pub channel_3: Channel3,
    pub channel_4: Channel4,
    pub master: u8,
    pub global_panning: u8,
    pub enabled: bool,
    pub left_enabled: bool,
    pub right_enabled: bool,
    pub sampling_rate: u16,
    pub channels: u8,
    pub sequencer: FrameSequencer,
    pub audio_buffer: Queue<u8>,
    pub audio_buffer_max: u32,
}

/// 0x40 when `b`, else 0.
pub open spec fn flag_bit(b: bool, mask: u8) -> u8 {
    if b {
        mask
    } else {
        0
    }
}

impl APU {
    pub open spec fn wf(&self) -> bool {
        &&& self.channel_1.wf()
        &&& self.channel_2.wf()
        &&& self.channel_4.wf()
        &&& self.sequencer.wf()
    }

    /// What a read of sound register `addr` returns: the readable fields of the register,
    /// the rest of the bits read as 1.
    pub open spec fn register_value(&self, addr: u16) -> u8 {
        let c1 = self.channel_1;
        let c2 = self.channel_2;
        let c3 = self.channel_3;
        let c4 = self.channel_4;
        if addr == 0xFF10 {
            ((c1.sweep.period & 0x07) << 4u8) | (if c1.sweep.direction_up { 0u8 } else { 0x80u8 }) | (c1.sweep.shift
                & 0x07) | 0x80
        } else if addr == 0xFF11 {
            ((c1.duty & 0x03) << 6u8) | 0x3F
        } else if addr == 0xFF12 {
            (c1.volume_envelope.initial_volume << 4u8) | flag_bit(c1.volume_envelope.direction_up, 0x80) | (
            c1.volume_envelope.period & 0x07)
        } else if addr == 0xFF14 {
            0xBF | flag_bit(c1.length_ctr.enabled, 0x40)
        } else if addr == 0xFF16 {
            ((c2.duty & 0x03) << 6u8) | 0x3F
        } else if addr == 0xFF17 {
            (c2.volume_envelope.initial_volume << 4u8) | flag_bit(c2.volume_envelope.direction_up, 0x80) | (
            c2.volume_envelope.period & 0x07)
        } else if addr == 0xFF19 {
            0xBF | flag_bit(c2.length_ctr.enabled, 0x40)
        } else if addr == 0xFF1A {
            0x7F | flag_bit(c3.dac_enabled, 0x80)
        } else if addr == 0xFF1C {
            ((c3.volume & 0x03) << 5u8) | 0x9F
        } else if addr == 0xFF1E {
            0xBF | flag_bit(c3.length_ctr.enabled, 0x40)
        } else if addr == 0xFF21 {
            (c4.volume_envelope.initial_volume << 4u8) | flag_bit(c4.volume_envelope.direction_up, 0x80) | (
            c4.volume_envelope.period & 0x07)
        } else {
            0xFF
        }
    }

    /// Every length counter clocked once.
    pub open spec fn lengths_ticked(self) -> APU {
        APU {
            channel_1: Channel1 { length_ctr: self.channel_1.length_ctr.after_tick(), ..self.channel_1 },
            channel_2: Channel2 { length_ctr: self.channel_2.length_ctr.after_tick(), ..self.channel_2 },
            channel_3: Channel3 { length_ctr: self.channel_3.length_ctr.after_tick(), ..self.channel_3 },
            channel_4: Channel4 { length_ctr: self.channel_4.length_ctr.after_tick(), ..self.channel_4 },
            ..self
        }
    }

    /// Channel 1's sweep clocked once.
    pub open spec fn sweep_ticked(self) -> APU {
        APU { channel_1: Channel1 { sweep: self.channel_1.sweep.after_tick(), ..self.channel_1 }, ..self }
    }

    /// The three volume envelopes clocked once.
    pub open spec fn envelopes_ticked(self) -> APU {
        APU {
            channel_1: Channel1 { volume_envelope: self.channel_1.volume_envelope.after_tick(), ..self.channel_1 },
            channel_2: Channel2 { volume_envelope: self.channel_2.volume_envelope.after_tick(), ..self.channel_2 },
            channel_4: Channel4 { volume_envelope: self.channel_4.volume_envelope.after_tick(), ..self.channel_4 },
            ..self
        }
    }

    /// The units that entering sequencer step `step` clocks: length on even steps, the
    /// sweep as well on steps 2 and 6, the envelopes on step 7; nothing when no step was
    /// entered.
    pub open spec fn step_clocked(self, step: u8, entered: bool) -> APU {
        if !entered {
            self
        } else if step == 0 || step == 4 {
            self.lengths_ticked()
        } else if step == 2 || step == 6 {
            self.lengths_ticked().sweep_ticked()
        } else if step == 7 {
            self.envelopes_ticked()
        } else {
            self
        }
    }

    pub fn new(sampling_rate: u16, channels: u8, buffer_size: u32) -> (r: Self)
        ensures
            r.wf(),
            r.enabled && r.left_enabled && r.right_enabled,
            r.sampling_rate == sampling_rate && r.channels == channels,
            r.audio_buffer@.len() == 0,
    {
        APU {
            channel_1: Channel1::new(),
            channel_2: Channel2::new(),
            channel_3: Channel3::new(),
            channel_4: Channel4::new(),
            master: 0,
            global_panning: 0,
            enabled: true,
            left_enabled: true,
            right_enabled: true,
            sampling_rate,
            channels,
            sequencer: FrameSequencer::new(),
            audio_buffer: Queue::new(),
            audio_buffer_max: 0,
        }
    }

    /// Reads a sound register (0xFF10–0xFF21).
    pub fn read(&self, addr: u16) -> (r: u8)
        requires
            0xFF10 <= addr <= 0xFF21,
        ensures
            r == self.register_value(addr),
    {
        let c1 = &self.channel_1;
        let c2 = &self.channel_2;
        let c3 = &self.channel_3;
        let c4 = &self.channel_4;
        if addr == 0xFF10 {
            ((c1.sweep.period & 0x07) << 4u8) | (if c1.sweep.direction_up { 0u8 } else { 0x80u8 }) | (c1.sweep.shift
                & 0x07) | 0x80
        } else if addr == 0xFF11 {
            ((c1.duty & 0x03) << 6u8) | 0x3F
        } else if addr == 0xFF12 {
            (c1.volume_envelope.initial_volume << 4u8) | (if c1.volume_envelope.direction_up { 0x80u8 } else { 0u8 })
                | (c1.volume_envelope.period & 0x07)
        } else if addr == 0xFF14 {
            0xBF | (if c1.length_ctr.enabled { 0x40u8 } else { 0u8 })
        } else if addr == 0xFF16 {
            ((c2.duty & 0x03) << 6u8) | 0x3F
        } else if addr == 0xFF17 {
            (c2.volume_envelope.initial_volume << 4u8) | (if c2.volume_envelope.direction_up { 0x80u8 } else { 0u8 })
                | (c2.volume_envelope.period & 0x07)
        } else if addr == 0xFF19 {
            0xBF | (if c2.length_ctr.enabled { 0x40u8 } else { 0u8 })
        } else if addr == 0xFF1A {
            0x7F | (if c3.dac_enabled { 0x80u8 } else { 0u8 })
        } else if addr == 0xFF1C {
            ((c3.volume & 0x03) << 5u8) | 0x9F
        } else if addr == 0xFF1E {
            0xBF | (if c3.length_ctr.enabled { 0x40u8 } else { 0u8 })
        } else if addr == 0xFF21 {
            (c4.volume_envelope.initial_volume << 4u8) | (if c4.volume_envelope.direction_up { 0x80u8 } else { 0u8 })
                | (c4.volume_envelope.period & 0x07)
        } else {
            0xFF
        }
    }

    pub fn clear_audio_buffer(&mut self)
        ensures
            final(self).audio_buffer@.len() == 0,
    {
        self.audio_buffer.clear();
    }

    /// One tick: advances the frame sequencer and, on entering a step, clocks the units
    /// that step drives.
    pub fn tick(&mut self)
        requires
            old(self).wf(),
        ensures
            final(self).wf(),
            !old(self).enabled ==> *final(self) == *old(self),
            old(self).enabled ==> final(self).sequencer.last_step == old(self).sequencer.step,
            old(self).enabled ==> *final(self) == (APU { sequencer: final(self).sequencer, ..*old(self) }).step_clocked(
                final(self).sequencer.step,
                final(self).sequencer.step != final(self).sequencer.last_step,
            ),
    {
        if !self.enabled {
            return ;
        }
        self.sequencer.tick();
        if self.sequencer.step != self.sequencer.last_step {
            let step = self.sequencer.step;
            if step == 0 || step == 4 {
                self.tick_all_length();
            } else if step == 2 || step == 6 {
                self.tick_all_length();
                self.tick_ch1_sweep();
            } else if step == 7 {
                self.tick_all_envelopes();
            }
        }
    }

    /// Clocks the four length counters.
    pub fn tick_all_length(&mut self)
        requires
            old(self).wf(),
        ensures
            final(self).wf(),
            *final(self) == old(self).lengths_ticked(),
    {
        self.channel_1.length_ctr.tick();
        self.channel_2.length_ctr.tick();
        self.channel_3.length_ctr.tick();
        self.channel_4.length_ctr.tick();
    }

    /// Clocks channel 1's sweep.
    pub fn tick_ch1_sweep(&mut self)
        requires
            old(self).wf(),
        ensures
            final(self).wf(),
            *final(self) == old(self).sweep_ticked(),
    {
        self.channel_1.sweep.tick();
    }

    /// Clocks the three volume envelopes.
    pub fn tick_all_envelopes(&mut self)
        requires
            old(self).wf(),
        ensures
            final(self).wf(),
            *final(self) == old(self).envelopes_ticked(),
    {
        self.channel_1.volume_envelope.tick();
        self.channel_2.volume_envelope.tick();
        self.channel_4.volume_envelope.tick();
    }
}

} // verus!
