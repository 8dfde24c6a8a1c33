//! Audio processor: two square channels (one with frequency sweep), a wave
//! channel playing 32 four-bit samples, and an LFSR noise channel, all
//! clocked by a frame sequencer and mixed into a buffer of stereo samples.
//!
//! Samples are integers scaled by `SAMPLE_SCALE`: a pair `(l, r)` stands
//! for the amplitudes `l / SAMPLE_SCALE` and `r / SAMPLE_SCALE`, each in
//! `[0.0, 1.0]`. The host divides to obtain floating-point output.

use vstd::prelude::*;

verus! {

pub const CPU_CLOCK: u32 = 4194304;

pub const FRAME_SEQUENCER_RATE: u16 = 8192;

/// Denominator of the fixed-point stereo samples: four channels of at most
/// 15, times the master volume factor of at most 8, over 15 * 32.
pub const SAMPLE_SCALE: u16 = 480;

/// The duty waveform bit for a duty pattern in 0..=3 at a position in 0..=7.
pub open spec fn duty_bit(duty: u8, position: u8) -> u8 {
    if duty == 0 {
        if position == 7 {
            1
        } else {
            0
        }
    } else if duty == 1 {
        if position == 0 || position == 7 {
            1
        } else {
            0
        }
    } else if duty == 2 {
        if position == 0 || position >= 5 {
            1
        } else {
            0
        }
    } else {
        if 1 <= position && position <= 6 {
            1
        } else {
            0
        }
    }
}

/// Bounds that register masking guarantees; every masked field stays small
/// and an eleven-bit frequency stays below 2048.
proof fn lemma_mask_bounds()
    by (bit_vector)
    ensures
        forall|b: u8| #[trigger] (b & 0x07) <= 7,
        forall|b: u8| #[trigger] (b & 0x3F) <= 63,
        forall|b: u8, s: u8| #[trigger] ((b >> s) & 0x03) <= 3,
        forall|b: u8, s: u8| #[trigger] ((b >> s) & 0x07) <= 7,
        forall|b: u8, s: u8| #[trigger] ((b >> s) & 0x0F) <= 15,
        forall|f: u16, v: u8| #[trigger] ((f & 0x700) | v as u16) < 2048,
        forall|f: u16, v: u8| #[trigger] ((f & 0xFF) | (((v & 0x07) as u16) << 8)) < 2048,
{
}

pub struct SquareChannel {
    pub enabled: bool,
    /// Only the first square channel owns the frequency sweep unit.
    pub has_sweep: bool,
    pub sweep_pace: u8,
    pub sweep_direction: bool,
    pub sweep_step: u8,
    pub sweep_timer: u8,
    pub sweep_shadow_freq: u16,
    pub sweep_enabled: bool,
    pub duty: u8,
    pub duty_position: u8,
    pub length_counter: u16,
    pub length_enabled: bool,
    pub initial_volume: u8,
    pub envelope_direction: bool,
    pub envelope_pace: u8,
    pub envelope_timer: u8,
    pub current_volume: u8,
    pub frequency: u16,
    pub frequency_timer: u16,
    pub nr0: u8,
    pub nr1: u8,
    pub nr2: u8,
    pub nr3: u8,
    pub nr4: u8,
}

pub open spec fn sq_wf(c: SquareChannel) -> bool {
    &&& c.frequency < 2048
    &&& c.duty <= 3
    &&& c.duty_position <= 7
    &&& c.sweep_step <= 7
    &&& c.initial_volume <= 15
    &&& c.current_volume <= 15
}

pub open spec fn sq_new(has_sweep: bool) -> SquareChannel {
    SquareChannel {
        enabled: false,
        has_sweep,
        sweep_pace: 0,
        sweep_direction: false,
        sweep_step: 0,
        sweep_timer: 0,
        sweep_shadow_freq: 0,
        sweep_enabled: false,
        duty: 0,
        duty_position: 0,
        length_counter: 0,
        length_enabled: false,
        initial_volume: 0,
        envelope_direction: false,
        envelope_pace: 0,
        envelope_timer: 0,
        current_volume: 0,
        frequency: 0,
        frequency_timer: 0,
        nr0: 0,
        nr1: 0,
        nr2: 0,
        nr3: 0,
        nr4: 0,
    }
}

/// The candidate sweep frequency: the shadow frequency shifted down by the
/// sweep step, added to or subtracted from the shadow frequency.
pub open spec fn sweep_next_freq(c: SquareChannel) -> u16 {
    let shifted = c.sweep_shadow_freq >> c.sweep_step;
    if c.sweep_direction {
        c.sweep_shadow_freq.wrapping_sub(shifted)
    } else {
        c.sweep_shadow_freq.wrapping_add(shifted)
    }
}

/// A trigger: the channel turns on, an expired length counter reloads to
/// 64, the frequency timer and the envelope restart, a disabled DAC keeps
/// the channel off, and the sweep unit loads its shadow register and makes
/// an immediate overflow check.
pub open spec fn sq_triggered(c: SquareChannel) -> SquareChannel {
    let c1 = SquareChannel {
        enabled: true,
        length_counter: if c.length_counter == 0 {
            64
        } else {
            c.length_counter
        },
        frequency_timer: (4 * (2048 - c.frequency)) as u16,
        current_volume: c.initial_volume,
        envelope_timer: c.envelope_pace,
        ..c
    };
    let c2 = if c1.nr2 & 0xF8 == 0 {
        SquareChannel { enabled: false, ..c1 }
    } else {
        c1
    };
    if c2.has_sweep {
        let c3 = SquareChannel {
            sweep_shadow_freq: c2.frequency,
            sweep_timer: if c2.sweep_pace != 0 {
                c2.sweep_pace
            } else {
                8
            },
            sweep_enabled: c2.sweep_pace != 0 || c2.sweep_step != 0,
            ..c2
        };
        if c3.sweep_step != 0 && sweep_next_freq(c3) > 2047 {
            SquareChannel { enabled: false, ..c3 }
        } else {
            c3
        }
    } else {
        c2
    }
}

/// A write to one of the five channel registers.
pub open spec fn sq_written(c: SquareChannel, reg: u8, value: u8) -> SquareChannel {
    if reg == 0 {
        if c.has_sweep {
            SquareChannel {
                nr0: value,
                sweep_pace: (value >> 4) & 0x07,
                sweep_direction: value & 0x08 != 0,
                sweep_step: value & 0x07,
                ..c
            }
        } else {
            SquareChannel { nr0: value, ..c }
        }
    } else if reg == 1 {
        SquareChannel {
            nr1: value,
            duty: (value >> 6) & 0x03,
            length_counter: (64 - (value & 0x3F)) as u16,
            ..c
        }
    } else if reg == 2 {
        let c1 = SquareChannel {
            nr2: value,
            initial_volume: (value >> 4) & 0x0F,
            envelope_direction: value & 0x08 != 0,
            envelope_pace: value & 0x07,
            ..c
        };
        if value & 0xF8 == 0 {
            SquareChannel { enabled: false, ..c1 }
        } else {
            c1
        }
    } else if reg == 3 {
        SquareChannel { nr3: value, frequency: (c.frequency & 0x700) | value as u16, ..c }
    } else if reg == 4 {
        let c1 = SquareChannel {
            nr4: value,
            frequency: (c.frequency & 0xFF) | (((value & 0x07) as u16) << 8),
            length_enabled: value & 0x40 != 0,
            ..c
        };
        if value & 0x80 != 0 {
            sq_triggered(c1)
        } else {
            c1
        }
    } else {
        c
    }
}

/// One sub-cycle of the frequency timer: on expiry it reloads and the duty
/// position advances one step.
pub open spec fn sq_freq_stepped(c: SquareChannel) -> SquareChannel {
    let t = if c.frequency_timer > 0 {
        (c.frequency_timer - 1) as u16
    } else {
        c.frequency_timer
    };
    if t == 0 {
        SquareChannel {
            frequency_timer: (4 * (2048 - c.frequency)) as u16,
            duty_position: ((c.duty_position + 1) % 8) as u8,
            ..c
        }
    } else {
        SquareChannel { frequency_timer: t, ..c }
    }
}

/// A length clock: with length enabled, a running counter counts down and
/// disables the channel on reaching zero.
pub open spec fn sq_length_stepped(c: SquareChannel) -> SquareChannel {
    if c.length_enabled && c.length_counter > 0 {
        let n = (c.length_counter - 1) as u16;
        SquareChannel { length_counter: n, enabled: c.enabled && n != 0, ..c }
    } else {
        c
    }
}

/// An envelope clock: with a non-zero pace, the timer counts down and on
/// expiry the volume moves one step in the envelope direction, within
/// 0..=15.
pub open spec fn sq_envelope_stepped(c: SquareChannel) -> SquareChannel {
    if c.envelope_pace == 0 {
        c
    } else {
        let t = if c.envelope_timer > 0 {
            (c.envelope_timer - 1) as u8
        } else {
            c.envelope_timer
        };
        if t == 0 {
            let vol = if c.envelope_direction && c.current_volume < 15 {
                (c.current_volume + 1) as u8
            } else if !c.envelope_direction && c.current_volume > 0 {
                (c.current_volume - 1) as u8
            } else {
                c.current_volume
            };
            SquareChannel { envelope_timer: c.envelope_pace, current_volume: vol, ..c }
        } else {
            SquareChannel { envelope_timer: t, ..c }
        }
    }
}

/// A sweep clock: the timer counts down and on expiry reloads; an active
/// sweep then computes the next frequency, disables the channel past 2047,
/// or stores the new frequency and re-checks for overflow.
pub open spec fn sq_sweep_stepped(c: SquareChannel) -> SquareChannel {
    if !c.has_sweep {
        c
    } else {
        let t = if c.sweep_timer > 0 {
            (c.sweep_timer - 1) as u8
        } else {
            c.sweep_timer
        };
        if t == 0 {
            let c1 = SquareChannel {
                sweep_timer: if c.sweep_pace != 0 {
                    c.sweep_pace
                } else {
                    8
                },
                ..c
            };
            if c1.sweep_enabled && c1.sweep_pace != 0 {
                let nf = sweep_next_freq(c1);
                if nf > 2047 {
                    SquareChannel { enabled: false, ..c1 }
                } else if c1.sweep_step != 0 {
                    let c2 = SquareChannel { sweep_shadow_freq: nf, frequency: nf, ..c1 };
                    if sweep_next_freq(c2) > 2047 {
                        SquareChannel { enabled: false, ..c2 }
                    } else {
                        c2
                    }
                } else {
                    c1
                }
            } else {
                c1
            }
        } else {
            SquareChannel { sweep_timer: t, ..c }
        }
    }
}

/// The channel's amplitude numerator in 0..=15 (over a denominator of 15):
/// the duty bit times the current volume, zero when disabled.
pub open spec fn sq_output(c: SquareChannel) -> u8 {
    if !c.enabled {
        0
    } else {
        (duty_bit(c.duty, c.duty_position) * c.current_volume) as u8
    }
}

impl SquareChannel {
    pub fn new(has_sweep: bool) -> (r: SquareChannel)
        ensures
            r == sq_new(has_sweep),
            sq_wf(r),
    {
        SquareChannel {
            enabled: false,
            has_sweep,
            sweep_pace: 0,
            sweep_direction: false,
            sweep_step: 0,
            sweep_timer: 0,
            sweep_shadow_freq: 0,
            sweep_enabled: false,
            duty: 0,
            duty_position: 0,
            length_counter: 0,
            length_enabled: false,
            initial_volume: 0,
            envelope_direction: false,
            envelope_pace: 0,
            envelope_timer: 0,
            current_volume: 0,
            frequency: 0,
            frequency_timer: 0,
            nr0: 0,
            nr1: 0,
            nr2: 0,
            nr3: 0,
            nr4: 0,
        }
    }

    fn trigger(&mut self)
        requires
            sq_wf(*old(self)),
        ensures
            *final(self) == sq_triggered(*old(self)),
            sq_wf(*final(self)),
    {
        self.enabled = true;
        if self.length_counter == 0 {
            self.length_counter = 64;
        }
        self.frequency_timer = 4 * (2048 - self.frequency);
        self.current_volume = self.initial_volume;
        self.envelope_timer = self.envelope_pace;
        if self.nr2 & 0xF8 == 0 {
            self.enabled = false;
        }
        if self.has_sweep {
            self.sweep_shadow_freq = self.frequency;
            self.sweep_timer = if self.sweep_pace != 0 {
                self.sweep_pace
            } else {
                8
            };
            self.sweep_enabled = self.sweep_pace != 0 || self.sweep_step != 0;
            if self.sweep_step != 0 {
                let new_freq = self.calculate_sweep_frequency();
                if new_freq > 2047 {
                    self.enabled = false;
                }
            }
        }
    }

    fn calculate_sweep_frequency(&self) -> (r: u16)
        requires
            self.sweep_step <= 7,
        ensures
            r == sweep_next_freq(*self),
    {
        let shifted = self.sweep_shadow_freq >> self.sweep_step;
        if self.sweep_direction {
            self.sweep_shadow_freq.wrapping_sub(shifted)
        } else {
            self.sweep_shadow_freq.wrapping_add(shifted)
        }
    }

    pub fn write_register(&mut self, reg: u8, value: u8)
        requires
            sq_wf(*old(self)),
        ensures
            *final(self) == sq_written(*old(self), reg, value),
            sq_wf(*final(self)),
    {
        proof {
            lemma_mask_bounds();
        }
        if reg == 0 {
            self.nr0 = value;
            if self.has_sweep {
                self.sweep_pace = (value >> 4) & 0x07;
                self.sweep_direction = (value & 0x08) != 0;
                self.sweep_step = value & 0x07;
            }
        } else if reg == 1 {
            self.nr1 = value;
            self.duty = (value >> 6) & 0x03;
            self.length_counter = 64 - (value & 0x3F) as u16;
        } else if reg == 2 {
            self.nr2 = value;
            self.initial_volume = (value >> 4) & 0x0F;
            self.envelope_direction = (value & 0x08) != 0;
            self.envelope_pace = value & 0x07;
            if value & 0xF8 == 0 {
                self.enabled = false;
            }
        } else if reg == 3 {
            self.nr3 = value;
            self.frequency = (self.frequency & 0x700) | value as u16;
        } else if reg == 4 {
            self.nr4 = value;
            self.frequency = (self.frequency & 0xFF) | (((value & 0x07) as u16) << 8);
            self.length_enabled = (value & 0x40) != 0;
            if value & 0x80 != 0 {
                self.trigger();
            }
        }
    }

    pub fn step_frequency(&mut self)
        requires
            sq_wf(*old(self)),
        ensures
            *final(self) == sq_freq_stepped(*old(self)),
            sq_wf(*final(self)),
    {
        if self.frequency_timer > 0 {
            self.frequency_timer = self.frequency_timer - 1;
        }
        if self.frequency_timer == 0 {
            self.frequency_timer = 4 * (2048 - self.frequency);
            self.duty_position = (self.duty_position + 1) % 8;
        }
    }

    pub fn step_length(&mut self)
        ensures
            *final(self) == sq_length_stepped(*old(self)),
    {
        if self.length_enabled && self.length_counter > 0 {
            self.length_counter = self.length_counter - 1;
            if self.length_counter == 0 {
                self.enabled = false;
            }
        }
    }

    pub fn step_envelope(&mut self)
        ensures
            *final(self) == sq_envelope_stepped(*old(self)),
    {
        if self.envelope_pace == 0 {
            return ;
        }
        if self.envelope_timer > 0 {
            self.envelope_timer = self.envelope_timer - 1;
        }
        if self.envelope_timer == 0 {
            self.envelope_timer = self.envelope_pace;
            if self.envelope_direction && self.current_volume < 15 {
                self.current_volume = self.current_volume + 1;
            } else if !self.envelope_direction && self.current_volume > 0 {
                self.current_volume = self.current_volume - 1;
            }
        }
    }

    pub fn step_sweep(&mut self)
        requires
            sq_wf(*old(self)),
        ensures
            *final(self) == sq_sweep_stepped(*old(self)),
            sq_wf(*final(self)),
    {
        if !self.has_sweep {
            return ;
        }
        if self.sweep_timer > 0 {
            self.sweep_timer = self.sweep_timer - 1;
        }
        if self.sweep_timer == 0 {
            self.sweep_timer = if self.sweep_pace != 0 {
                self.sweep_pace
            } else {
                8
            };
            if self.sweep_enabled && self.sweep_pace != 0 {
                let new_freq = self.calculate_sweep_frequency();
                if new_freq > 2047 {
                    self.enabled = false;
                } else if self.sweep_step != 0 {
                    self.sweep_shadow_freq = new_freq;
                    self.frequency = new_freq;
                    if self.calculate_sweep_frequency() > 2047 {
                        self.enabled = false;
                    }
                }
            }
        }
    }

    /// The amplitude numerator over `15`: duty bit times current volume.
    pub fn output(&self) -> (r: u8)
        requires
            sq_wf(*self),
        ensures
            r == sq_output(*self),
            r <= 15,
    {
        if !self.enabled {
            return 0;
        }
        let bit = if self.duty == 0 {
            if self.duty_position == 7 {
                1
            } else {
                0
            }
        } else if self.duty == 1 {
            if self.duty_position == 0 || self.duty_position == 7 {
                1
            } else {
                0
            }
        } else if self.duty == 2 {
            if self.duty_position == 0 || self.duty_position >= 5 {
                1
            } else {
                0
            }
        } else {
            if 1 <= self.duty_position && self.duty_position <= 6 {
                1
            } else {
                0
            }
        };
        bit * self.current_volume
    }

    pub fn reset(&mut self)
        ensures
            *final(self) == sq_new(old(self).has_sweep),
            sq_wf(*final(self)),
    {
        let has_sweep = self.has_sweep;
        *self = SquareChannel::new(has_sweep);
    }
}

/// Mathematical model of the wave channel.
#[verifier::ext_equal]
pub ghost struct WaveV {
    pub enabled: bool,
    pub length_counter: u16,
    pub length_enabled: bool,
    pub volume_code: u8,
    pub frequency: u16,
    pub frequency_timer: u16,
    pub wave_ram: Seq<u8>,
    pub wave_position: u8,
    pub dac_enabled: bool,
    pub nr0: u8,
    pub nr1: u8,
    pub nr2: u8,
    pub nr3: u8,
    pub nr4: u8,
}

pub struct WaveChannel {
    pub enabled: bool,
    pub length_counter: u16,
    pub length_enabled: bool,
    pub volume_code: u8,
    pub frequency: u16,
    pub frequency_timer: u16,
    /// 16 bytes holding 32 four-bit samples, high nibble first.
    pub wave_ram: Vec<u8>,
    pub wave_position: u8,
    pub dac_enabled: bool,
    pub nr0: u8,
    pub nr1: u8,
    pub nr2: u8,
    pub nr3: u8,
    pub nr4: u8,
}

impl View for WaveChannel {
    type V = WaveV;

    open spec fn view(&self) -> WaveV {
        WaveV {
            enabled: self.enabled,
            length_counter: self.length_counter,
            length_enabled: self.length_enabled,
            volume_code: self.volume_code,
            frequency: self.frequency,
            frequency_timer: self.frequency_timer,
            wave_ram: self.wave_ram@,
            wave_position: self.wave_position,
            dac_enabled: self.dac_enabled,
            nr0: self.nr0,
            nr1: self.nr1,
            nr2: self.nr2,
            nr3: self.nr3,
            nr4: self.nr4,
        }
    }
}

pub open spec fn wave_wf(c: WaveV) -> bool {
    &&& c.frequency < 2048
    &&& c.wave_position <= 31
    &&& c.volume_code <= 3
    &&& c.wave_ram.len() == 16
}

/// A fresh wave channel around the given wave RAM, which outlives resets.
pub open spec fn wave_new(ram: Seq<u8>) -> WaveV {
    WaveV {
        enabled: false,
        length_counter: 0,
        length_enabled: false,
        volume_code: 0,
        frequency: 0,
        frequency_timer: 0,
        wave_ram: ram,
        wave_position: 0,
        dac_enabled: false,
        nr0: 0,
        nr1: 0,
        nr2: 0,
        nr3: 0,
        nr4: 0,
    }
}

/// A trigger: the channel turns on, an expired length counter reloads to
/// 256, the frequency timer restarts, playback rewinds, and a disabled DAC
/// keeps the channel off.
pub open spec fn wave_triggered(c: WaveV) -> WaveV {
    let c1 = WaveV {
        enabled: c.dac_enabled,
        length_counter: if c.length_counter == 0 {
            256
        } else {
            c.length_counter
        },
        frequency_timer: (2 * (2048 - c.frequency)) as u16,
        wave_position: 0,
        ..c
    };
    c1
}

/// A write to one of the five channel registers.
pub open spec fn wave_written(c: WaveV, reg: u8, value: u8) -> WaveV {
    if reg == 0 {
        WaveV {
            nr0: value,
            dac_enabled: value & 0x80 != 0,
            enabled: c.enabled && value & 0x80 != 0,
            ..c
        }
    } else if reg == 1 {
        WaveV { nr1: value, length_counter: (256 - value) as u16, ..c }
    } else if reg == 2 {
        WaveV { nr2: value, volume_code: (value >> 5) & 0x03, ..c }
    } else if reg == 3 {
        WaveV { nr3: value, frequency: (c.frequency & 0x700) | value as u16, ..c }
    } else if reg == 4 {
        let c1 = WaveV {
            nr4: value,
            frequency: (c.frequency & 0xFF) | (((value & 0x07) as u16) << 8),
            length_enabled: value & 0x40 != 0,
            ..c
        };
        if value & 0x80 != 0 {
            wave_triggered(c1)
        } else {
            c1
        }
    } else {
        c
    }
}

/// One sub-cycle of the frequency timer: on expiry it reloads and playback
/// advances to the next of the 32 samples.
pub open spec fn wave_freq_stepped(c: WaveV) -> WaveV {
    let t = if c.frequency_timer > 0 {
        (c.frequency_timer - 1) as u16
    } else {
        c.frequency_timer
    };
    if t == 0 {
        WaveV {
            frequency_timer: (2 * (2048 - c.frequency)) as u16,
            wave_position: ((c.wave_position + 1) % 32) as u8,
            ..c
        }
    } else {
        WaveV { frequency_timer: t, ..c }
    }
}

/// A length clock, as for the square channels but over 0..=256.
pub open spec fn wave_length_stepped(c: WaveV) -> WaveV {
    if c.length_enabled && c.length_counter > 0 {
        let n = (c.length_counter - 1) as u16;
        WaveV { length_counter: n, enabled: c.enabled && n != 0, ..c }
    } else {
        c
    }
}

/// The channel's amplitude numerator in 0..=15: the current four-bit
/// sample, shifted right by 4, 0, 1 or 2 for volume codes 0 to 3.
pub open spec fn wave_output(c: WaveV) -> u8 {
    if !c.enabled || !c.dac_enabled {
        0
    } else {
        let byte = c.wave_ram[c.wave_position as int / 2];
        let sample = if c.wave_position % 2 == 0 {
            (byte >> 4) & 0x0F
        } else {
            byte & 0x0F
        };
        if c.volume_code == 0 {
            sample >> 4
        } else if c.volume_code == 1 {
            sample
        } else if c.volume_code == 2 {
            sample >> 1
        } else {
            sample >> 2
        }
    }
}

impl WaveChannel {
    pub fn new() -> (r: WaveChannel)
        ensures
            r@ == wave_new(Seq::new(16, |i: int| 0u8)),
            wave_wf(r@),
    {
        let mut wave_ram: Vec<u8> = Vec::new();
        let mut i: usize = 0;
        while i < 16
            invariant
                i <= 16,
                wave_ram@ =~= Seq::new(i as nat, |j: int| 0u8),
            decreases 16 - i,
        {
            wave_ram.push(0);
            i = i + 1;
            proof {
                assert(wave_ram@ =~= Seq::new(i as nat, |j: int| 0u8));
            }
        }
        let r = WaveChannel {
            enabled: false,
            length_counter: 0,
            length_enabled: false,
            volume_code: 0,
            frequency: 0,
            frequency_timer: 0,
            wave_ram,
            wave_position: 0,
            dac_enabled: false,
            nr0: 0,
            nr1: 0,
            nr2: 0,
            nr3: 0,
            nr4: 0,
        };
        proof {
            assert(r@ =~= wave_new(Seq::new(16, |i: int| 0u8)));
        }
        r
    }

    fn trigger(&mut self)
        requires
            wave_wf(old(self)@),
        ensures
            final(self)@ == wave_triggered(old(self)@),
            wave_wf(final(self)@),
    {
        self.enabled = true;
        if self.length_counter == 0 {
            self.length_counter = 256;
        }
        self.frequency_timer = 2 * (2048 - self.frequency);
        self.wave_position = 0;
        if !self.dac_enabled {
            self.enabled = false;
        }
    }

    pub fn write_register(&mut self, reg: u8, value: u8)
        requires
            wave_wf(old(self)@),
        ensures
            final(self)@ == wave_written(old(self)@, reg, value),
            wave_wf(final(self)@),
    {
        proof {
            lemma_mask_bounds();
        }
        if reg == 0 {
            self.nr0 = value;
            self.dac_enabled = (value & 0x80) != 0;
            if !self.dac_enabled {
                self.enabled = false;
            }
        } else if reg == 1 {
            self.nr1 = value;
            self.length_counter = 256 - value as u16;
        } else if reg == 2 {
            self.nr2 = value;
            self.volume_code = (value >> 5) & 0x03;
        } else if reg == 3 {
            self.nr3 = value;
            self.frequency = (self.frequency & 0x700) | value as u16;
        } else if reg == 4 {
            self.nr4 = value;
            self.frequency = (self.frequency & 0xFF) | (((value & 0x07) as u16) << 8);
            self.length_enabled = (value & 0x40) != 0;
            if value & 0x80 != 0 {
                self.trigger();
            }
        }
    }

    pub fn step_frequency(&mut self)
        requires
            wave_wf(old(self)@),
        ensures
            final(self)@ == wave_freq_stepped(old(self)@),
            wave_wf(final(self)@),
    {
        if self.frequency_timer > 0 {
            self.frequency_timer = self.frequency_timer - 1;
        }
        if self.frequency_timer == 0 {
            self.frequency_timer = 2 * (2048 - self.frequency);
            self.wave_position = (self.wave_position + 1) % 32;
        }
    }

    pub fn step_length(&mut self)
        ensures
            final(self)@ == wave_length_stepped(old(self)@),
    {
        if self.length_enabled && self.length_counter > 0 {
            self.length_counter = self.length_counter - 1;
            if self.length_counter == 0 {
                self.enabled = false;
            }
        }
    }

    /// The amplitude numerator over `15`: the current sample scaled by the
    /// volume code.
    pub fn output(&self) -> (r: u8)
        requires
            wave_wf(self@),
        ensures
            r == wave_output(self@),
            r <= 15,
    {
        proof {
            lemma_mask_bounds();
        }
        if !self.enabled || !self.dac_enabled {
            return 0;
        }
        let byte_index: usize = (self.wave_position / 2) as usize;
        let byte = self.wave_ram[byte_index];
        let sample: u8 = if self.wave_position % 2 == 0 {
            (byte >> 4) & 0x0F
        } else {
            byte & 0x0F
        };
        proof {
            let b = byte;
            assert((b >> 4) & 0x0F <= 15 && b & 0x0F <= 15 && ((b >> 4) & 0x0F) >> 4 <= 15 && ((b
                >> 4) & 0x0F) >> 1 <= 15 && ((b >> 4) & 0x0F) >> 2 <= 15 && (b & 0x0F) >> 4 <= 15
                && (b & 0x0F) >> 1 <= 15 && (b & 0x0F) >> 2 <= 15) by (bit_vector);
        }
        if self.volume_code == 0 {
            sample >> 4u8
        } else if self.volume_code == 1 {
            sample
        } else if self.volume_code == 2 {
            sample >> 1u8
        } else {
            sample >> 2u8
        }
    }

    /// Resets every playback field; the wave RAM itself survives a reset.
    pub fn reset(&mut self)
        ensures
            final(self)@ == wave_new(old(self)@.wave_ram),
            old(self)@.wave_ram.len() == 16 ==> wave_wf(final(self)@),
    {
        self.enabled = false;
        self.length_counter = 0;
        self.length_enabled = false;
        self.volume_code = 0;
        self.frequency = 0;
        self.frequency_timer = 0;
        self.wave_position = 0;
        self.dac_enabled = false;
        self.nr0 = 0;
        self.nr1 = 0;
        self.nr2 = 0;
        self.nr3 = 0;
        self.nr4 = 0;
        proof {
            assert(self@ =~= wave_new(old(self)@.wave_ram));
        }
    }
}

pub struct NoiseChannel {
    pub enabled: bool,
    pub length_counter: u16,
    pub length_enabled: bool,
    pub initial_volume: u8,
    pub envelope_direction: bool,
    pub envelope_pace: u8,
    pub envelope_timer: u8,
    pub current_volume: u8,
    pub clock_shift: u8,
    /// False selects the 15-bit feedback register, true the 7-bit one.
    pub width_mode: bool,
    pub divisor_code: u8,
    pub lfsr: u16,
    pub frequency_timer: u32,
    pub nr1: u8,
    pub nr2: u8,
    pub nr3: u8,
    pub nr4: u8,
}

pub open spec fn noise_wf(c: NoiseChannel) -> bool {
    &&& c.initial_volume <= 15
    &&& c.current_volume <= 15
    &&& c.clock_shift <= 15
    &&& c.divisor_code <= 7
}

pub open spec fn noise_new() -> NoiseChannel {
    NoiseChannel {
        enabled: false,
        length_counter: 0,
        length_enabled: false,
        initial_volume: 0,
        envelope_direction: false,
        envelope_pace: 0,
        envelope_timer: 0,
        current_volume: 0,
        clock_shift: 0,
        width_mode: false,
        divisor_code: 0,
        lfsr: 0x7FFF,
        frequency_timer: 0,
        nr1: 0,
        nr2: 0,
        nr3: 0,
        nr4: 0,
    }
}

/// The frequency timer reload: a divisor of 8 for code 0, else sixteen
/// times the code, shifted up by the clock shift.
pub open spec fn noise_timer_reload(c: NoiseChannel) -> u32 {
    let divisor: u32 = if c.divisor_code == 0 {
        8
    } else {
        (c.divisor_code * 16) as u32
    };
    divisor << c.clock_shift
}

/// A trigger: the channel turns on, an expired length counter reloads to
/// 64, the timer restarts, the feedback register is seeded with ones, the
/// envelope restarts, and a disabled DAC keeps the channel off.
pub open spec fn noise_triggered(c: NoiseChannel) -> NoiseChannel {
    let c1 = NoiseChannel {
        enabled: c.nr2 & 0xF8 != 0,
        length_counter: if c.length_counter == 0 {
            64
        } else {
            c.length_counter
        },
        frequency_timer: noise_timer_reload(c),
        lfsr: 0x7FFF,
        current_volume: c.initial_volume,
        envelope_timer: c.envelope_pace,
        ..c
    };
    c1
}

/// A write to one of the four channel registers.
pub open spec fn noise_written(c: NoiseChannel, reg: u8, value: u8) -> NoiseChannel {
    if reg == 1 {
        NoiseChannel { nr1: value, length_counter: (64 - (value & 0x3F)) as u16, ..c }
    } else if reg == 2 {
        let c1 = NoiseChannel {
            nr2: value,
            initial_volume: (value >> 4) & 0x0F,
            envelope_direction: value & 0x08 != 0,
            envelope_pace: value & 0x07,
            ..c
        };
        if value & 0xF8 == 0 {
            NoiseChannel { enabled: false, ..c1 }
        } else {
            c1
        }
    } else if reg == 3 {
        NoiseChannel {
            nr3: value,
            clock_shift: (value >> 4) & 0x0F,
            width_mode: value & 0x08 != 0,
            divisor_code: value & 0x07,
            ..c
        }
    } else if reg == 4 {
        let c1 = NoiseChannel { nr4: value, length_enabled: value & 0x40 != 0, ..c };
        if value & 0x80 != 0 {
            noise_triggered(c1)
        } else {
            c1
        }
    } else {
        c
    }
}

/// One feedback step of the 15-bit register: the xor of its two low bits
/// shifts in at bit 14, and in width mode also replaces bit 6.
pub open spec fn lfsr_stepped(l: u16, width_mode: bool) -> u16 {
    let x = (l & 0x01) ^ ((l >> 1) & 0x01);
    let l1 = (l >> 1) | (x << 14);
    if width_mode {
        (l1 & !(1u16 << 6)) | (x << 6)
    } else {
        l1
    }
}

/// One sub-cycle of the frequency timer: on expiry it reloads and the
/// feedback register steps once.
pub open spec fn noise_freq_stepped(c: NoiseChannel) -> NoiseChannel {
    let t = if c.frequency_timer > 0 {
        (c.frequency_timer - 1) as u32
    } else {
        c.frequency_timer
    };
    if t == 0 {
        NoiseChannel {
            frequency_timer: noise_timer_reload(c),
            lfsr: lfsr_stepped(c.lfsr, c.width_mode),
            ..c
        }
    } else {
        NoiseChannel { frequency_timer: t, ..c }
    }
}

/// A length clock, as for the square channels.
pub open spec fn noise_length_stepped(c: NoiseChannel) -> NoiseChannel {
    if c.length_enabled && c.length_counter > 0 {
        let n = (c.length_counter - 1) as u16;
        NoiseChannel { length_counter: n, enabled: c.enabled && n != 0, ..c }
    } else {
        c
    }
}

/// An envelope clock, as for the square channels.
pub open spec fn noise_envelope_stepped(c: NoiseChannel) -> NoiseChannel {
    if c.envelope_pace == 0 {
        c
    } else {
        let t = if c.envelope_timer > 0 {
            (c.envelope_timer - 1) as u8
        } else {
            c.envelope_timer
        };
        if t == 0 {
            let vol = if c.envelope_direction && c.current_volume < 15 {
                (c.current_volume + 1) as u8
            } else if !c.envelope_direction && c.current_volume > 0 {
                (c.current_volume - 1) as u8
            } else {
                c.current_volume
            };
            NoiseChannel { envelope_timer: c.envelope_pace, current_volume: vol, ..c }
        } else {
            NoiseChannel { envelope_timer: t, ..c }
        }
    }
}

/// The channel's amplitude numerator in 0..=15: the current volume while
/// bit 0 of the feedback register is clear, zero otherwise.
pub open spec fn noise_output(c: NoiseChannel) -> u8 {
    if !c.enabled {
        0
    } else if c.lfsr & 0x01 == 0 {
        c.current_volume
    } else {
        0
    }
}

impl NoiseChannel {
    pub fn new() -> (r: NoiseChannel)
        ensures
            r == noise_new(),
            noise_wf(r),
    {
        NoiseChannel {
            enabled: false,
            length_counter: 0,
            length_enabled: false,
            initial_volume: 0,
            envelope_direction: false,
            envelope_pace: 0,
            envelope_timer: 0,
            current_volume: 0,
            clock_shift: 0,
            width_mode: false,
            divisor_code: 0,
            lfsr: 0x7FFF,
            frequency_timer: 0,
            nr1: 0,
            nr2: 0,
            nr3: 0,
            nr4: 0,
        }
    }

    fn get_frequency_timer(&self) -> (r: u32)
        requires
            noise_wf(*self),
        ensures
            r == noise_timer_reload(*self),
    {
        let divisor: u32 = if self.divisor_code == 0 {
            8
        } else {
            self.divisor_code as u32 * 16
        };
        divisor << self.clock_shift
    }

    fn trigger(&mut self)
        requires
            noise_wf(*old(self)),
        ensures
            *final(self) == noise_triggered(*old(self)),
            noise_wf(*final(self)),
    {
        self.enabled = true;
        if self.length_counter == 0 {
            self.length_counter = 64;
        }
        self.frequency_timer = self.get_frequency_timer();
        self.lfsr = 0x7FFF;
        self.current_volume = self.initial_volume;
        self.envelope_timer = self.envelope_pace;
        if self.nr2 & 0xF8 == 0 {
            self.enabled = false;
        }
    }

    pub fn write_register(&mut self, reg: u8, value: u8)
        requires
            noise_wf(*old(self)),
        ensures
            *final(self) == noise_written(*old(self), reg, value),
            noise_wf(*final(self)),
    {
        proof {
            lemma_mask_bounds();
        }
        if reg == 1 {
            self.nr1 = value;
            self.length_counter = 64 - (value & 0x3F) as u16;
        } else if reg == 2 {
            self.nr2 = value;
            self.initial_volume = (value >> 4) & 0x0F;
            self.envelope_direction = (value & 0x08) != 0;
            self.envelope_pace = value & 0x07;
            if value & 0xF8 == 0 {
                self.enabled = false;
            }
        } else if reg == 3 {
            self.nr3 = value;
            self.clock_shift = (value >> 4) & 0x0F;
            self.width_mode = (value & 0x08) != 0;
            self.divisor_code = value & 0x07;
        } else if reg == 4 {
            self.nr4 = value;
            self.length_enabled = (value & 0x40) != 0;
            if value & 0x80 != 0 {
                self.trigger();
            }
        }
    }

    pub fn step_frequency(&mut self)
        requires
            noise_wf(*old(self)),
        ensures
            *final(self) == noise_freq_stepped(*old(self)),
            noise_wf(*final(self)),
    {
        if self.frequency_timer > 0 {
            self.frequency_timer = self.frequency_timer - 1;
        }
        if self.frequency_timer == 0 {
            self.frequency_timer = self.get_frequency_timer();
            let xor_result = (self.lfsr & 0x01) ^ ((self.lfsr >> 1u16) & 0x01);
            self.lfsr = (self.lfsr >> 1u16) | (xor_result << 14u16);
            if self.width_mode {
                self.lfsr = (self.lfsr & !(1u16 << 6u16)) | (xor_result << 6u16);
            }
        }
    }

    pub fn step_length(&mut self)
        ensures
            *final(self) == noise_length_stepped(*old(self)),
    {
        if self.length_enabled && self.length_counter > 0 {
            self.length_counter = self.length_counter - 1;
            if self.length_counter == 0 {
                self.enabled = false;
            }
        }
    }

    pub fn step_envelope(&mut self)
        ensures
            *final(self) == noise_envelope_stepped(*old(self)),
    {
        if self.envelope_pace == 0 {
            return ;
        }
        if self.envelope_timer > 0 {
            self.envelope_timer = self.envelope_timer - 1;
        }
        if self.envelope_timer == 0 {
            self.envelope_timer = self.envelope_pace;
            if self.envelope_direction && self.current_volume < 15 {
                self.current_volume = self.current_volume + 1;
            } else if !self.envelope_direction && self.current_volume > 0 {
                self.current_volume = self.current_volume - 1;
            }
        }
    }

    /// The amplitude numerator over `15`: the volume while feedback bit 0
    /// is clear.
    pub fn output(&self) -> (r: u8)
        requires
            noise_wf(*self),
        ensures
            r == noise_output(*self),
            r <= 15,
    {
        if !self.enabled {
            return 0;
        }
        if self.lfsr & 0x01 == 0 {
            self.current_volume
        } else {
            0
        }
    }

    pub fn reset(&mut self)
        ensures
            *final(self) == noise_new(),
            noise_wf(*final(self)),
    {
        *self = NoiseChannel::new();
    }
}

/// Mathematical model of the whole audio processor.
#[verifier::ext_equal]
pub ghost struct ApuV {
    pub nr50: u8,
    pub nr51: u8,
    pub nr52: u8,
    pub channel1: SquareChannel,
    pub channel2: SquareChannel,
    pub channel3: WaveV,
    pub channel4: NoiseChannel,
    pub frame_sequencer_counter: u16,
    pub frame_sequencer_step: u8,
    pub sample_counter: u32,
    pub sample_rate: u32,
    pub samples: Seq<(u16, u16)>,
}

pub struct APU {
    pub nr50: u8,
    pub nr51: u8,
    pub nr52: u8,
    pub channel1: SquareChannel,
    pub channel2: SquareChannel,
    pub channel3: WaveChannel,
    pub channel4: NoiseChannel,
    pub frame_sequencer_counter: u16,
    pub frame_sequencer_step: u8,
    pub sample_counter: u32,
    pub sample_rate: u32,
    /// Stereo samples scaled by `SAMPLE_SCALE`, drained by `take_samples`.
    pub sample_buffer: Vec<(u16, u16)>,
}

impl View for APU {
    type V = ApuV;

    open spec fn view(&self) -> ApuV {
        ApuV {
            nr50: self.nr50,
            nr51: self.nr51,
            nr52: self.nr52,
            channel1: self.channel1,
            channel2: self.channel2,
            channel3: self.channel3@,
            channel4: self.channel4,
            frame_sequencer_counter: self.frame_sequencer_counter,
            frame_sequencer_step: self.frame_sequencer_step,
            sample_counter: self.sample_counter,
            sample_rate: self.sample_rate,
            samples: self.sample_buffer@,
        }
    }
}

/// Every buffered sample component is at most `SAMPLE_SCALE`.
pub open spec fn samples_bounded(s: Seq<(u16, u16)>) -> bool {
    forall|i: int| 0 <= i < s.len() ==> (#[trigger] s[i]).0 <= 480 && s[i].1 <= 480
}

pub open spec fn apu_wf(a: ApuV) -> bool {
    &&& sq_wf(a.channel1)
    &&& sq_wf(a.channel2)
    &&& wave_wf(a.channel3)
    &&& noise_wf(a.channel4)
    &&& a.frame_sequencer_counter < 8192
    &&& a.frame_sequencer_step < 8
    &&& a.sample_counter < 4194304
    &&& a.sample_rate <= 4194304
    &&& samples_bounded(a.samples)
}

pub open spec fn apu_powered(a: ApuV) -> bool {
    a.nr52 & 0x80 != 0
}

/// The register an address resolves to. Write-only bits read as ones
/// through the per-register masks, NR52 reports power and the four live
/// channel flags, wave RAM is always readable, and everything else in the
/// block reads 0xFF.
#[verifier::opaque]
pub open spec fn apu_read(a: ApuV, address: u16) -> u8 {
    if address == 0xFF10 {
        a.channel1.nr0 | 0x80
    } else if address == 0xFF11 {
        a.channel1.nr1 | 0x3F
    } else if address == 0xFF12 {
        a.channel1.nr2
    } else if address == 0xFF13 {
        0xFF
    } else if address == 0xFF14 {
        a.channel1.nr4 | 0xBF
    } else if address == 0xFF16 {
        a.channel2.nr1 | 0x3F
    } else if address == 0xFF17 {
        a.channel2.nr2
    } else if address == 0xFF18 {
        0xFF
    } else if address == 0xFF19 {
        a.channel2.nr4 | 0xBF
    } else if address == 0xFF1A {
        a.channel3.nr0 | 0x7F
    } else if address == 0xFF1B {
        0xFF
    } else if address == 0xFF1C {
        a.channel3.nr2 | 0x9F
    } else if address == 0xFF1D {
        0xFF
    } else if address == 0xFF1E {
        a.channel3.nr4 | 0xBF
    } else if address == 0xFF20 {
        0xFF
    } else if address == 0xFF21 {
        a.channel4.nr2
    } else if address == 0xFF22 {
        a.channel4.nr3
    } else if address == 0xFF23 {
        a.channel4.nr4 | 0xBF
    } else if address == 0xFF24 {
        a.nr50
    } else if address == 0xFF25 {
        a.nr51
    } else if address == 0xFF26 {
        let base = (a.nr52 & 0x80) | 0x70;
        let base = if a.channel1.enabled {
            base | 0x01
        } else {
            base
        };
        let base = if a.channel2.enabled {
            base | 0x02
        } else {
            base
        };
        let base = if a.channel3.enabled {
            base | 0x04
        } else {
            base
        };
        if a.channel4.enabled {
            base | 0x08
        } else {
            base
        }
    } else if 0xFF30 <= address && address <= 0xFF3F {
        a.channel3.wave_ram[address - 0xFF30]
    } else {
        0xFF
    }
}

/// The processor after a register write. Wave RAM and NR52 are always
/// writable; powering off resets the channels and the two mixer registers
/// but keeps wave RAM; with power off only the length registers of the
/// four channels still take writes.
#[verifier::opaque]
pub open spec fn apu_written(a: ApuV, address: u16, value: u8) -> ApuV {
    if 0xFF30 <= address && address <= 0xFF3F {
        ApuV {
            channel3: WaveV {
                wave_ram: a.channel3.wave_ram.update(address - 0xFF30, value),
                ..a.channel3
            },
            ..a
        }
    } else if address == 0xFF26 {
        let a1 = ApuV { nr52: (a.nr52 & 0x7F) | (value & 0x80), ..a };
        if apu_powered(a) && !apu_powered(a1) {
            ApuV {
                channel1: sq_new(a.channel1.has_sweep),
                channel2: sq_new(a.channel2.has_sweep),
                channel3: wave_new(a.channel3.wave_ram),
                channel4: noise_new(),
                nr50: 0,
                nr51: 0,
                ..a1
            }
        } else {
            a1
        }
    } else if !apu_powered(a) {
        if address == 0xFF11 {
            ApuV { channel1: sq_written(a.channel1, 1, value), ..a }
        } else if address == 0xFF16 {
            ApuV { channel2: sq_written(a.channel2, 1, value), ..a }
        } else if address == 0xFF1B {
            ApuV { channel3: wave_written(a.channel3, 1, value), ..a }
        } else if address == 0xFF20 {
            ApuV { channel4: noise_written(a.channel4, 1, value), ..a }
        } else {
            a
        }
    } else if address == 0xFF10 {
        ApuV { channel1: sq_written(a.channel1, 0, value), ..a }
    } else if address == 0xFF11 {
        ApuV { channel1: sq_written(a.channel1, 1, value), ..a }
    } else if address == 0xFF12 {
        ApuV { channel1: sq_written(a.channel1, 2, value), ..a }
    } else if address == 0xFF13 {
        ApuV { channel1: sq_written(a.channel1, 3, value), ..a }
    } else if address == 0xFF14 {
        ApuV { channel1: sq_written(a.channel1, 4, value), ..a }
    } else if address == 0xFF16 {
        ApuV { channel2: sq_written(a.channel2, 1, value), ..a }
    } else if address == 0xFF17 {
        ApuV { channel2: sq_written(a.channel2, 2, value), ..a }
    } else if address == 0xFF18 {
        ApuV { channel2: sq_written(a.channel2, 3, value), ..a }
    } else if address == 0xFF19 {
        ApuV { channel2: sq_written(a.channel2, 4, value), ..a }
    } else if address == 0xFF1A {
        ApuV { channel3: wave_written(a.channel3, 0, value), ..a }
    } else if address == 0xFF1B {
        ApuV { channel3: wave_written(a.channel3, 1, value), ..a }
    } else if address == 0xFF1C {
        ApuV { channel3: wave_written(a.channel3, 2, value), ..a }
    } else if address == 0xFF1D {
        ApuV { channel3: wave_written(a.channel3, 3, value), ..a }
    } else if address == 0xFF1E {
        ApuV { channel3: wave_written(a.channel3, 4, value), ..a }
    } else if address == 0xFF20 {
        ApuV { channel4: noise_written(a.channel4, 1, value), ..a }
    } else if address == 0xFF21 {
        ApuV { channel4: noise_written(a.channel4, 2, value), ..a }
    } else if address == 0xFF22 {
        ApuV { channel4: noise_written(a.channel4, 3, value), ..a }
    } else if address == 0xFF23 {
        ApuV { channel4: noise_written(a.channel4, 4, value), ..a }
    } else if address == 0xFF24 {
        ApuV { nr50: value, ..a }
    } else if address == 0xFF25 {
        ApuV { nr51: value, ..a }
    } else {
        a
    }
}

/// One frame-sequencer clock: length on even steps, sweep on steps 2 and
/// 6, envelope on step 7; then the three-bit step counter advances.
pub open spec fn fs_clocked(a: ApuV) -> ApuV {
    let s = a.frame_sequencer_step;
    let a1 = if s == 0 || s == 2 || s == 4 || s == 6 {
        ApuV {
            channel1: sq_length_stepped(a.channel1),
            channel2: sq_length_stepped(a.channel2),
            channel3: wave_length_stepped(a.channel3),
            channel4: noise_length_stepped(a.channel4),
            ..a
        }
    } else {
        a
    };
    let a2 = if s == 2 || s == 6 {
        ApuV { channel1: sq_sweep_stepped(a1.channel1), ..a1 }
    } else {
        a1
    };
    let a3 = if s == 7 {
        ApuV {
            channel1: sq_envelope_stepped(a2.channel1),
            channel2: sq_envelope_stepped(a2.channel2),
            channel4: noise_envelope_stepped(a2.channel4),
            ..a2
        }
    } else {
        a2
    };
    ApuV { frame_sequencer_step: ((s + 1) % 8) as u8, ..a3 }
}

/// The mixed stereo sample, scaled by `SAMPLE_SCALE`: NR51 routes each
/// channel's output to either side, and NR50's three-bit volumes scale
/// each side by (volume + 1) / 8.
pub open spec fn mixed_sample(a: ApuV) -> (u16, u16) {
    let c1 = sq_output(a.channel1) as int;
    let c2 = sq_output(a.channel2) as int;
    let c3 = wave_output(a.channel3) as int;
    let c4 = noise_output(a.channel4) as int;
    let left = (if a.nr51 & 0x10 != 0 {
        c1
    } else {
        0
    }) + (if a.nr51 & 0x20 != 0 {
        c2
    } else {
        0
    }) + (if a.nr51 & 0x40 != 0 {
        c3
    } else {
        0
    }) + (if a.nr51 & 0x80 != 0 {
        c4
    } else {
        0
    });
    let right = (if a.nr51 & 0x01 != 0 {
        c1
    } else {
        0
    }) + (if a.nr51 & 0x02 != 0 {
        c2
    } else {
        0
    }) + (if a.nr51 & 0x04 != 0 {
        c3
    } else {
        0
    }) + (if a.nr51 & 0x08 != 0 {
        c4
    } else {
        0
    });
    let left_vol = ((a.nr50 >> 4) & 0x07) + 1;
    let right_vol = (a.nr50 & 0x07) + 1;
    ((left * left_vol) as u16, (right * right_vol) as u16)
}

/// One T-cycle of the powered processor: the four frequency timers tick,
/// the frame sequencer fires every `FRAME_SEQUENCER_RATE` T-cycles, and
/// the sample counter accumulates the sample rate, emitting one mixed
/// sample each time it reaches the master clock.
pub open spec fn apu_tick(a: ApuV) -> ApuV {
    let a1 = ApuV {
        channel1: sq_freq_stepped(a.channel1),
        channel2: sq_freq_stepped(a.channel2),
        channel3: wave_freq_stepped(a.channel3),
        channel4: noise_freq_stepped(a.channel4),
        ..a
    };
    let a2 = if a1.frame_sequencer_counter + 1 >= FRAME_SEQUENCER_RATE {
        fs_clocked(ApuV { frame_sequencer_counter: 0, ..a1 })
    } else {
        ApuV { frame_sequencer_counter: (a1.frame_sequencer_counter + 1) as u16, ..a1 }
    };
    let total = a2.sample_counter + a2.sample_rate;
    if total >= CPU_CLOCK {
        ApuV {
            sample_counter: (total - CPU_CLOCK) as u32,
            samples: a2.samples.push(mixed_sample(a2)),
            ..a2
        }
    } else {
        ApuV { sample_counter: total as u32, ..a2 }
    }
}

/// `n` T-cycles of the powered processor.
pub open spec fn apu_ticks(a: ApuV, n: nat) -> ApuV
    decreases n,
{
    if n == 0 {
        a
    } else {
        apu_tick(apu_ticks(a, (n - 1) as nat))
    }
}

/// The processor after `cpu_cycles` elapsed T-cycles; with power off
/// nothing moves.
#[verifier::opaque]
pub open spec fn apu_stepped(a: ApuV, cpu_cycles: u8) -> ApuV {
    if apu_powered(a) {
        apu_ticks(a, cpu_cycles as nat)
    } else {
        a
    }
}

/// The audio processor at power-on: power off, every channel silent, a
/// 44.1 kHz sample rate and an empty sample buffer.
pub open spec fn apu_init() -> ApuV {
    ApuV {
        nr50: 0,
        nr51: 0,
        nr52: 0,
        channel1: sq_new(true),
        channel2: sq_new(false),
        channel3: wave_new(Seq::new(16, |i: int| 0u8)),
        channel4: noise_new(),
        frame_sequencer_counter: 0,
        frame_sequencer_step: 0,
        sample_counter: 0,
        sample_rate: 44100,
        samples: Seq::empty(),
    }
}

impl APU {
    pub fn new() -> (r: APU)
        ensures
            r@ == apu_init(),
            apu_wf(r@),
    {
        let r = APU {
            nr50: 0,
            nr51: 0,
            nr52: 0,
            channel1: SquareChannel::new(true),
            channel2: SquareChannel::new(false),
            channel3: WaveChannel::new(),
            channel4: NoiseChannel::new(),
            frame_sequencer_counter: 0,
            frame_sequencer_step: 0,
            sample_counter: 0,
            sample_rate: 44100,
            sample_buffer: Vec::new(),
        };
        proof {
            assert(r@ =~= apu_init());
        }
        r
    }

    fn is_powered(&self) -> (r: bool)
        ensures
            r == apu_powered(self@),
    {
        self.nr52 & 0x80 != 0
    }

    pub fn read_register(&self, address: u16) -> (r: u8)
        requires
            apu_wf(self@),
        ensures
            r == apu_read(self@, address),
    {
        proof {
            reveal(apu_read);
        }
        if address == 0xFF10 {
            self.channel1.nr0 | 0x80
        } else if address == 0xFF11 {
            self.channel1.nr1 | 0x3F
        } else if address == 0xFF12 {
            self.channel1.nr2
        } else if address == 0xFF13 {
            0xFF
        } else if address == 0xFF14 {
            self.channel1.nr4 | 0xBF
        } else if address == 0xFF16 {
            self.channel2.nr1 | 0x3F
        } else if address == 0xFF17 {
            self.channel2.nr2
        } else if address == 0xFF18 {
            0xFF
        } else if address == 0xFF19 {
            self.channel2.nr4 | 0xBF
        } else if address == 0xFF1A {
            self.channel3.nr0 | 0x7F
        } else if address == 0xFF1B {
            0xFF
        } else if address == 0xFF1C {
            self.channel3.nr2 | 0x9F
        } else if address == 0xFF1D {
            0xFF
        } else if address == 0xFF1E {
            self.channel3.nr4 | 0xBF
        } else if address == 0xFF20 {
            0xFF
        } else if address == 0xFF21 {
            self.channel4.nr2
        } else if address == 0xFF22 {
            self.channel4.nr3
        } else if address == 0xFF23 {
            self.channel4.nr4 | 0xBF
        } else if address == 0xFF24 {
            self.nr50
        } else if address == 0xFF25 {
            self.nr51
        } else if address == 0xFF26 {
            let mut value = (self.nr52 & 0x80) | 0x70;
            if self.channel1.enabled {
                value = value | 0x01;
            }
            if self.channel2.enabled {
                value = value | 0x02;
            }
            if self.channel3.enabled {
                value = value | 0x04;
            }
            if self.channel4.enabled {
                value = value | 0x08;
            }
            value
        } else if 0xFF30 <= address && address <= 0xFF3F {
            self.channel3.wave_ram[(address - 0xFF30) as usize]
        } else {
            0xFF
        }
    }

    pub fn write_register(&mut self, address: u16, value: u8)
        requires
            apu_wf(old(self)@),
        ensures
            final(self)@ == apu_written(old(self)@, address, value),
            apu_wf(final(self)@),
    {
        proof {
            reveal(apu_written);
        }
        if 0xFF30 <= address && address <= 0xFF3F {
            self.channel3.wave_ram[(address - 0xFF30) as usize] = value;
            proof {
                assert(self@ =~= apu_written(old(self)@, address, value));
            }
            return ;
        }
        if address == 0xFF26 {
            let was_on = self.is_powered();
            self.nr52 = (self.nr52 & 0x7F) | (value & 0x80);
            if was_on && !self.is_powered() {
                self.channel1.reset();
                self.channel2.reset();
                self.channel3.reset();
                self.channel4.reset();
                self.nr50 = 0;
                self.nr51 = 0;
            }
            return ;
        }
        if !self.is_powered() {
            if address == 0xFF11 {
                self.channel1.write_register(1, value);
            } else if address == 0xFF16 {
                self.channel2.write_register(1, value);
            } else if address == 0xFF1B {
                self.channel3.write_register(1, value);
            } else if address == 0xFF20 {
                self.channel4.write_register(1, value);
            }
            return ;
        }
        if address == 0xFF10 {
            self.channel1.write_register(0, value);
        } else if address == 0xFF11 {
            self.channel1.write_register(1, value);
        } else if address == 0xFF12 {
            self.channel1.write_register(2, value);
        } else if address == 0xFF13 {
            self.channel1.write_register(3, value);
        } else if address == 0xFF14 {
            self.channel1.write_register(4, value);
        } else if address == 0xFF16 {
            self.channel2.write_register(1, value);
        } else if address == 0xFF17 {
            self.channel2.write_register(2, value);
        } else if address == 0xFF18 {
            self.channel2.write_register(3, value);
        } else if address == 0xFF19 {
            self.channel2.write_register(4, value);
        } else if address == 0xFF1A {
            self.channel3.write_register(0, value);
        } else if address == 0xFF1B {
            self.channel3.write_register(1, value);
        } else if address == 0xFF1C {
            self.channel3.write_register(2, value);
        } else if address == 0xFF1D {
            self.channel3.write_register(3, value);
        } else if address == 0xFF1E {
            self.channel3.write_register(4, value);
        } else if address == 0xFF20 {
            self.channel4.write_register(1, value);
        } else if address == 0xFF21 {
            self.channel4.write_register(2, value);
        } else if address == 0xFF22 {
            self.channel4.write_register(3, value);
        } else if address == 0xFF23 {
            self.channel4.write_register(4, value);
        } else if address == 0xFF24 {
            self.nr50 = value;
        } else if address == 0xFF25 {
            self.nr51 = value;
        }
    }

    fn clock_length(&mut self)
        ensures
            final(self)@ == (ApuV {
                channel1: sq_length_stepped(old(self)@.channel1),
                channel2: sq_length_stepped(old(self)@.channel2),
                channel3: wave_length_stepped(old(self)@.channel3),
                channel4: noise_length_stepped(old(self)@.channel4),
                ..old(self)@
            }),
    {
        self.channel1.step_length();
        self.channel2.step_length();
        self.channel3.step_length();
        self.channel4.step_length();
    }

    fn clock_sweep(&mut self)
        requires
            sq_wf(old(self)@.channel1),
        ensures
            final(self)@ == (ApuV { channel1: sq_sweep_stepped(old(self)@.channel1), ..old(self)@ }),
            sq_wf(final(self)@.channel1),
    {
        self.channel1.step_sweep();
    }

    fn clock_envelope(&mut self)
        ensures
            final(self)@ == (ApuV {
                channel1: sq_envelope_stepped(old(self)@.channel1),
                channel2: sq_envelope_stepped(old(self)@.channel2),
                channel4: noise_envelope_stepped(old(self)@.channel4),
                ..old(self)@
            }),
    {
        self.channel1.step_envelope();
        self.channel2.step_envelope();
        self.channel4.step_envelope();
    }

    fn clock_frame_sequencer(&mut self)
        requires
            apu_wf(old(self)@),
            old(self)@.frame_sequencer_counter == 0,
        ensures
            final(self)@ == fs_clocked(old(self)@),
            apu_wf(final(self)@),
    {
        let s = self.frame_sequencer_step;
        if s == 0 || s == 2 || s == 4 || s == 6 {
            self.clock_length();
        }
        if s == 2 || s == 6 {
            self.clock_sweep();
        }
        if s == 7 {
            self.clock_envelope();
        }
        self.frame_sequencer_step = (s + 1) % 8;
    }

    #[verifier::rlimit(100)]
    fn mix_samples(&self) -> (r: (u16, u16))
        requires
            apu_wf(self@),
        ensures
            r == mixed_sample(self@),
            r.0 <= 480,
            r.1 <= 480,
    {
        let c1 = self.channel1.output() as u16;
        let c2 = self.channel2.output() as u16;
        let c3 = self.channel3.output() as u16;
        let c4 = self.channel4.output() as u16;

        let mut left: u16 = 0;
        let mut right: u16 = 0;
        if self.nr51 & 0x10 != 0 {
            left = left + c1;
        }
        if self.nr51 & 0x20 != 0 {
            left = left + c2;
        }
        if self.nr51 & 0x40 != 0 {
            left = left + c3;
        }
        if self.nr51 & 0x80 != 0 {
            left = left + c4;
        }
        if self.nr51 & 0x01 != 0 {
            right = right + c1;
        }
        if self.nr51 & 0x02 != 0 {
            right = right + c2;
        }
        if self.nr51 & 0x04 != 0 {
            right = right + c3;
        }
        if self.nr51 & 0x08 != 0 {
            right = right + c4;
        }

        proof {
            lemma_mask_bounds();
        }
        let left_vol: u16 = ((self.nr50 >> 4) & 0x07) as u16 + 1;
        let right_vol: u16 = (self.nr50 & 0x07) as u16 + 1;
        proof {
            assert(left <= 60 && right <= 60 && left_vol <= 8 && right_vol <= 8);
            assert(left * left_vol <= 480 && right * right_vol <= 480) by (nonlinear_arith)
                requires
                    left <= 60 && right <= 60 && left_vol <= 8 && right_vol <= 8,
            ;
        }
        (left * left_vol, right * right_vol)
    }

    /// Advances the powered processor by the elapsed T-cycles; with power
    /// off nothing moves.
    #[verifier::rlimit(100)]
    pub fn step(&mut self, cpu_cycles: u8)
        requires
            apu_wf(old(self)@),
        ensures
            final(self)@ == apu_stepped(old(self)@, cpu_cycles),
            apu_wf(final(self)@),
    {
        proof {
            reveal(apu_stepped);
        }
        if !self.is_powered() {
            return ;
        }
        let ghost a0 = self@;
        let t_cycles: u32 = cpu_cycles as u32;
        let mut t: u32 = 0;
        while t < t_cycles
            invariant
                t <= t_cycles,
                t_cycles == cpu_cycles,
                self@ == apu_ticks(a0, t as nat),
                apu_wf(self@),
            decreases t_cycles - t,
        {
            self.channel1.step_frequency();
            self.channel2.step_frequency();
            self.channel3.step_frequency();
            self.channel4.step_frequency();

            self.frame_sequencer_counter = self.frame_sequencer_counter + 1;
            if self.frame_sequencer_counter >= FRAME_SEQUENCER_RATE {
                self.frame_sequencer_counter = 0;
                self.clock_frame_sequencer();
            }

            self.sample_counter = self.sample_counter + self.sample_rate;
            if self.sample_counter >= CPU_CLOCK {
                self.sample_counter = self.sample_counter - CPU_CLOCK;
                let sample = self.mix_samples();
                self.sample_buffer.push(sample);
            }
            t = t + 1;
            proof {
                assert(self@ =~= apu_ticks(a0, t as nat));
            }
        }
    }

    /// Drains and returns the buffered stereo samples, each component at
    /// most `SAMPLE_SCALE`.
    pub fn take_samples(&mut self) -> (r: Vec<(u16, u16)>)
        requires
            apu_wf(old(self)@),
        ensures
            r@ == old(self)@.samples,
            final(self)@ == (ApuV { samples: Seq::<(u16, u16)>::empty(), ..old(self)@ }),
            apu_wf(final(self)@),
            forall|i: int| 0 <= i < r@.len() ==> (#[trigger] r@[i]).0 <= 480 && r@[i].1 <= 480,
    {
        let r = self.sample_buffer.split_off(0);
        proof {
            assert(r@ =~= old(self)@.samples);
            assert(self@.samples =~= Seq::<(u16, u16)>::empty());
            assert(self@ =~= (ApuV { samples: Seq::<(u16, u16)>::empty(), ..old(self)@ }));
        }
        r
    }
}

} // verus!
