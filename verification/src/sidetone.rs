//! Sidetone generator: a sine oscillator with an attack/decay envelope.
//!
//! Everything is fixed point. The phase is a binary fraction of one cycle:
//! 4294967296 phase units make one full turn, so the phase is always inside
//! one turn by construction and wraps exactly. The waveform is a 256-point
//! sine built from a quarter-wave table in units of 32767 to one; envelope
//! and volume run on a scale of 32768 to one. A sample is the table value
//! scaled by envelope and volume, so it always stays within one full scale.

use vstd::prelude::*;
use crate::arith::lemma_scale_down_bounded;

verus! {

/// One full turn of phase.
pub open spec fn turn() -> int {
    0x1_0000_0000
}

/// Quarter-wave sine table: `sin(k * pi / 128)` for `k` in 0..=64, in units
/// of 32767 to one.
pub open spec fn quarter_sine_spec(k: int) -> int {
    if k == 0 {
        0
    } else if k == 1 {
        804
    } else if k == 2 {
        1608
    } else if k == 3 {
        2410
    } else if k == 4 {
        3212
    } else if k == 5 {
        4011
    } else if k == 6 {
        4808
    } else if k == 7 {
        5602
    } else if k == 8 {
        6393
    } else if k == 9 {
        7179
    } else if k == 10 {
        7962
    } else if k == 11 {
        8739
    } else if k == 12 {
        9512
    } else if k == 13 {
        10278
    } else if k == 14 {
        11039
    } else if k == 15 {
        11793
    } else if k == 16 {
        12539
    } else if k == 17 {
        13279
    } else if k == 18 {
        14010
    } else if k == 19 {
        14732
    } else if k == 20 {
        15446
    } else if k == 21 {
        16151
    } else if k == 22 {
        16846
    } else if k == 23 {
        17530
    } else if k == 24 {
        18204
    } else if k == 25 {
        18868
    } else if k == 26 {
        19519
    } else if k == 27 {
        20159
    } else if k == 28 {
        20787
    } else if k == 29 {
        21403
    } else if k == 30 {
        22005
    } else if k == 31 {
        22594
    } else if k == 32 {
        23170
    } else if k == 33 {
        23731
    } else if k == 34 {
        24279
    } else if k == 35 {
        24811
    } else if k == 36 {
        25329
    } else if k == 37 {
        25832
    } else if k == 38 {
        26319
    } else if k == 39 {
        26790
    } else if k == 40 {
        27245
    } else if k == 41 {
        27683
    } else if k == 42 {
        28105
    } else if k == 43 {
        28510
    } else if k == 44 {
        28898
    } else if k == 45 {
        29268
    } else if k == 46 {
        29621
    } else if k == 47 {
        29956
    } else if k == 48 {
        30273
    } else if k == 49 {
        30571
    } else if k == 50 {
        30852
    } else if k == 51 {
        31113
    } else if k == 52 {
        31356
    } else if k == 53 {
        31580
    } else if k == 54 {
        31785
    } else if k == 55 {
        31971
    } else if k == 56 {
        32137
    } else if k == 57 {
        32285
    } else if k == 58 {
        32412
    } else if k == 59 {
        32521
    } else if k == 60 {
        32609
    } else if k == 61 {
        32678
    } else if k == 62 {
        32728
    } else if k == 63 {
        32757
    } else if k == 64 {
        32767
    } else {
        0
    }
}

/// Executable quarter-wave sine table.
#[verifier::rlimit(30)]
fn quarter_sine(k: u32) -> (v: u16)
    ensures
        v == quarter_sine_spec(k as int),
{
    match k {
        0 => 0,
        1 => 804,
        2 => 1608,
        3 => 2410,
        4 => 3212,
        5 => 4011,
        6 => 4808,
        7 => 5602,
        8 => 6393,
        9 => 7179,
        10 => 7962,
        11 => 8739,
        12 => 9512,
        13 => 10278,
        14 => 11039,
        15 => 11793,
        16 => 12539,
        17 => 13279,
        18 => 14010,
        19 => 14732,
        20 => 15446,
        21 => 16151,
        22 => 16846,
        23 => 17530,
        24 => 18204,
        25 => 18868,
        26 => 19519,
        27 => 20159,
        28 => 20787,
        29 => 21403,
        30 => 22005,
        31 => 22594,
        32 => 23170,
        33 => 23731,
        34 => 24279,
        35 => 24811,
        36 => 25329,
        37 => 25832,
        38 => 26319,
        39 => 26790,
        40 => 27245,
        41 => 27683,
        42 => 28105,
        43 => 28510,
        44 => 28898,
        45 => 29268,
        46 => 29621,
        47 => 29956,
        48 => 30273,
        49 => 30571,
        50 => 30852,
        51 => 31113,
        52 => 31356,
        53 => 31580,
        54 => 31785,
        55 => 31971,
        56 => 32137,
        57 => 32285,
        58 => 32412,
        59 => 32521,
        60 => 32609,
        61 => 32678,
        62 => 32728,
        63 => 32757,
        64 => 32767,
        _ => 0,
    }
}

/// Every table value lies within 0..=32767.
pub proof fn lemma_quarter_sine_bounds(k: int)
    ensures
        0 <= quarter_sine_spec(k) <= 32767,
{
}

/// Magnitude of the 256-point sine at a phase, read from the quarter-wave
/// table with the usual symmetries.
pub open spec fn sine_magnitude_spec(phase: int) -> int {
    let idx = phase / 0x0100_0000;
    let quadrant = idx / 64;
    let k = idx % 64;
    if quadrant % 2 == 0 {
        quarter_sine_spec(k)
    } else {
        quarter_sine_spec(64 - k)
    }
}

/// Whether the sine is in its negative half-turn at a phase.
pub open spec fn sine_negative_spec(phase: int) -> bool {
    phase / 0x0100_0000 / 64 >= 2
}

/// Per-sample envelope step: the envelope crosses full scale in 5 ms, so
/// one step is 32768 over 5 ms of samples, that is 6553600 / rate.
pub open spec fn ramp_rate_spec(rate: int) -> int {
    6_553_600int / rate
}

/// Phase advance per sample: `frequency / rate` turns, folded into one
/// turn. Working with `frequency % rate` keeps the arithmetic exact: whole
/// turns vanish from the phase anyway.
pub open spec fn phase_increment_spec(frequency: int, rate: int) -> int {
    ((frequency % rate) * turn()) / rate
}

/// The value of one output sample: the sine at `phase`, scaled by envelope
/// and volume (each on a scale of 32768 to one).
pub open spec fn sample_spec(phase: int, envelope: int, volume: int) -> int {
    let mag = sine_magnitude_spec(phase) * envelope / 32768 * volume / 32768;
    if sine_negative_spec(phase) {
        -mag
    } else {
        mag
    }
}

/// One envelope move: toward full scale while the key is down, toward zero
/// while it is up, clamped at the scale ends.
pub open spec fn envelope_step_spec(env: int, rate: int, key_down: bool) -> int {
    let ramp = ramp_rate_spec(rate);
    if key_down {
        if env + ramp <= 32768 {
            env + ramp
        } else {
            32768
        }
    } else {
        if env - ramp >= 0 {
            env - ramp
        } else {
            0
        }
    }
}

/// The generator's state as plain values.
#[verifier::ext_equal]
pub struct GenView {
    pub phase: int,
    pub envelope: int,
    pub volume: int,
    pub frequency: int,
    pub rate: int,
}

/// Exactly what one `next_sample` call does: envelope first, then the
/// sample at the old phase with the new envelope, then the phase advance.
pub open spec fn gen_step_spec(g: GenView, key_down: bool) -> (GenView, int) {
    let env = envelope_step_spec(g.envelope, g.rate, key_down);
    let s = sample_spec(g.phase, env, g.volume);
    let phase = (g.phase + phase_increment_spec(g.frequency, g.rate)) % turn();
    ((GenView { phase, envelope: env, ..g }), s)
}

/// Sidetone generator with attack/decay envelope.
pub struct SidetoneGenerator {
    /// Phase within one turn, in units of one 4294967296th of a turn.
    phase: u32,
    /// Phase advance per sample, always less than one turn.
    phase_increment: u32,
    /// Sample rate in hertz.
    sample_rate: u32,
    /// Frequency in hertz.
    frequency: u32,
    /// Volume on a scale of 32768 to one.
    volume: u16,
    /// Envelope on a scale of 32768 to one.
    envelope: u16,
    /// Envelope rise per sample while the key is down.
    attack_rate: u32,
    /// Envelope fall per sample while the key is up.
    decay_rate: u32,
}

impl SidetoneGenerator {
    pub closed spec fn wf(&self) -> bool {
        &&& 1 <= self.sample_rate <= 1_000_000
        &&& self.envelope <= 32768
        &&& self.volume <= 32768
        &&& self.phase_increment == phase_increment_spec(
            self.frequency as int,
            self.sample_rate as int,
        )
        &&& self.attack_rate == ramp_rate_spec(self.sample_rate as int)
        &&& self.decay_rate == ramp_rate_spec(self.sample_rate as int)
    }

    pub open spec fn phase_spec(&self) -> int {
        self.gen_view().phase
    }

    pub open spec fn envelope_spec(&self) -> int {
        self.gen_view().envelope
    }

    pub open spec fn volume_spec(&self) -> int {
        self.gen_view().volume
    }

    pub open spec fn frequency_spec(&self) -> int {
        self.gen_view().frequency
    }

    pub open spec fn sample_rate_spec(&self) -> int {
        self.gen_view().rate
    }

    /// The whole state as plain values.
    pub closed spec fn gen_view(&self) -> GenView {
        GenView {
            phase: self.phase as int,
            envelope: self.envelope as int,
            volume: self.volume as int,
            frequency: self.frequency as int,
            rate: self.sample_rate as int,
        }
    }

    pub fn new(frequency: u32, volume: u16, sample_rate: u32) -> (r: Self)
        requires
            1 <= sample_rate <= 1_000_000,
        ensures
            r.wf(),
            r.phase_spec() == 0,
            r.envelope_spec() == 0,
            r.frequency_spec() == frequency,
            r.sample_rate_spec() == sample_rate,
            r.volume_spec() == (if volume <= 32768 {
                volume as int
            } else {
                32768
            }),
    {
        let phase_increment = Self::compute_increment(frequency, sample_rate);
        let ramp = 6_553_600u32 / sample_rate;
        SidetoneGenerator {
            phase: 0,
            phase_increment,
            sample_rate,
            frequency,
            volume: if volume <= 32768 {
                volume
            } else {
                32768
            },
            envelope: 0,
            attack_rate: ramp,
            decay_rate: ramp,
        }
    }

    /// The phase advance for one sample, folded into one turn.
    fn compute_increment(frequency: u32, rate: u32) -> (r: u32)
        requires
            1 <= rate <= 1_000_000,
        ensures
            r == phase_increment_spec(frequency as int, rate as int),
            r < 0x1_0000_0000,
    {
        let folded = (frequency % rate) as u64;
        proof {
            let f = folded as int;
            let ri = rate as int;
            let t = 0x1_0000_0000int;
            let q = (f * t) / ri;
            vstd::arithmetic::div_mod::lemma_fundamental_div_mod(f * t, ri);
            vstd::arithmetic::div_mod::lemma_mod_bound(f * t, ri);
            assert(q < t) by (nonlinear_arith)
                requires
                    f * t == ri * q + (f * t) % ri,
                    0 <= (f * t) % ri < ri,
                    0 <= f < ri,
                    t >= 1,
            ;
        }
        ((folded * 0x1_0000_0000u64) / (rate as u64)) as u32
    }

    /// Generate the next audio sample: advance the envelope toward full
    /// scale (key down) or zero (key up), emit the sine at the current
    /// phase scaled by envelope and volume, then advance and wrap the
    /// phase. The envelope moves monotonically and stays within full
    /// scale; the phase always stays within one turn.
    pub fn next_sample(&mut self, key_down: bool) -> (s: i32)
        requires
            old(self).wf(),
        ensures
            final(self).wf(),
            key_down ==> old(self).envelope_spec() <= final(self).envelope_spec() <= 32768,
            !key_down ==> 0 <= final(self).envelope_spec() <= old(self).envelope_spec(),
            final(self).envelope_spec() == envelope_step_spec(
                old(self).envelope_spec(),
                old(self).sample_rate_spec(),
                key_down,
            ),
            final(self).gen_view() == gen_step_spec(old(self).gen_view(), key_down).0,
            s as int == gen_step_spec(old(self).gen_view(), key_down).1,
            s == sample_spec(
                old(self).phase_spec(),
                final(self).envelope_spec(),
                old(self).volume_spec(),
            ),
            -32767 <= s <= 32767,
            final(self).phase_spec() == (old(self).phase_spec() + phase_increment_spec(
                old(self).frequency_spec(),
                old(self).sample_rate_spec(),
            )) % turn(),
            0 <= final(self).phase_spec() < turn(),
            final(self).volume_spec() == old(self).volume_spec(),
            final(self).frequency_spec() == old(self).frequency_spec(),
            final(self).sample_rate_spec() == old(self).sample_rate_spec(),
    {
        // Envelope attack/decay, saturating at the scale ends.
        if key_down {
            let grown: u32 = (self.envelope as u32) + self.attack_rate;
            self.envelope = if grown <= 32768 {
                grown as u16
            } else {
                32768
            };
        } else {
            let rate = self.decay_rate;
            self.envelope = if (self.envelope as u32) >= rate {
                ((self.envelope as u32) - rate) as u16
            } else {
                0
            };
        }
        // Sine magnitude and sign from the quarter-wave table.
        let idx: u32 = self.phase / 0x0100_0000;
        let quadrant: u32 = idx / 64;
        let k: u32 = idx % 64;
        let mag: u16 = if quadrant % 2 == 0 {
            quarter_sine(k)
        } else {
            quarter_sine(64 - k)
        };
        proof {
            lemma_quarter_sine_bounds(k as int);
            lemma_quarter_sine_bounds(64 - k as int);
            lemma_scale_down_bounded(mag as int, self.envelope as int, 32768);
            lemma_scale_down_bounded(
                (mag as int) * (self.envelope as int) / 32768,
                self.volume as int,
                32768,
            );
        }
        let scaled_env: u64 = (mag as u64) * (self.envelope as u64) / 32768;
        let scaled: u64 = scaled_env * (self.volume as u64) / 32768;
        let s: i32 = if quadrant >= 2 {
            -(scaled as i32)
        } else {
            scaled as i32
        };
        // Advance the phase and wrap it into one turn.
        let advanced: u64 = (self.phase as u64) + (self.phase_increment as u64);
        self.phase = if advanced >= 0x1_0000_0000u64 {
            (advanced - 0x1_0000_0000u64) as u32
        } else {
            advanced as u32
        };
        proof {
            let p = old(self).phase as int;
            let inc = old(self).phase_increment as int;
            if p + inc >= turn() {
                assert((p + inc) % turn() == p + inc - turn()) by {
                    vstd::arithmetic::div_mod::lemma_mod_sub_multiples_vanish(
                        p + inc - turn(),
                        turn(),
                    );
                    vstd::arithmetic::div_mod::lemma_small_mod(
                        (p + inc - turn()) as nat,
                        turn() as nat,
                    );
                }
            } else {
                vstd::arithmetic::div_mod::lemma_small_mod((p + inc) as nat, turn() as nat);
            }
            assert(self.gen_view() =~= gen_step_spec(old(self).gen_view(), key_down).0);
        }
        s
    }

    /// Change the sample rate, rederiving the phase increment and ramp
    /// rates. Phase and envelope are untouched, so the tone continues
    /// without a discontinuity.
    pub fn set_sample_rate(&mut self, sample_rate: u32)
        requires
            old(self).wf(),
            1 <= sample_rate <= 1_000_000,
        ensures
            final(self).wf(),
            final(self).sample_rate_spec() == sample_rate,
            final(self).phase_spec() == old(self).phase_spec(),
            final(self).envelope_spec() == old(self).envelope_spec(),
            final(self).frequency_spec() == old(self).frequency_spec(),
            final(self).volume_spec() == old(self).volume_spec(),
    {
        self.sample_rate = sample_rate;
        self.phase_increment = Self::compute_increment(self.frequency, sample_rate);
        let ramp = 6_553_600u32 / sample_rate;
        self.attack_rate = ramp;
        self.decay_rate = ramp;
    }

    /// Change the frequency, rederiving the phase increment. Phase and
    /// envelope are untouched, so there is no click.
    pub fn set_frequency(&mut self, frequency: u32)
        requires
            old(self).wf(),
        ensures
            final(self).wf(),
            final(self).frequency_spec() == frequency,
            final(self).phase_spec() == old(self).phase_spec(),
            final(self).envelope_spec() == old(self).envelope_spec(),
            final(self).sample_rate_spec() == old(self).sample_rate_spec(),
            final(self).volume_spec() == old(self).volume_spec(),
    {
        self.frequency = frequency;
        self.phase_increment = Self::compute_increment(frequency, self.sample_rate);
    }

    /// Change the volume, clamped to the 0..=32768 scale.
    pub fn set_volume(&mut self, volume: u16)
        requires
            old(self).wf(),
        ensures
            final(self).wf(),
            final(self).volume_spec() == (if volume <= 32768 {
                volume as int
            } else {
                32768
            }),
            final(self).phase_spec() == old(self).phase_spec(),
            final(self).envelope_spec() == old(self).envelope_spec(),
            final(self).frequency_spec() == old(self).frequency_spec(),
            final(self).sample_rate_spec() == old(self).sample_rate_spec(),
    {
        self.volume = if volume <= 32768 {
            volume
        } else {
            32768
        };
    }
}

} // verus!
