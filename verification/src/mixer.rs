//! The real-time mixing core: sidetone generators, mic transport, ducking,
//! level metering and the capture/playback buffer, with the per-sample
//! pipelines that the native stream callbacks run.
//!
//! Samples are fixed point on a scale of 32768 to one. Each output sample
//! advances the primary sidetone generator exactly once — whether or not
//! its tone is routed into the mix — pops one mic sample (silence when the
//! transport is empty), applies ducking and mic volume, and clamps
//! the sum to full scale.

use vstd::prelude::*;
use crate::arith::lemma_scale_down_bounded;
use crate::capture::{capture_append_spec, CaptureBuffer};
use crate::meter::{meter_step_spec, LevelMeter};
use crate::ring::{ring_capacity, ring_contents, MicRing};
use crate::sidetone::{gen_step_spec, GenView, SidetoneGenerator};

verus! {

/// Mic transport capacity: about 100 ms at 48 kHz.
pub const RING_BUFFER_SIZE: usize = 4800;

/// How long the mic stays ducked after a key transition: about 250 ms at
/// 48 kHz.
pub const MIC_DUCKING_HOLD_SAMPLES: u32 = 12_000;

/// Scale a signed sample by `v / 32768`, truncating toward zero.
pub open spec fn scale_signed_spec(x: int, v: int) -> int {
    if x >= 0 {
        x * v / 32768
    } else {
        -((-x) * v / 32768)
    }
}

/// Clamp a mixed value to full scale.
pub open spec fn clamp_full_scale(x: int) -> int {
    if x < -32768 {
        -32768
    } else if x > 32768 {
        32768
    } else {
        x
    }
}

/// The state one output sample changes: the primary generator, the mic
/// transport, and the capture buffer.
#[verifier::ext_equal]
pub struct OutView {
    pub gen: GenView,
    pub ring: Seq<i32>,
    pub capture: Seq<i32>,
}

/// The control values an output block reads; they hold constant across the
/// block.
#[verifier::ext_equal]
pub struct OutParams {
    pub key_down: bool,
    pub include_sidetone: bool,
    pub duck: bool,
    pub mic_volume: int,
    pub recording: bool,
}

/// Exactly what one output sample does: advance the generator, take its
/// tone if routed, pop one mic sample or silence, duck and scale the mic,
/// clamp the sum, and append it to the capture buffer while recording.
pub open spec fn out_step(v: OutView, p: OutParams) -> (OutView, int) {
    let g = gen_step_spec(v.gen, p.key_down);
    let tone = if p.include_sidetone {
        g.1
    } else {
        0
    };
    let raw = if v.ring.len() > 0 {
        v.ring.first() as int
    } else {
        0
    };
    let mic = if p.duck {
        0
    } else {
        scale_signed_spec(raw, p.mic_volume)
    };
    let mixed = clamp_full_scale(tone + mic);
    let ring2 = if v.ring.len() > 0 {
        v.ring.drop_first()
    } else {
        v.ring
    };
    let cap2 = if p.recording {
        capture_append_spec(v.capture, mixed as i32)
    } else {
        v.capture
    };
    ((OutView { gen: g.0, ring: ring2, capture: cap2 }), mixed)
}

/// A block of `n` output samples, oldest first.
pub open spec fn render_out_spec(v: OutView, p: OutParams, n: nat) -> (OutView, Seq<int>)
    decreases n,
{
    if n == 0 {
        (v, Seq::empty())
    } else {
        let prev = render_out_spec(v, p, (n - 1) as nat);
        let st = out_step(prev.0, p);
        (st.0, prev.1.push(st.1))
    }
}

/// The largest magnitude in a block.
pub open spec fn peak_of(s: Seq<int>) -> int
    decreases s.len(),
{
    if s.len() == 0 {
        0
    } else {
        let rest = peak_of(s.drop_last());
        let a = if s.last() < 0 {
            -s.last()
        } else {
            s.last()
        };
        if a > rest {
            a
        } else {
            rest
        }
    }
}

/// A rendered block has one value per frame.
pub proof fn lemma_render_out_len(v: OutView, p: OutParams, n: nat)
    ensures
        render_out_spec(v, p, n).1.len() == n,
    decreases n,
{
    if n > 0 {
        lemma_render_out_len(v, p, (n - 1) as nat);
    }
}

/// Scale a signed sample by `v / 32768`, truncating toward zero; the
/// magnitude cannot grow.
fn scale_signed(x: i32, v: u16) -> (r: i64)
    requires
        v <= 32768,
    ensures
        r as int == scale_signed_spec(x as int, v as int),
        -0x8000_0000 <= r <= 0x7fff_ffff,
{
    if x >= 0 {
        proof {
            lemma_scale_down_bounded(x as int, v as int, 32768);
        }
        (((x as u64) * (v as u64)) / 32768) as i64
    } else {
        let m: u64 = if x == i32::MIN {
            2_147_483_648u64
        } else {
            (-x) as u64
        };
        proof {
            lemma_scale_down_bounded(m as int, v as int, 32768);
        }
        -((((m * (v as u64)) / 32768)) as i64)
    }
}

/// The shared mixing core. One instance is owned by an engine session; the
/// stream callbacks drive it one block at a time under a non-blocking lock
/// attempt, and the control plane mutates the plain control fields.
pub struct AudioCore {
    /// Sidetone for the primary output mix.
    pub sidetone: SidetoneGenerator,
    /// Independent sidetone for local monitoring.
    pub local_sidetone: SidetoneGenerator,
    /// Mic transport from the input callback to the output callback.
    pub mic_ring: MicRing,
    pub key_down: bool,
    /// Mic volume on a scale of 32768 to one.
    pub mic_volume: u16,
    pub mic_ducking_enabled: bool,
    /// Samples of ducking left after the last key transition.
    pub mic_ducking_hold: u32,
    pub mic_level: LevelMeter,
    pub output_level: LevelMeter,
    /// Whether the primary output mixes the sidetone in (set per route at
    /// stream start).
    pub include_sidetone_in_output: bool,
    pub recording: bool,
    pub playing: bool,
    pub capture: CaptureBuffer,
    pub playback_position: usize,
    /// Native sample rate in hertz.
    pub sample_rate: u32,
}

impl AudioCore {
    pub open spec fn wf(&self) -> bool {
        &&& self.sidetone.wf()
        &&& self.local_sidetone.wf()
        &&& self.mic_volume <= 32768
        &&& self.mic_level.wf()
        &&& self.output_level.wf()
        &&& self.capture.wf()
        &&& 1 <= self.sample_rate <= 1_000_000
    }

    /// The state an output block changes.
    pub open spec fn out_view(&self) -> OutView {
        OutView {
            gen: self.sidetone.gen_view(),
            ring: ring_contents(&self.mic_ring),
            capture: self.capture.samples_spec(),
        }
    }

    /// The control values an output block reads. The mic is ducked iff
    /// ducking is enabled and the key is down or the hold has not run out.
    pub open spec fn out_params(&self) -> OutParams {
        OutParams {
            key_down: self.key_down,
            include_sidetone: self.include_sidetone_in_output,
            duck: self.mic_ducking_enabled && (self.key_down || self.mic_ducking_hold > 0),
            mic_volume: self.mic_volume as int,
            recording: self.recording,
        }
    }

    pub fn new(frequency: u32, volume: u16, local_volume: u16, sample_rate: u32) -> (r: Self)
        requires
            1 <= sample_rate <= 1_000_000,
        ensures
            r.wf(),
            r.sidetone.gen_view() == (GenView {
                phase: 0,
                envelope: 0,
                volume: if volume <= 32768 {
                    volume as int
                } else {
                    32768
                },
                frequency: frequency as int,
                rate: sample_rate as int,
            }),
            r.local_sidetone.gen_view() == (GenView {
                phase: 0,
                envelope: 0,
                volume: if local_volume <= 32768 {
                    local_volume as int
                } else {
                    32768
                },
                frequency: frequency as int,
                rate: sample_rate as int,
            }),
            r.mic_volume == 32768,
            ring_contents(&r.mic_ring) == Seq::<i32>::empty(),
            ring_capacity(&r.mic_ring) == RING_BUFFER_SIZE as int,
            r.key_down == false,
            r.mic_ducking_enabled == false,
            r.mic_ducking_hold == 0,
            r.mic_level.level_spec() == 0,
            r.output_level.level_spec() == 0,
            r.include_sidetone_in_output == true,
            r.recording == false,
            r.playing == false,
            r.capture.samples_spec() == Seq::<i32>::empty(),
            r.playback_position == 0,
            r.sample_rate == sample_rate,
    {
        let r = AudioCore {
            sidetone: SidetoneGenerator::new(frequency, volume, sample_rate),
            local_sidetone: SidetoneGenerator::new(frequency, local_volume, sample_rate),
            mic_ring: MicRing::new(RING_BUFFER_SIZE),
            key_down: false,
            mic_volume: 32768,
            mic_ducking_enabled: false,
            mic_ducking_hold: 0,
            mic_level: LevelMeter::new(),
            output_level: LevelMeter::new(),
            include_sidetone_in_output: true,
            recording: false,
            playing: false,
            capture: CaptureBuffer::new(),
            playback_position: 0,
            sample_rate,
        };
        proof {
            assert(r.sidetone.gen_view() =~= (GenView {
                phase: 0,
                envelope: 0,
                volume: if volume <= 32768 {
                    volume as int
                } else {
                    32768
                },
                frequency: frequency as int,
                rate: sample_rate as int,
            }));
            assert(r.local_sidetone.gen_view() =~= (GenView {
                phase: 0,
                envelope: 0,
                volume: if local_volume <= 32768 {
                    local_volume as int
                } else {
                    32768
                },
                frequency: frequency as int,
                rate: sample_rate as int,
            }));
        }
        r
    }

    /// One sample of the primary output mix.
    pub fn output_sample(&mut self) -> (s: i32)
        requires
            old(self).wf(),
        ensures
            final(self).wf(),
            final(self).out_view() == out_step(old(self).out_view(), old(self).out_params()).0,
            s as int == out_step(old(self).out_view(), old(self).out_params()).1,
            -32768 <= s <= 32768,
            final(self).key_down == old(self).key_down,
            final(self).mic_volume == old(self).mic_volume,
            final(self).mic_ducking_enabled == old(self).mic_ducking_enabled,
            final(self).mic_ducking_hold == old(self).mic_ducking_hold,
            final(self).include_sidetone_in_output == old(self).include_sidetone_in_output,
            final(self).recording == old(self).recording,
            final(self).playing == old(self).playing,
            final(self).playback_position == old(self).playback_position,
            final(self).sample_rate == old(self).sample_rate,
            final(self).local_sidetone == old(self).local_sidetone,
            final(self).mic_level == old(self).mic_level,
            final(self).output_level == old(self).output_level,
    {
        let tone_sample = self.sidetone.next_sample(self.key_down);
        let tone: i64 = if self.include_sidetone_in_output {
            tone_sample as i64
        } else {
            0
        };
        let raw: i32 = match self.mic_ring.try_pop() {
            Some(v) => v,
            None => 0,
        };
        let duck = self.mic_ducking_enabled && (self.key_down || self.mic_ducking_hold > 0);
        let mic: i64 = if duck {
            0
        } else {
            scale_signed(raw, self.mic_volume)
        };
        let sum: i64 = tone + mic;
        let mixed: i32 = if sum < -32768 {
            -32768
        } else if sum > 32768 {
            32768
        } else {
            sum as i32
        };
        if self.recording {
            self.capture.append(mixed);
        }
        proof {
            assert(self.out_view() =~= out_step(old(self).out_view(), old(self).out_params()).0);
        }
        mixed
    }
}


impl AudioCore {
    /// Render one block of the primary output mix. After the block, the
    /// ducking hold counts down by the number of samples rendered (only
    /// while ducking is enabled and the key is up, mirroring that the hold
    /// starts at key-up), and the output meter folds in the block's peak.
    pub fn render_output(&mut self, frames: usize) -> (out: Vec<i32>)
        requires
            old(self).wf(),
        ensures
            final(self).wf(),
            out@.len() == frames,
            final(self).out_view() == render_out_spec(
                old(self).out_view(),
                old(self).out_params(),
                frames as nat,
            ).0,
            forall|j: int|
                0 <= j < frames ==> #[trigger] out@[j] as int == render_out_spec(
                    old(self).out_view(),
                    old(self).out_params(),
                    frames as nat,
                ).1[j],
            forall|j: int| 0 <= j < frames ==> -32768 <= #[trigger] out@[j] <= 32768,
            final(self).mic_ducking_hold == (if old(self).mic_ducking_enabled && !old(
                self,
            ).key_down {
                if old(self).mic_ducking_hold >= frames {
                    old(self).mic_ducking_hold - frames
                } else {
                    0int
                }
            } else {
                old(self).mic_ducking_hold as int
            }),
            final(self).output_level.level_spec() == meter_step_spec(
                old(self).output_level.level_spec(),
                clamp_peak(
                    peak_of(
                        render_out_spec(
                            old(self).out_view(),
                            old(self).out_params(),
                            frames as nat,
                        ).1,
                    ),
                ),
            ),
            final(self).key_down == old(self).key_down,
            final(self).mic_volume == old(self).mic_volume,
            final(self).mic_ducking_enabled == old(self).mic_ducking_enabled,
            final(self).include_sidetone_in_output == old(self).include_sidetone_in_output,
            final(self).recording == old(self).recording,
            final(self).playing == old(self).playing,
            final(self).playback_position == old(self).playback_position,
            final(self).sample_rate == old(self).sample_rate,
            final(self).local_sidetone == old(self).local_sidetone,
            final(self).mic_level == old(self).mic_level,
    {
        let ghost start_view = self.out_view();
        let ghost pars = self.out_params();
        let mut out: Vec<i32> = Vec::new();
        let mut peak: u16 = 0;
        let mut i: usize = 0;
        proof {
            lemma_render_out_len(start_view, pars, frames as nat);
        }
        while i < frames
            invariant
                0 <= i <= frames,
                self.wf(),
                out@.len() == i,
                self.out_view() == render_out_spec(start_view, pars, i as nat).0,
                forall|j: int|
                    0 <= j < i ==> #[trigger] out@[j] as int == render_out_spec(
                        start_view,
                        pars,
                        i as nat,
                    ).1[j],
                forall|j: int| 0 <= j < i ==> -32768 <= #[trigger] out@[j] <= 32768,
                peak as int == clamp_peak(peak_of(render_out_spec(start_view, pars, i as nat).1)),
                peak <= 32768,
                self.key_down == old(self).key_down,
                self.mic_volume == old(self).mic_volume,
                self.mic_ducking_enabled == old(self).mic_ducking_enabled,
                self.mic_ducking_hold == old(self).mic_ducking_hold,
                self.include_sidetone_in_output == old(self).include_sidetone_in_output,
                self.recording == old(self).recording,
                self.playing == old(self).playing,
                self.playback_position == old(self).playback_position,
                self.sample_rate == old(self).sample_rate,
                self.local_sidetone == old(self).local_sidetone,
                self.mic_level == old(self).mic_level,
                self.output_level == old(self).output_level,
                start_view == old(self).out_view(),
                pars == old(self).out_params(),
            decreases frames - i,
        {
            let ghost before = render_out_spec(start_view, pars, i as nat);
            let s = self.output_sample();
            proof {
                lemma_render_out_len(start_view, pars, i as nat);
                lemma_render_out_len(start_view, pars, i as nat + 1);
                let after = render_out_spec(start_view, pars, i as nat + 1);
                assert(after.0 == out_step(before.0, pars).0);
                assert(after.1 == before.1.push(out_step(before.0, pars).1));
                assert(after.1.drop_last() =~= before.1);
            }
            let a: u16 = if s >= 0 {
                s as u16
            } else {
                (-s) as u16
            };
            if a > peak {
                peak = a;
            }
            out.push(s);
            i = i + 1;
        }
        if self.mic_ducking_enabled && !self.key_down {
            let hold = self.mic_ducking_hold;
            if hold > 0 {
                self.mic_ducking_hold = if (frames as u64) >= (hold as u64) {
                    0
                } else {
                    hold - (frames as u32)
                };
            }
        }
        self.output_level.update(peak);
        out
    }
}

/// A block peak folded into the meter scale: magnitudes past full scale
/// register as full scale.
pub open spec fn clamp_peak(p: int) -> int {
    if p > 32768 {
        32768
    } else {
        p
    }
}


impl AudioCore {
    /// Key down: the sidetone turns on and the ducking hold restarts.
    pub fn key_down(&mut self)
        requires
            old(self).wf(),
        ensures
            final(self).wf(),
            *final(self) == (AudioCore {
                key_down: true,
                mic_ducking_hold: MIC_DUCKING_HOLD_SAMPLES,
                ..*old(self)
            }),
    {
        self.key_down = true;
        self.mic_ducking_hold = MIC_DUCKING_HOLD_SAMPLES;
    }

    /// Key up: the sidetone turns off and the ducking hold restarts, so
    /// the mic stays ducked for the hold period after sending.
    pub fn key_up(&mut self)
        requires
            old(self).wf(),
        ensures
            final(self).wf(),
            *final(self) == (AudioCore {
                key_down: false,
                mic_ducking_hold: MIC_DUCKING_HOLD_SAMPLES,
                ..*old(self)
            }),
    {
        self.key_down = false;
        self.mic_ducking_hold = MIC_DUCKING_HOLD_SAMPLES;
    }

    pub fn set_mic_ducking(&mut self, enabled: bool)
        requires
            old(self).wf(),
        ensures
            final(self).wf(),
            *final(self) == (AudioCore { mic_ducking_enabled: enabled, ..*old(self) }),
    {
        self.mic_ducking_enabled = enabled;
    }

    /// Mic volume, clamped to the 0..=32768 scale.
    pub fn set_mic_volume(&mut self, volume: u16)
        requires
            old(self).wf(),
        ensures
            final(self).wf(),
            *final(self) == (AudioCore {
                mic_volume: if volume <= 32768 {
                    volume
                } else {
                    32768
                },
                ..*old(self)
            }),
    {
        self.mic_volume = if volume <= 32768 {
            volume
        } else {
            32768
        };
    }

    /// Live frequency change, applied to both generators without touching
    /// phase or envelope.
    pub fn set_sidetone_frequency(&mut self, frequency: u32)
        requires
            old(self).wf(),
        ensures
            final(self).wf(),
            final(self).sidetone.gen_view() == (GenView {
                frequency: frequency as int,
                ..old(self).sidetone.gen_view()
            }),
            final(self).local_sidetone.gen_view() == (GenView {
                frequency: frequency as int,
                ..old(self).local_sidetone.gen_view()
            }),
            final(self).mic_ring == old(self).mic_ring,
            final(self).key_down == old(self).key_down,
            final(self).mic_volume == old(self).mic_volume,
            final(self).mic_ducking_enabled == old(self).mic_ducking_enabled,
            final(self).mic_ducking_hold == old(self).mic_ducking_hold,
            final(self).mic_level == old(self).mic_level,
            final(self).output_level == old(self).output_level,
            final(self).include_sidetone_in_output == old(self).include_sidetone_in_output,
            final(self).recording == old(self).recording,
            final(self).playing == old(self).playing,
            final(self).capture == old(self).capture,
            final(self).playback_position == old(self).playback_position,
            final(self).sample_rate == old(self).sample_rate,
    {
        self.sidetone.set_frequency(frequency);
        self.local_sidetone.set_frequency(frequency);
        proof {
            assert(self.sidetone.gen_view() =~= (GenView {
                frequency: frequency as int,
                ..old(self).sidetone.gen_view()
            }));
            assert(self.local_sidetone.gen_view() =~= (GenView {
                frequency: frequency as int,
                ..old(self).local_sidetone.gen_view()
            }));
        }
    }

    /// Output sidetone volume, clamped to scale; phase and envelope stay.
    pub fn set_sidetone_volume(&mut self, volume: u16)
        requires
            old(self).wf(),
        ensures
            final(self).wf(),
            final(self).sidetone.gen_view() == (GenView {
                volume: if volume <= 32768 {
                    volume as int
                } else {
                    32768
                },
                ..old(self).sidetone.gen_view()
            }),
            final(self).local_sidetone == old(self).local_sidetone,
            final(self).mic_ring == old(self).mic_ring,
            final(self).capture == old(self).capture,
            final(self).key_down == old(self).key_down,
            final(self).mic_volume == old(self).mic_volume,
            final(self).mic_ducking_enabled == old(self).mic_ducking_enabled,
            final(self).mic_ducking_hold == old(self).mic_ducking_hold,
            final(self).mic_level == old(self).mic_level,
            final(self).output_level == old(self).output_level,
            final(self).include_sidetone_in_output == old(self).include_sidetone_in_output,
            final(self).recording == old(self).recording,
            final(self).playing == old(self).playing,
            final(self).playback_position == old(self).playback_position,
            final(self).sample_rate == old(self).sample_rate,
    {
        self.sidetone.set_volume(volume);
        proof {
            assert(self.sidetone.gen_view() =~= (GenView {
                volume: if volume <= 32768 {
                    volume as int
                } else {
                    32768
                },
                ..old(self).sidetone.gen_view()
            }));
        }
    }

    /// Local-monitor sidetone volume, clamped to scale.
    pub fn set_local_sidetone_volume(&mut self, volume: u16)
        requires
            old(self).wf(),
        ensures
            final(self).wf(),
            final(self).local_sidetone.gen_view() == (GenView {
                volume: if volume <= 32768 {
                    volume as int
                } else {
                    32768
                },
                ..old(self).local_sidetone.gen_view()
            }),
            final(self).sidetone == old(self).sidetone,
            final(self).mic_ring == old(self).mic_ring,
            final(self).capture == old(self).capture,
            final(self).key_down == old(self).key_down,
            final(self).mic_volume == old(self).mic_volume,
            final(self).mic_ducking_enabled == old(self).mic_ducking_enabled,
            final(self).mic_ducking_hold == old(self).mic_ducking_hold,
            final(self).mic_level == old(self).mic_level,
            final(self).output_level == old(self).output_level,
            final(self).include_sidetone_in_output == old(self).include_sidetone_in_output,
            final(self).recording == old(self).recording,
            final(self).playing == old(self).playing,
            final(self).playback_position == old(self).playback_position,
            final(self).sample_rate == old(self).sample_rate,
    {
        self.local_sidetone.set_volume(volume);
        proof {
            assert(self.local_sidetone.gen_view() =~= (GenView {
                volume: if volume <= 32768 {
                    volume as int
                } else {
                    32768
                },
                ..old(self).local_sidetone.gen_view()
            }));
        }
    }

    /// New native sample rate: both generators rederive their increments
    /// and ramps without touching phase or envelope.
    pub fn set_sample_rate(&mut self, sample_rate: u32)
        requires
            old(self).wf(),
            1 <= sample_rate <= 1_000_000,
        ensures
            final(self).wf(),
            final(self).sample_rate == sample_rate,
            final(self).sidetone.gen_view() == (GenView {
                rate: sample_rate as int,
                ..old(self).sidetone.gen_view()
            }),
            final(self).local_sidetone.gen_view() == (GenView {
                rate: sample_rate as int,
                ..old(self).local_sidetone.gen_view()
            }),
    {
        self.sample_rate = sample_rate;
        self.sidetone.set_sample_rate(sample_rate);
        self.local_sidetone.set_sample_rate(sample_rate);
        proof {
            assert(self.sidetone.gen_view() =~= (GenView {
                rate: sample_rate as int,
                ..old(self).sidetone.gen_view()
            }));
            assert(self.local_sidetone.gen_view() =~= (GenView {
                rate: sample_rate as int,
                ..old(self).local_sidetone.gen_view()
            }));
        }
    }

    /// Begin a stream session: a fresh, empty mic transport (stale samples
    /// must never carry over) and the routing decision for the primary mix.
    pub fn begin_streams(&mut self, include_sidetone: bool)
        requires
            old(self).wf(),
        ensures
            final(self).wf(),
            ring_contents(&final(self).mic_ring) == Seq::<i32>::empty(),
            ring_capacity(&final(self).mic_ring) == RING_BUFFER_SIZE as int,
            final(self).include_sidetone_in_output == include_sidetone,
            final(self).sidetone == old(self).sidetone,
            final(self).local_sidetone == old(self).local_sidetone,
            final(self).key_down == old(self).key_down,
            final(self).mic_volume == old(self).mic_volume,
            final(self).mic_ducking_enabled == old(self).mic_ducking_enabled,
            final(self).mic_ducking_hold == old(self).mic_ducking_hold,
            final(self).mic_level == old(self).mic_level,
            final(self).output_level == old(self).output_level,
            final(self).recording == old(self).recording,
            final(self).playing == old(self).playing,
            final(self).capture == old(self).capture,
            final(self).playback_position == old(self).playback_position,
            final(self).sample_rate == old(self).sample_rate,
    {
        self.mic_ring = MicRing::new(RING_BUFFER_SIZE);
        self.include_sidetone_in_output = include_sidetone;
    }

    /// Start capturing: the buffer empties first, so the flag flips
    /// together with an empty buffer.
    pub fn start_recording(&mut self)
        requires
            old(self).wf(),
        ensures
            final(self).wf(),
            final(self).recording == true,
            final(self).capture.samples_spec() == Seq::<i32>::empty(),
    {
        self.capture.clear();
        self.recording = true;
    }

    pub fn stop_recording(&mut self)
        requires
            old(self).wf(),
        ensures
            final(self).wf(),
            *final(self) == (AudioCore { recording: false, ..*old(self) }),
    {
        self.recording = false;
    }

    /// Start playback from the beginning of the capture buffer.
    pub fn start_playback(&mut self)
        requires
            old(self).wf(),
        ensures
            final(self).wf(),
            *final(self) == (AudioCore { playing: true, playback_position: 0, ..*old(self) }),
    {
        self.playback_position = 0;
        self.playing = true;
    }

    pub fn stop_playback(&mut self)
        requires
            old(self).wf(),
        ensures
            final(self).wf(),
            *final(self) == (AudioCore { playing: false, ..*old(self) }),
    {
        self.playing = false;
    }

    pub fn get_mic_level(&self) -> (r: u16)
        ensures
            r as int == self.mic_level.level_spec(),
    {
        self.mic_level.level()
    }

    pub fn get_output_level(&self) -> (r: u16)
        ensures
            r as int == self.output_level.level_spec(),
    {
        self.output_level.level()
    }

    pub fn is_recording(&self) -> (r: bool)
        ensures
            r == self.recording,
    {
        self.recording
    }

    pub fn is_playing(&self) -> (r: bool)
        ensures
            r == self.playing,
    {
        self.playing
    }

    pub fn get_recording_samples(&self) -> (r: usize)
        ensures
            r == self.capture.samples_spec().len(),
    {
        self.capture.len()
    }

    pub fn get_sample_rate(&self) -> (r: u32)
        ensures
            r == self.sample_rate,
    {
        self.sample_rate
    }

    /// Length of the recording in whole milliseconds.
    pub fn get_recording_duration_ms(&self) -> (r: u64)
        requires
            self.wf(),
        ensures
            r as int == (self.capture.samples_spec().len() as int) * 1000 / (self.sample_rate as int),
    {
        let samples = self.capture.len();
        ((samples as u64) * 1000) / (self.sample_rate as u64)
    }

    /// Playback progress in thousandths of the recording, at most 1000.
    pub fn get_playback_progress_permille(&self) -> (r: u32)
        requires
            self.wf(),
        ensures
            r as int == (if self.capture.samples_spec().len() == 0 {
                0int
            } else {
                let raw = (self.playback_position as int) * 1000 / (
                self.capture.samples_spec().len() as int);
                if raw > 1000 {
                    1000int
                } else {
                    raw
                }
            }),
    {
        let total = self.capture.len();
        if total == 0 {
            return 0;
        }
        let pos = if self.playback_position > total {
            total
        } else {
            self.playback_position
        };
        let raw = ((pos as u64) * 1000) / (total as u64);
        proof {
            let p = self.playback_position as int;
            let t = total as int;
            if p > t {
                // The clamped position reads as exactly 1000; so does any
                // position past the end once clamped below.
                vstd::arithmetic::div_mod::lemma_div_is_ordered(t * 1000, p * 1000, t);
                assert(t * 1000 == 1000 * t) by (nonlinear_arith);
                crate::arith::lemma_div_common_factor(1000, 1, t);
            } else {
                vstd::arithmetic::div_mod::lemma_div_is_ordered(p * 1000, t * 1000, t);
                assert(t * 1000 == 1000 * t) by (nonlinear_arith);
                crate::arith::lemma_div_common_factor(1000, 1, t);
                vstd::arithmetic::div_mod::lemma_div_pos_is_pos(p * 1000, t);
            }
        }
        if raw > 1000 {
            1000
        } else {
            raw as u32
        }
    }
}


/// Truncating signed division (toward zero), as the sample averaging does.
pub open spec fn tdiv(a: int, b: int) -> int
    recommends
        b >= 1,
{
    if a >= 0 {
        a / b
    } else {
        -((-a) / b)
    }
}

pub open spec fn sum_seq(s: Seq<i32>) -> int
    decreases s.len(),
{
    if s.len() == 0 {
        0
    } else {
        sum_seq(s.drop_last()) + s.last()
    }
}

/// A frame collapsed to mono: the channel sum divided by the channel
/// count (also for a trailing partial frame, which divides by the full
/// count).
pub open spec fn mono_of(frame: Seq<i32>, channels: int) -> int
    recommends
        channels >= 1,
{
    tdiv(sum_seq(frame), channels)
}

/// Offering a sample to the bounded transport: a full transport drops it.
pub open spec fn ring_offer_spec(ring: Seq<i32>, cap: int, x: i32) -> Seq<i32> {
    if ring.len() < cap {
        ring.push(x)
    } else {
        ring
    }
}

pub open spec fn abs_int(x: int) -> int {
    if x < 0 {
        -x
    } else {
        x
    }
}

/// Number of frames one input block of `len` interleaved samples holds,
/// counting a trailing partial frame.
pub open spec fn frames_count(len: int, ch: int) -> int
    recommends
        ch >= 1,
{
    (len + ch - 1) / ch
}

/// Effect of the first `n` frames of one input block: each frame becomes
/// one mono sample offered to the transport, and the block peak is the
/// largest mono magnitude.
pub open spec fn input_render_spec(ring: Seq<i32>, cap: int, data: Seq<i32>, ch: int, n: nat) -> (
    Seq<i32>,
    int,
)
    decreases n,
{
    if n == 0 {
        (ring, 0)
    } else {
        let prev = input_render_spec(ring, cap, data, ch, (n - 1) as nat);
        let lo = (n - 1) * ch;
        let hi = if n * ch <= data.len() {
            n * ch
        } else {
            data.len() as int
        };
        let m = mono_of(data.subrange(lo, hi), ch);
        let r2 = ring_offer_spec(prev.0, cap, m as i32);
        let a = abs_int(m);
        (r2, if a > prev.1 {
            a
        } else {
            prev.1
        })
    }
}

/// Unfolding one frame of `input_render_spec`.
proof fn lemma_input_render_unfold(ring: Seq<i32>, cap: int, data: Seq<i32>, ch: int, n: nat)
    requires
        n >= 1,
    ensures
        ({
            let prev = input_render_spec(ring, cap, data, ch, (n - 1) as nat);
            let lo = (n - 1) * ch;
            let hi = if n * ch <= data.len() {
                n * ch
            } else {
                data.len() as int
            };
            let m = mono_of(data.subrange(lo, hi), ch);
            input_render_spec(ring, cap, data, ch, n) == (
                ring_offer_spec(prev.0, cap, m as i32),
                if abs_int(m) > prev.1 {
                    abs_int(m)
                } else {
                    prev.1
                },
            )
        }),
{
}

/// The channel sum of a frame is bounded by its length times full range.
proof fn lemma_sum_seq_bounds(s: Seq<i32>)
    ensures
        -(s.len() as int) * 0x8000_0000 <= sum_seq(s) <= (s.len() as int) * 0x7fff_ffff,
    decreases s.len(),
{
    if s.len() > 0 {
        lemma_sum_seq_bounds(s.drop_last());
        let n = s.len() as int;
        assert(-(n - 1) * 0x8000_0000 - 0x8000_0000 == -n * 0x8000_0000) by (nonlinear_arith);
        assert((n - 1) * 0x7fff_ffff + 0x7fff_ffff == n * 0x7fff_ffff) by (nonlinear_arith);
    }
}

/// One frame collapsed to mono, truncating toward zero.
fn mono_frame(frame: &[i32], channels: usize) -> (m: i32)
    requires
        1 <= channels <= 65536,
        1 <= frame@.len() <= channels,
    ensures
        m as int == mono_of(frame@, channels as int),
{
    let n = frame.len();
    let mut sum: i64 = 0;
    let mut i: usize = 0;
    proof {
        lemma_sum_seq_bounds(frame@);
    }
    while i < n
        invariant
            0 <= i <= n,
            n == frame@.len() <= 65536,
            sum == sum_seq(frame@.take(i as int)),
            -(i as int) * 0x8000_0000 <= sum <= (i as int) * 0x7fff_ffff,
        decreases n - i,
    {
        proof {
            assert(frame@.take(i as int + 1).drop_last() =~= frame@.take(i as int));
            assert(frame@.take(i as int + 1).last() == frame@[i as int]);
            let k = i as int;
            assert(-(k + 1) * 0x8000_0000 <= -k * 0x8000_0000 - 0x8000_0000) by (nonlinear_arith);
            assert(k * 0x7fff_ffff + 0x7fff_ffff <= (k + 1) * 0x7fff_ffff) by (nonlinear_arith);
        }
        sum = sum + (frame[i] as i64);
        i = i + 1;
    }
    proof {
        assert(frame@.take(n as int) =~= frame@);
        let ch = channels as int;
        let ni = n as int;
        assert((ni as int) * 0x7fff_ffff <= ch * 0x7fff_ffff) by (nonlinear_arith)
            requires
                ni <= ch,
        ;
        assert((ni as int) * 0x8000_0000 <= ch * 0x8000_0000) by (nonlinear_arith)
            requires
                ni <= ch,
        ;
    }
    if sum >= 0 {
        proof {
            let ch = channels as int;
            vstd::arithmetic::div_mod::lemma_div_is_ordered(sum as int, ch * 0x7fff_ffff, ch);
            crate::arith::lemma_div_common_factor(0x7fff_ffff, 1, ch);
            vstd::arithmetic::div_mod::lemma_div_pos_is_pos(sum as int, ch);
        }
        ((sum as u64) / (channels as u64)) as i32
    } else {
        let mag: u64 = (-sum) as u64;
        proof {
            let ch = channels as int;
            vstd::arithmetic::div_mod::lemma_div_is_ordered(mag as int, ch * 0x8000_0000, ch);
            crate::arith::lemma_div_common_factor(0x8000_0000, 1, ch);
            vstd::arithmetic::div_mod::lemma_div_pos_is_pos(mag as int, ch);
        }
        let q: u64 = mag / (channels as u64);
        if q == 0x8000_0000u64 {
            i32::MIN
        } else {
            -(q as i32)
        }
    }
}

impl AudioCore {
    /// One input callback block: collapse each interleaved frame to mono,
    /// offer it to the mic transport (a full transport drops it), and fold
    /// the block's peak into the mic level meter.
    pub fn process_input(&mut self, data: &[i32], channels: usize)
        requires
            old(self).wf(),
            1 <= channels <= 65536,
            data@.len() <= 0x1000_0000,
        ensures
            final(self).wf(),
            ring_contents(&final(self).mic_ring) == input_render_spec(
                ring_contents(&old(self).mic_ring),
                ring_capacity(&old(self).mic_ring),
                data@,
                channels as int,
                frames_count(data@.len() as int, channels as int) as nat,
            ).0,
            ring_capacity(&final(self).mic_ring) == ring_capacity(&old(self).mic_ring),
            final(self).mic_level.level_spec() == meter_step_spec(
                old(self).mic_level.level_spec(),
                clamp_peak(
                    input_render_spec(
                        ring_contents(&old(self).mic_ring),
                        ring_capacity(&old(self).mic_ring),
                        data@,
                        channels as int,
                        frames_count(data@.len() as int, channels as int) as nat,
                    ).1,
                ),
            ),
            final(self).sidetone == old(self).sidetone,
            final(self).local_sidetone == old(self).local_sidetone,
            final(self).key_down == old(self).key_down,
            final(self).mic_volume == old(self).mic_volume,
            final(self).mic_ducking_enabled == old(self).mic_ducking_enabled,
            final(self).mic_ducking_hold == old(self).mic_ducking_hold,
            final(self).output_level == old(self).output_level,
            final(self).include_sidetone_in_output == old(self).include_sidetone_in_output,
            final(self).recording == old(self).recording,
            final(self).playing == old(self).playing,
            final(self).capture == old(self).capture,
            final(self).playback_position == old(self).playback_position,
            final(self).sample_rate == old(self).sample_rate,
    {
        let ghost ring0 = ring_contents(&self.mic_ring);
        let ghost cap0 = ring_capacity(&self.mic_ring);
        let len = data.len();
        let frames = (len + channels - 1) / channels;
        proof {
            vstd::arithmetic::div_mod::lemma_fundamental_div_mod(
                len as int + channels as int - 1,
                channels as int,
            );
            vstd::arithmetic::div_mod::lemma_mod_bound(
                len as int + channels as int - 1,
                channels as int,
            );
        }
        let mut i: usize = 0;
        let mut peak: u32 = 0;
        while i < frames
            invariant
                0 <= i <= frames,
                self.wf(),
                len == data@.len() <= 0x1000_0000,
                1 <= channels <= 65536,
                frames == frames_count(len as int, channels as int),
                (frames as int) * (channels as int) <= len as int + channels as int - 1,
                ring_contents(&self.mic_ring) == input_render_spec(
                    ring0,
                    cap0,
                    data@,
                    channels as int,
                    i as nat,
                ).0,
                ring_capacity(&self.mic_ring) == cap0,
                peak as int == input_render_spec(ring0, cap0, data@, channels as int, i as nat).1,
                peak <= 0x8000_0000,
                self.sidetone == old(self).sidetone,
                self.local_sidetone == old(self).local_sidetone,
                self.key_down == old(self).key_down,
                self.mic_volume == old(self).mic_volume,
                self.mic_ducking_enabled == old(self).mic_ducking_enabled,
                self.mic_ducking_hold == old(self).mic_ducking_hold,
                self.mic_level == old(self).mic_level,
                self.output_level == old(self).output_level,
                self.include_sidetone_in_output == old(self).include_sidetone_in_output,
                self.recording == old(self).recording,
                self.playing == old(self).playing,
                self.capture == old(self).capture,
                self.playback_position == old(self).playback_position,
                self.sample_rate == old(self).sample_rate,
                ring0 == ring_contents(&old(self).mic_ring),
                cap0 == ring_capacity(&old(self).mic_ring),
            decreases frames - i,
        {
            proof {
                let k = i as int;
                let ch = channels as int;
                assert((k + 1) * ch <= (frames as int) * ch) by (nonlinear_arith)
                    requires
                        k + 1 <= frames as int,
                        ch >= 1,
                ;
                assert(k * ch < len as int) by (nonlinear_arith)
                    requires
                        (k + 1) * ch <= len as int + ch - 1,
                        ch >= 1,
                ;
            }
            let lo = i * channels;
            let hi = if lo + channels <= len {
                lo + channels
            } else {
                len
            };
            let frame = vstd::slice::slice_subrange(data, lo, hi);
            let m = mono_frame(frame, channels);
            let ghost prev = input_render_spec(ring0, cap0, data@, channels as int, i as nat);
            let _dropped = self.mic_ring.try_push(m);
            let a: u32 = if m >= 0 {
                m as u32
            } else if m == i32::MIN {
                0x8000_0000u32
            } else {
                (-m) as u32
            };
            if a > peak {
                peak = a;
            }
            proof {
                lemma_input_render_unfold(ring0, cap0, data@, channels as int, i as nat + 1);
                let nxt = input_render_spec(ring0, cap0, data@, channels as int, i as nat + 1);
                let ch = channels as int;
                assert((i as int + 1) * ch == i as int * ch + ch) by (nonlinear_arith);
                let m_spec = mono_of(data@.subrange(i as int * ch, hi as int), ch);
                assert(m as int == m_spec);
                assert(nxt.0 == ring_offer_spec(prev.0, cap0, m_spec as i32));
                assert(m_spec as i32 == m);
                assert(a as int == abs_int(m_spec));
                assert(nxt.1 == (if abs_int(m_spec) > prev.1 {
                    abs_int(m_spec)
                } else {
                    prev.1
                }));
            }
            i = i + 1;
        }
        let peak16: u16 = if peak > 32768 {
            32768
        } else {
            peak as u16
        };
        self.mic_level.update(peak16);
    }
}


/// A block of sidetone-only samples from one generator.
pub open spec fn render_gen_spec(g: GenView, key_down: bool, n: nat) -> (GenView, Seq<int>)
    decreases n,
{
    if n == 0 {
        (g, Seq::empty())
    } else {
        let prev = render_gen_spec(g, key_down, (n - 1) as nat);
        let st = gen_step_spec(prev.0, key_down);
        (st.0, prev.1.push(st.1))
    }
}

pub proof fn lemma_render_gen_len(g: GenView, key_down: bool, n: nat)
    ensures
        render_gen_spec(g, key_down, n).1.len() == n,
    decreases n,
{
    if n > 0 {
        lemma_render_gen_len(g, key_down, (n - 1) as nat);
    }
}

/// One playback step: the sample under the position, or silence past the
/// end (which also ends playback); the position always advances.
pub open spec fn playback_step_spec(capture: Seq<i32>, pos: int, playing: bool) -> (
    (int, bool),
    i32,
) {
    let s = if pos < capture.len() {
        capture[pos]
    } else {
        0i32
    };
    let pos2 = if pos < usize::MAX {
        pos + 1
    } else {
        pos
    };
    ((pos2, playing && pos < capture.len()), s)
}

/// A playback block of `n` samples.
pub open spec fn render_playback_spec(capture: Seq<i32>, pos: int, playing: bool, n: nat) -> (
    (int, bool),
    Seq<i32>,
)
    decreases n,
{
    if n == 0 {
        ((pos, playing), Seq::empty())
    } else {
        let prev = render_playback_spec(capture, pos, playing, (n - 1) as nat);
        let st = playback_step_spec(capture, prev.0.0, prev.0.1);
        (st.0, prev.1.push(st.1))
    }
}

pub proof fn lemma_render_playback_len(capture: Seq<i32>, pos: int, playing: bool, n: nat)
    ensures
        render_playback_spec(capture, pos, playing, n).1.len() == n,
    decreases n,
{
    if n > 0 {
        lemma_render_playback_len(capture, pos, playing, (n - 1) as nat);
    }
}

impl AudioCore {
    /// Render one block of the local-monitor stream: sidetone only, from
    /// the independent local generator, which advances once per sample.
    pub fn render_local(&mut self, frames: usize) -> (out: Vec<i32>)
        requires
            old(self).wf(),
        ensures
            final(self).wf(),
            out@.len() == frames,
            final(self).local_sidetone.gen_view() == render_gen_spec(
                old(self).local_sidetone.gen_view(),
                old(self).key_down,
                frames as nat,
            ).0,
            forall|j: int|
                0 <= j < frames ==> #[trigger] out@[j] as int == render_gen_spec(
                    old(self).local_sidetone.gen_view(),
                    old(self).key_down,
                    frames as nat,
                ).1[j],
            forall|j: int| 0 <= j < frames ==> -32767 <= #[trigger] out@[j] <= 32767,
            final(self).sidetone == old(self).sidetone,
            final(self).mic_ring == old(self).mic_ring,
            final(self).key_down == old(self).key_down,
            final(self).mic_volume == old(self).mic_volume,
            final(self).mic_ducking_enabled == old(self).mic_ducking_enabled,
            final(self).mic_ducking_hold == old(self).mic_ducking_hold,
            final(self).mic_level == old(self).mic_level,
            final(self).output_level == old(self).output_level,
            final(self).include_sidetone_in_output == old(self).include_sidetone_in_output,
            final(self).recording == old(self).recording,
            final(self).playing == old(self).playing,
            final(self).capture == old(self).capture,
            final(self).playback_position == old(self).playback_position,
            final(self).sample_rate == old(self).sample_rate,
    {
        let ghost g0 = self.local_sidetone.gen_view();
        let ghost kd = self.key_down;
        let mut out: Vec<i32> = Vec::new();
        let mut i: usize = 0;
        while i < frames
            invariant
                0 <= i <= frames,
                self.wf(),
                out@.len() == i,
                self.local_sidetone.gen_view() == render_gen_spec(g0, kd, i as nat).0,
                forall|j: int|
                    0 <= j < i ==> #[trigger] out@[j] as int == render_gen_spec(
                        g0,
                        kd,
                        i as nat,
                    ).1[j],
                forall|j: int| 0 <= j < i ==> -32767 <= #[trigger] out@[j] <= 32767,
                self.key_down == old(self).key_down,
                kd == old(self).key_down,
                g0 == old(self).local_sidetone.gen_view(),
                self.sidetone == old(self).sidetone,
                self.mic_ring == old(self).mic_ring,
                self.mic_volume == old(self).mic_volume,
                self.mic_ducking_enabled == old(self).mic_ducking_enabled,
                self.mic_ducking_hold == old(self).mic_ducking_hold,
                self.mic_level == old(self).mic_level,
                self.output_level == old(self).output_level,
                self.include_sidetone_in_output == old(self).include_sidetone_in_output,
                self.recording == old(self).recording,
                self.playing == old(self).playing,
                self.capture == old(self).capture,
                self.playback_position == old(self).playback_position,
                self.sample_rate == old(self).sample_rate,
            decreases frames - i,
        {
            let ghost before = render_gen_spec(g0, kd, i as nat);
            let s = self.local_sidetone.next_sample(self.key_down);
            proof {
                lemma_render_gen_len(g0, kd, i as nat);
                lemma_render_gen_len(g0, kd, i as nat + 1);
                let after = render_gen_spec(g0, kd, i as nat + 1);
                assert(after.0 == gen_step_spec(before.0, kd).0);
                assert(after.1 == before.1.push(gen_step_spec(before.0, kd).1));
                assert(after.1.drop_last() =~= before.1);
            }
            out.push(s);
            i = i + 1;
        }
        out
    }

    /// Render one block of the playback stream. If playback is off at the
    /// start of the block, the block is silence and nothing moves.
    pub fn playback_block(&mut self, frames: usize) -> (out: Vec<i32>)
        requires
            old(self).wf(),
        ensures
            final(self).wf(),
            out@.len() == frames,
            !old(self).playing ==> *final(self) == *old(self) && (forall|j: int|
                0 <= j < frames ==> #[trigger] out@[j] == 0i32),
            old(self).playing ==> {
                let r = render_playback_spec(
                    old(self).capture.samples_spec(),
                    old(self).playback_position as int,
                    true,
                    frames as nat,
                );
                &&& final(self).playback_position as int == r.0.0
                &&& final(self).playing == r.0.1
                &&& out@ == r.1
                &&& final(self).capture == old(self).capture
                &&& final(self).sidetone == old(self).sidetone
                &&& final(self).local_sidetone == old(self).local_sidetone
                &&& final(self).mic_ring == old(self).mic_ring
                &&& final(self).key_down == old(self).key_down
                &&& final(self).mic_volume == old(self).mic_volume
                &&& final(self).mic_ducking_enabled == old(self).mic_ducking_enabled
                &&& final(self).mic_ducking_hold == old(self).mic_ducking_hold
                &&& final(self).mic_level == old(self).mic_level
                &&& final(self).output_level == old(self).output_level
                &&& final(self).include_sidetone_in_output == old(
                    self,
                ).include_sidetone_in_output
                &&& final(self).recording == old(self).recording
                &&& final(self).sample_rate == old(self).sample_rate
            },
    {
        let mut out: Vec<i32> = Vec::new();
        if !self.playing {
            let mut i: usize = 0;
            while i < frames
                invariant
                    0 <= i <= frames,
                    out@.len() == i,
                    forall|j: int| 0 <= j < i ==> #[trigger] out@[j] == 0i32,
                decreases frames - i,
            {
                out.push(0);
                i = i + 1;
            }
            return out;
        }
        let ghost cap0 = self.capture.samples_spec();
        let ghost pos0 = self.playback_position as int;
        let mut i: usize = 0;
        while i < frames
            invariant
                0 <= i <= frames,
                self.wf(),
                out@.len() == i,
                ({
                    let r = render_playback_spec(cap0, pos0, true, i as nat);
                    &&& self.playback_position as int == r.0.0
                    &&& self.playing == r.0.1
                    &&& out@ == r.1
                }),
                cap0 == old(self).capture.samples_spec(),
                pos0 == old(self).playback_position as int,
                self.capture == old(self).capture,
                self.sidetone == old(self).sidetone,
                self.local_sidetone == old(self).local_sidetone,
                self.mic_ring == old(self).mic_ring,
                self.key_down == old(self).key_down,
                self.mic_volume == old(self).mic_volume,
                self.mic_ducking_enabled == old(self).mic_ducking_enabled,
                self.mic_ducking_hold == old(self).mic_ducking_hold,
                self.mic_level == old(self).mic_level,
                self.output_level == old(self).output_level,
                self.include_sidetone_in_output == old(self).include_sidetone_in_output,
                self.recording == old(self).recording,
                self.sample_rate == old(self).sample_rate,
            decreases frames - i,
        {
            let ghost before = render_playback_spec(cap0, pos0, true, i as nat);
            let pos = self.playback_position;
            let s: i32 = match self.capture.read(pos) {
                Some(v) => v,
                None => {
                    self.playing = false;
                    0
                },
            };
            if pos < usize::MAX {
                self.playback_position = pos + 1;
            }
            proof {
                lemma_render_playback_len(cap0, pos0, true, i as nat);
                lemma_render_playback_len(cap0, pos0, true, i as nat + 1);
                let after = render_playback_spec(cap0, pos0, true, i as nat + 1);
                assert(after.0 == playback_step_spec(cap0, before.0.0, before.0.1).0);
                assert(after.1 == before.1.push(playback_step_spec(cap0, before.0.0, before.0.1).1));
                assert(after.1.drop_last() =~= before.1);
            }
            out.push(s);
            i = i + 1;
        }
        out
    }
}

/// Ducking silences the mic completely: while it is engaged, an output
/// block is sample-for-sample what it would be with no mic signal at all,
/// whatever the transport holds.
pub proof fn lemma_ducked_block_ignores_mic(v: OutView, w: OutView, p: OutParams, n: nat)
    requires
        p.duck,
        v.gen == w.gen,
        v.capture == w.capture,
    ensures
        render_out_spec(v, p, n).1 == render_out_spec(w, p, n).1,
        render_out_spec(v, p, n).0.gen == render_out_spec(w, p, n).0.gen,
        render_out_spec(v, p, n).0.capture == render_out_spec(w, p, n).0.capture,
    decreases n,
{
    if n > 0 {
        lemma_ducked_block_ignores_mic(v, w, p, (n - 1) as nat);
        let pv = render_out_spec(v, p, (n - 1) as nat);
        let pw = render_out_spec(w, p, (n - 1) as nat);
        assert(out_step(pv.0, p).1 == out_step(pw.0, p).1);
    }
}

/// Saturating countdown of the ducking hold over a run of block sizes.
pub open spec fn hold_after_spec(h: int, blocks: Seq<int>) -> int
    decreases blocks.len(),
{
    if blocks.len() == 0 {
        h
    } else {
        let prev = hold_after_spec(h, blocks.drop_last());
        if prev >= blocks.last() {
            prev - blocks.last()
        } else {
            0
        }
    }
}

pub open spec fn sum_of(blocks: Seq<int>) -> int
    decreases blocks.len(),
{
    if blocks.len() == 0 {
        0
    } else {
        sum_of(blocks.drop_last()) + blocks.last()
    }
}

/// The ducking hold outlasts any run of output blocks shorter than itself:
/// starting from a hold of `h` samples (12000 right after a key-up), after
/// blocks totalling fewer than `h` samples the hold is still positive — so
/// with ducking enabled and the key up, every sample of those blocks has
/// the mic silenced by ducking.
pub proof fn lemma_ducking_hold_outlasts(h: int, blocks: Seq<int>)
    requires
        forall|i: int| 0 <= i < blocks.len() ==> #[trigger] blocks[i] >= 0,
    ensures
        hold_after_spec(h, blocks) >= h - sum_of(blocks),
        sum_of(blocks) < h ==> hold_after_spec(h, blocks) > 0,
    decreases blocks.len(),
{
    if blocks.len() > 0 {
        assert(forall|i: int|
            0 <= i < blocks.drop_last().len() ==> #[trigger] blocks.drop_last()[i] >= 0);
        lemma_ducking_hold_outlasts(h, blocks.drop_last());
    }
}

} // verus!
