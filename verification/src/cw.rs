//! Wall-clock front-end for the Morse decoder.
//!
//! Key transitions arrive as timestamps in milliseconds from a monotonic
//! clock. A key-down closes the preceding silence and feeds it to the
//! decoder as a gap; a key-up closes the tone and feeds it as a mark. A
//! periodic timeout check flushes the pending character after 1.5 s of
//! silence.

use vstd::prelude::*;
use crate::config::KeyerType;
use crate::decoder::{
    add_timing_spec, estimate_wpm_milli, flush_spec, lemma_weight_total_bounds,
    lemma_weighted_sum_bounds, lt_twice_dit, CwDecoder, DecoderView,
};
use crate::timing::{calculate_dit_duration, dit_duration_us_spec};

verus! {

/// A decoded piece of text with the speed estimate at the time it resolved.
pub struct DecodedElement {
    /// The decoded characters (possibly several, and spaces).
    pub character: String,
    /// Speed estimate in thousandths of a WPM.
    pub wpm: u32,
}

/// Mathematical state of the engine.
#[verifier::ext_equal]
pub struct EngineView {
    pub decoder: DecoderView,
    pub key_down_time: Option<u64>,
    pub key_up_time: Option<u64>,
}

/// Elapsed milliseconds from `b` to `a` on a monotonic clock; zero if the
/// timestamps arrive out of order.
pub open spec fn elapsed_ms(a: u64, b: u64) -> int {
    if a >= b {
        a - b
    } else {
        0
    }
}

/// Effect of a key-down at `now`: the silence since the last key-up (if
/// any) goes to the decoder as a gap, and the key-down instant is recorded.
pub open spec fn key_down_spec(v: EngineView, now: u64) -> (EngineView, Option<Seq<char>>) {
    match v.key_up_time {
        Some(up) => {
            let step = add_timing_spec(v.decoder, -elapsed_ms(now, up));
            (
                (EngineView {
                    decoder: step.0,
                    key_down_time: Some(now),
                    key_up_time: None,
                }),
                step.1,
            )
        },
        None => ((EngineView { key_down_time: Some(now), ..v }), None),
    }
}

/// Effect of a key-up at `now`: the tone since the matching key-down (if
/// any) goes to the decoder, and the key-up instant is recorded.
pub open spec fn key_up_spec(v: EngineView, now: u64) -> (EngineView, Option<Seq<char>>) {
    match v.key_down_time {
        Some(down) => {
            let step = add_timing_spec(v.decoder, elapsed_ms(now, down));
            (
                (EngineView {
                    decoder: step.0,
                    key_down_time: None,
                    key_up_time: Some(now),
                }),
                step.1,
            )
        },
        None => ((EngineView { key_up_time: Some(now), ..v }), None),
    }
}

/// Effect of a timeout check at `now`. Before 1.5 s of silence nothing
/// happens. At or past it, the elapsed gap goes to the decoder first; if
/// that yields no output, a flush follows. Whichever path yields output
/// clears the key-up instant, so the flush fires only once per silence.
pub open spec fn check_timeout_spec(v: EngineView, now: u64) -> (EngineView, Option<Seq<char>>) {
    match v.key_up_time {
        Some(up) => {
            let gap = elapsed_ms(now, up);
            if gap >= 1500 {
                let first = add_timing_spec(v.decoder, -gap);
                if first.1 is Some {
                    ((EngineView { decoder: first.0, key_up_time: None, ..v }), first.1)
                } else {
                    let second = flush_spec(first.0);
                    if second.1 is Some {
                        ((EngineView { decoder: second.0, key_up_time: None, ..v }), second.1)
                    } else {
                        ((EngineView { decoder: second.0, ..v }), None)
                    }
                }
            } else {
                (v, None)
            }
        },
        None => (v, None),
    }
}

/// Before the flush window has elapsed, a timeout check is a no-op.
pub proof fn lemma_timeout_quiet_before_window(v: EngineView, now: u64)
    requires
        v.key_up_time is Some,
        elapsed_ms(now, v.key_up_time->Some_0) < 1500,
    ensures
        check_timeout_spec(v, now) == (v, None::<Seq<char>>),
{
}

/// Once the flush window has elapsed, a silence of 1.5 s is always a
/// character boundary — it lies above twice any dit estimate the decoder
/// can hold — so a pending pattern that names a table entry is delivered.
pub proof fn lemma_timeout_flushes_pending(v: EngineView, now: u64)
    requires
        v.key_up_time is Some,
        elapsed_ms(now, v.key_up_time->Some_0) >= 1500,
        v.decoder.pattern.len() > 0,
        crate::decoder::morse_lookup_spec(v.decoder.pattern) is Some,
        v.decoder.dits.len() <= 30,
        forall|i: int| 0 <= i < v.decoder.dits.len() ==> 30 <= #[trigger] v.decoder.dits[i]
            <= 1500,
    ensures
        check_timeout_spec(v, now).1 is Some,
        check_timeout_spec(v, now).0.key_up_time is None,
{
    let gap = elapsed_ms(now, v.key_up_time->Some_0);
    let dits = v.decoder.dits;
    if dits.len() > 0 {
        let w = crate::decoder::weight_total(dits.len() as int);
        let s = crate::decoder::weighted_sum(dits);
        lemma_weight_total_bounds(dits.len() as int);
        lemma_weighted_sum_bounds(dits);
        assert(3 * gap * w >= 2 * s) by (nonlinear_arith)
            requires
                gap >= 1500,
                s <= 1500 * w,
                w >= 1,
        ;
    }
    assert(!lt_twice_dit(dits, gap));
}

/// Once the flush window has elapsed, the timeout check behaves exactly
/// as the silence rules say: the elapsed gap goes to the decoder first and
/// its output, if any, is delivered; otherwise a flush runs and its
/// output, if any, is delivered; whichever path delivers also clears the
/// recorded key-up instant, so the delivery happens only once per silence
/// period; and nothing is delivered only when both paths yield nothing.
pub proof fn lemma_timeout_delivery(v: EngineView, now: u64)
    requires
        v.key_up_time is Some,
        elapsed_ms(now, v.key_up_time->Some_0) >= 1500,
    ensures
        ({
            let gap = elapsed_ms(now, v.key_up_time->Some_0);
            let first = add_timing_spec(v.decoder, -gap);
            let second = flush_spec(first.0);
            &&& (first.1 is Some ==> check_timeout_spec(v, now) == (
                (EngineView { decoder: first.0, key_up_time: None, ..v }),
                first.1,
            ))
            &&& (first.1 is None && second.1 is Some ==> check_timeout_spec(v, now) == (
                (EngineView { decoder: second.0, key_up_time: None, ..v }),
                second.1,
            ))
            &&& (first.1 is None && second.1 is None ==> check_timeout_spec(v, now) == (
                (EngineView { decoder: second.0, ..v }),
                None::<Seq<char>>,
            ))
            &&& (check_timeout_spec(v, now).1 is None <==> first.1 is None && second.1
                is None)
        }),
{
}

/// CW engine: wraps the adaptive decoder with wall-clock bookkeeping.
pub struct CwEngine {
    decoder: CwDecoder,
    keyer_type: KeyerType,
    /// Configured speed in words per minute.
    wpm: u32,
    /// Configured dit duration in microseconds, derived from `wpm`.
    dit_duration_us: u64,
    /// When the key last went down, in milliseconds.
    key_down_time: Option<u64>,
    /// When the key last went up, in milliseconds.
    key_up_time: Option<u64>,
    /// Silence after which a pending character is flushed, in milliseconds.
    flush_timeout_ms: u64,
}

impl View for CwEngine {
    type V = EngineView;

    closed spec fn view(&self) -> EngineView {
        EngineView {
            decoder: self.decoder@,
            key_down_time: self.key_down_time,
            key_up_time: self.key_up_time,
        }
    }
}

impl CwEngine {
    pub closed spec fn wf(&self) -> bool {
        &&& self.decoder.wf()
        &&& self.flush_timeout_ms == 1500
        &&& self.dit_duration_us == dit_duration_us_spec(self.wpm as int)
        &&& self.wpm >= 1
        &&& (self.key_down_time is Some ==> self.key_down_time->Some_0
            < 9_223_372_036_854_775_808)
        &&& (self.key_up_time is Some ==> self.key_up_time->Some_0 < 9_223_372_036_854_775_808)
    }

    /// Configured speed in words per minute.
    pub closed spec fn wpm_spec(&self) -> u32 {
        self.wpm
    }

    pub closed spec fn keyer_type_spec(&self) -> KeyerType {
        self.keyer_type
    }

    pub fn new(wpm: u32) -> (r: Self)
        requires
            wpm >= 1,
        ensures
            r.wf(),
            r.wpm_spec() == wpm,
            r.keyer_type_spec() == KeyerType::Straight,
            r@.decoder.pattern.len() == 0,
            r@.decoder.dits.len() == 0,
            r@.decoder.out.len() == 0,
            r@.key_down_time is None,
            r@.key_up_time is None,
    {
        let dit_duration_us = calculate_dit_duration(wpm);
        CwEngine {
            decoder: CwDecoder::new(),
            keyer_type: KeyerType::Straight,
            wpm,
            dit_duration_us,
            key_down_time: None,
            key_up_time: None,
            flush_timeout_ms: 1500,
        }
    }

    /// Set the speed and rederive the dit duration. The decoder's adaptive
    /// history is deliberately kept across configuration changes.
    pub fn set_wpm(&mut self, wpm: u32)
        requires
            old(self).wf(),
            wpm >= 1,
        ensures
            final(self).wf(),
            final(self).wpm_spec() == wpm,
            final(self)@ == old(self)@,
            final(self).keyer_type_spec() == old(self).keyer_type_spec(),
    {
        self.wpm = wpm;
        self.dit_duration_us = calculate_dit_duration(wpm);
    }

    pub fn set_keyer_type(&mut self, keyer_type: KeyerType)
        requires
            old(self).wf(),
        ensures
            final(self).wf(),
            final(self).keyer_type_spec() == keyer_type,
            final(self)@ == old(self)@,
            final(self).wpm_spec() == old(self).wpm_spec(),
    {
        self.keyer_type = keyer_type;
    }

    /// Wrap decoder output with the current speed estimate.
    fn make_decoded_element(&self, output: Option<String>) -> (r: Option<DecodedElement>)
        requires
            self.wf(),
        ensures
            r is Some <==> output is Some,
            r is Some ==> (r->Some_0).character@ == (output->Some_0)@,
            r is Some ==> (r->Some_0).wpm == estimate_wpm_milli(self@.decoder.dits),
    {
        match output {
            Some(text) => Some(
                DecodedElement { character: text, wpm: self.decoder.estimate_wpm() },
            ),
            None => None,
        }
    }

    /// Handle a key-down at `now_ms` (milliseconds on a monotonic clock).
    /// Returns decoded output if closing the preceding silence resolved any.
    pub fn key_down(&mut self, _is_dit: bool, now_ms: u64) -> (r: Option<DecodedElement>)
        requires
            old(self).wf(),
            now_ms < 9_223_372_036_854_775_808,
        ensures
            final(self).wf(),
            final(self)@ == key_down_spec(old(self)@, now_ms).0,
            final(self).wpm_spec() == old(self).wpm_spec(),
            final(self).keyer_type_spec() == old(self).keyer_type_spec(),
            (match r {
                Some(e) => key_down_spec(old(self)@, now_ms).1 is Some && e.character@
                    == key_down_spec(old(self)@, now_ms).1->Some_0 && e.wpm
                    == estimate_wpm_milli(key_down_spec(old(self)@, now_ms).0.decoder.dits),
                None => key_down_spec(old(self)@, now_ms).1 is None,
            }),
    {
        let result = match self.key_up_time {
            Some(up) => {
                self.key_up_time = None;
                let gap = if now_ms >= up {
                    now_ms - up
                } else {
                    0
                };
                let out = self.decoder.add_timing(-(gap as i64));
                self.make_decoded_element(out)
            },
            None => None,
        };
        self.key_down_time = Some(now_ms);
        proof {
            assert(self@ =~= key_down_spec(old(self)@, now_ms).0);
        }
        result
    }

    /// Handle a key-up at `now_ms`. Returns decoded output if the closed
    /// tone resolved any.
    pub fn key_up(&mut self, now_ms: u64) -> (r: Option<DecodedElement>)
        requires
            old(self).wf(),
            now_ms < 9_223_372_036_854_775_808,
        ensures
            final(self).wf(),
            final(self)@ == key_up_spec(old(self)@, now_ms).0,
            final(self).wpm_spec() == old(self).wpm_spec(),
            final(self).keyer_type_spec() == old(self).keyer_type_spec(),
            (match r {
                Some(e) => key_up_spec(old(self)@, now_ms).1 is Some && e.character@
                    == key_up_spec(old(self)@, now_ms).1->Some_0 && e.wpm == estimate_wpm_milli(
                    key_up_spec(old(self)@, now_ms).0.decoder.dits,
                ),
                None => key_up_spec(old(self)@, now_ms).1 is None,
            }),
    {
        let result = match self.key_down_time {
            Some(down) => {
                self.key_down_time = None;
                let duration = if now_ms >= down {
                    now_ms - down
                } else {
                    0
                };
                let out = self.decoder.add_timing(duration as i64);
                self.make_decoded_element(out)
            },
            None => None,
        };
        self.key_up_time = Some(now_ms);
        proof {
            assert(self@ =~= key_up_spec(old(self)@, now_ms).0);
        }
        result
    }

    /// Periodic timeout check (intended cadence 10..50 ms): flushes the
    /// pending character once 1.5 s have passed since the last key-up, and
    /// only once per silence period.
    pub fn check_timeout(&mut self, now_ms: u64) -> (r: Option<DecodedElement>)
        requires
            old(self).wf(),
            now_ms < 9_223_372_036_854_775_808,
        ensures
            final(self).wf(),
            final(self)@ == check_timeout_spec(old(self)@, now_ms).0,
            final(self).wpm_spec() == old(self).wpm_spec(),
            final(self).keyer_type_spec() == old(self).keyer_type_spec(),
            (match r {
                Some(e) => check_timeout_spec(old(self)@, now_ms).1 is Some && e.character@
                    == check_timeout_spec(old(self)@, now_ms).1->Some_0 && e.wpm
                    == estimate_wpm_milli(check_timeout_spec(old(self)@, now_ms).0.decoder.dits),
                None => check_timeout_spec(old(self)@, now_ms).1 is None,
            }),
    {
        let r = match self.key_up_time {
            Some(up) => {
                let gap = if now_ms >= up {
                    now_ms - up
                } else {
                    0
                };
                if gap >= self.flush_timeout_ms {
                    let gap_result = self.decoder.add_timing(-(gap as i64));
                    if gap_result.is_some() {
                        self.key_up_time = None;
                        self.make_decoded_element(gap_result)
                    } else {
                        let flush_result = self.decoder.flush();
                        if flush_result.is_some() {
                            self.key_up_time = None;
                            self.make_decoded_element(flush_result)
                        } else {
                            None
                        }
                    }
                } else {
                    None
                }
            },
            None => None,
        };
        proof {
            assert(self@ =~= check_timeout_spec(old(self)@, now_ms).0);
        }
        r
    }

    /// Speed estimate from the decoder's adaptive timing, in thousandths of
    /// a WPM.
    pub fn estimate_wpm(&self) -> (r: u32)
        requires
            self.wf(),
        ensures
            r == estimate_wpm_milli(self@.decoder.dits),
    {
        self.decoder.estimate_wpm()
    }

    /// Configured speed in words per minute.
    pub fn wpm(&self) -> (r: u32)
        ensures
            r == self.wpm_spec(),
    {
        self.wpm
    }

    /// Configured dit duration in whole milliseconds, rounded down.
    pub fn dit_duration_ms(&self) -> (r: u64)
        requires
            self.wf(),
        ensures
            r == dit_duration_us_spec(self.wpm_spec() as int) / 1000,
    {
        self.dit_duration_us / 1000
    }
}

} // verus!
