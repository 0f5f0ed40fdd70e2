//! Capture buffer for test recording and loop-back playback: a growable
//! sample store capped at five seconds of audio at 48 kHz. While recording
//! is active every mixed output sample is appended, subject to the cap;
//! playback reads sequentially and yields silence past the end.

use vstd::prelude::*;

verus! {

/// Most samples the capture buffer will hold: five seconds at 48 kHz.
pub const MAX_RECORDING_SAMPLES: usize = 240_000;

/// Fixed-capacity sample store.
pub struct CaptureBuffer {
    samples: Vec<i32>,
}

impl CaptureBuffer {
    pub open spec fn wf(&self) -> bool {
        self.samples_spec().len() <= MAX_RECORDING_SAMPLES
    }

    pub closed spec fn samples_spec(&self) -> Seq<i32> {
        self.samples@
    }

    pub fn new() -> (r: Self)
        ensures
            r.wf(),
            r.samples_spec() == Seq::<i32>::empty(),
    {
        CaptureBuffer { samples: Vec::new() }
    }

    /// Drop all recorded samples.
    pub fn clear(&mut self)
        ensures
            final(self).wf(),
            final(self).samples_spec() == Seq::<i32>::empty(),
    {
        self.samples = Vec::new();
    }

    /// Append one sample, unless the buffer is at its cap.
    pub fn append(&mut self, sample: i32)
        requires
            old(self).wf(),
        ensures
            final(self).wf(),
            final(self).samples_spec() == capture_append_spec(old(self).samples_spec(), sample),
    {
        if self.samples.len() < MAX_RECORDING_SAMPLES {
            self.samples.push(sample);
        }
    }

    pub fn len(&self) -> (r: usize)
        ensures
            r == self.samples_spec().len(),
    {
        self.samples.len()
    }

    /// The sample at a playback position, or nothing past the end.
    pub fn read(&self, pos: usize) -> (r: Option<i32>)
        ensures
            pos < self.samples_spec().len() ==> r == Some(self.samples_spec()[pos as int]),
            pos >= self.samples_spec().len() ==> r is None,
    {
        if pos < self.samples.len() {
            Some(self.samples[pos])
        } else {
            None
        }
    }
}

/// Appending respects the cap: at the cap the sample is dropped.
pub open spec fn capture_append_spec(samples: Seq<i32>, sample: i32) -> Seq<i32> {
    if samples.len() < MAX_RECORDING_SAMPLES {
        samples.push(sample)
    } else {
        samples
    }
}

} // verus!
