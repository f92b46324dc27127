//! Sample buffers and playable voices.
//!
//! A `SampleBuffer` is an immutable, normalized audio sample sequence with a
//! name. Amplitudes are fixed-point: `SAMPLE_UNIT` units stand for 1.0, and
//! every stored sample lies in `[-SAMPLE_UNIT, SAMPLE_UNIT]`. An `Instrument`
//! is a playback cursor over one buffer: a position and an active flag.

use vstd::prelude::*;

verus! {

/// Fixed-point amplitude units that stand for a full-scale sample of 1.0.
pub const SAMPLE_UNIT: i32 = 65536;

/// Converts one signed 16-bit PCM sample to a fixed-point amplitude,
/// normalizing by the format's maximum representable magnitude (32768),
/// so the result lies in `[-SAMPLE_UNIT, SAMPLE_UNIT]`.
pub fn sample_from_pcm16(v: i16) -> (r: i32)
    ensures
        r == 2 * v as int,
        -SAMPLE_UNIT <= r <= SAMPLE_UNIT,
{
    2 * (v as i32)
}

/// An immutable, normalized audio sample sequence with a name.
pub struct SampleBuffer {
    /// Display name, usually the file name the sound was loaded from.
    pub name: String,
    /// The samples, each in `[-SAMPLE_UNIT, SAMPLE_UNIT]`.
    pub data: Vec<i32>,
}

impl SampleBuffer {
    /// Validity: every sample is normalized.
    pub open spec fn wf(self) -> bool {
        forall|i: int|
            0 <= i < self.data@.len() ==> -SAMPLE_UNIT <= #[trigger] self.data@[i] <= SAMPLE_UNIT
    }

    /// A buffer with no samples.
    pub fn empty(name: String) -> (b: SampleBuffer)
        ensures
            b.wf(),
            b.data@.len() == 0,
            b.name == name,
    {
        SampleBuffer { name, data: Vec::new() }
    }

    /// Wraps raw fixed-point samples, refusing any sample outside
    /// `[-SAMPLE_UNIT, SAMPLE_UNIT]`.
    pub fn new(name: String, data: Vec<i32>) -> (r: Option<SampleBuffer>)
        ensures
            match r {
                Some(b) => b.wf() && b.name == name && b.data@ == data@,
                None => !(forall|i: int|
                    0 <= i < data@.len() ==> -SAMPLE_UNIT <= #[trigger] data@[i] <= SAMPLE_UNIT),
            },
    {
        let mut i: usize = 0;
        while i < data.len()
            invariant
                i <= data@.len(),
                forall|j: int| 0 <= j < i ==> -SAMPLE_UNIT <= #[trigger] data@[j] <= SAMPLE_UNIT,
            decreases data@.len() - i,
        {
            let v = data[i];
            if v < -SAMPLE_UNIT || v > SAMPLE_UNIT {
                return None;
            }
            i = i + 1;
        }
        Some(SampleBuffer { name, data })
    }

    /// Normalizes signed 16-bit PCM samples into a buffer.
    pub fn from_pcm16(name: String, pcm: &Vec<i16>) -> (b: SampleBuffer)
        ensures
            b.wf(),
            b.name == name,
            b.data@.len() == pcm@.len(),
            forall|i: int| 0 <= i < pcm@.len() ==> #[trigger] b.data@[i] == 2 * pcm@[i],
    {
        let mut data: Vec<i32> = Vec::new();
        let mut i: usize = 0;
        while i < pcm.len()
            invariant
                i <= pcm@.len(),
                data@.len() == i,
                forall|j: int| 0 <= j < i ==> #[trigger] data@[j] == 2 * pcm@[j],
            decreases pcm@.len() - i,
        {
            data.push(sample_from_pcm16(pcm[i]));
            i = i + 1;
        }
        SampleBuffer { name, data }
    }

    /// Number of samples in the buffer.
    pub fn len(&self) -> (n: usize)
        ensures
            n == self.data@.len(),
    {
        self.data.len()
    }
}

/// A playable voice with an identity: a cursor over one sample buffer.
pub struct Instrument {
    /// Display name of the loaded sound.
    pub name: String,
    /// The sound this voice plays.
    pub buffer: SampleBuffer,
    /// Next sample to play, between 0 and the buffer length.
    pub position: usize,
    /// Whether the mixer currently reads this voice.
    pub is_playing: bool,
}

impl Instrument {
    /// Validity: the buffer is normalized and the cursor never stands past
    /// the end of the buffer.
    pub open spec fn wf(self) -> bool {
        &&& self.buffer.wf()
        &&& self.position <= self.buffer.data@.len()
    }

    /// The voice restarted from the top of its buffer.
    pub open spec fn triggered_spec(self) -> Instrument {
        Instrument { position: 0, is_playing: true, ..self }
    }

    /// What this voice adds to the current output sample: its sample under
    /// the cursor while playing, silence otherwise.
    pub open spec fn contribution(self) -> int {
        if self.is_playing && self.position < self.buffer.data@.len() {
            self.buffer.data@[self.position as int] as int
        } else {
            0
        }
    }

    /// The voice after one mix frame: the cursor advances while samples
    /// remain; a voice found at the end of its buffer stops.
    pub open spec fn after_mix_spec(self) -> Instrument {
        if self.is_playing {
            if self.position < self.buffer.data@.len() {
                Instrument { position: (self.position + 1) as usize, ..self }
            } else {
                Instrument { is_playing: false, ..self }
            }
        } else {
            self
        }
    }

    /// A fresh voice over the given buffer, stopped at the start.
    pub fn new(name: String, buffer: SampleBuffer) -> (v: Instrument)
        ensures
            v.name == name,
            v.buffer == buffer,
            v.position == 0,
            !v.is_playing,
            buffer.wf() ==> v.wf(),
    {
        Instrument { name, buffer, position: 0, is_playing: false }
    }

    /// Restarts the voice from the top of its buffer.
    pub fn trigger(&mut self)
        ensures
            *final(self) == old(self).triggered_spec(),
            old(self).wf() ==> final(self).wf(),
    {
        self.position = 0;
        self.is_playing = true;
    }

    /// Plays one frame: returns this voice's contribution to the output
    /// sample and moves the cursor, stopping at the end of the buffer.
    pub fn mix_step(&mut self) -> (out: i32)
        ensures
            out == old(self).contribution(),
            *final(self) == old(self).after_mix_spec(),
            old(self).wf() ==> final(self).wf(),
            old(self).wf() ==> -SAMPLE_UNIT <= out <= SAMPLE_UNIT,
    {
        if self.is_playing {
            if self.position < self.buffer.data.len() {
                let out = self.buffer.data[self.position];
                self.position = self.position + 1;
                out
            } else {
                self.is_playing = false;
                0
            }
        } else {
            0
        }
    }
}

/// End-of-buffer idempotence: once a voice's cursor has reached the end of
/// its buffer, every further mix frame yields silence and leaves the voice
/// stopped — mixing again changes nothing — and re-triggering from
/// position 0 is always possible afterwards.
pub proof fn lemma_end_of_buffer_idempotent(v: Instrument)
    requires
        v.position == v.buffer.data@.len(),
    ensures
        v.contribution() == 0,
        v.after_mix_spec().contribution() == 0,
        !v.after_mix_spec().is_playing,
        v.after_mix_spec().after_mix_spec() == v.after_mix_spec(),
        v.after_mix_spec().position == v.position,
        v.after_mix_spec().triggered_spec().is_playing,
        v.after_mix_spec().triggered_spec().position == 0,
        v.wf() ==> v.after_mix_spec().triggered_spec().wf(),
{
}

} // verus!
