//! The musical clock and the scheduling arithmetic.
//!
//! The playhead is a position in beats, stored exactly as a numerator
//! `playhead_subbeats` over the denominator `60 * sample_rate_hz`: one output
//! sample advances the playhead by `tempo_bpm` sub-beats, so one beat takes
//! `60 * sample_rate_hz / tempo_bpm` samples. Timeline positions are counted
//! in ticks, `TICKS_PER_BEAT` per beat. Every scheduling decision below is a
//! comparison of such exact fractions, so no drift accumulates and the same
//! inputs always give the same triggers.

use vstd::prelude::*;

verus! {

use vstd::arithmetic::div_mod::{
    lemma_div_is_ordered,
    lemma_div_plus_one,
    lemma_div_pos_is_pos,
    lemma_fundamental_div_mod,
    lemma_mod_division_less_than_divisor,
    lemma_add_mod_noop,
    lemma_small_mod,
    lemma_mod_self_0,
};
use vstd::arithmetic::mul::lemma_mul_upper_bound;

/// Timeline resolution: ticks in one beat. A sequencer step is a quarter
/// beat (240 ticks); a full 16-step pattern spans 4 beats.
pub const TICKS_PER_BEAT: u64 = 960;

/// Lowest tempo the transport accepts.
pub const MIN_BPM: u32 = 40;

/// Highest tempo the transport accepts.
pub const MAX_BPM: u32 = 300;

/// Sub-beats in one beat: the playhead denominator.
pub open spec fn subbeats_per_beat(rate: int) -> int {
    60 * rate
}

/// Position inside a clip, as a numerator over `clip_pos_den(rate)` beats:
/// the playhead position minus the clip start, with both fractions brought
/// to the common denominator `960 * 60 * rate`.
pub open spec fn clip_pos_num(sub: int, start_ticks: int, rate: int) -> int {
    960 * sub - start_ticks * 60 * rate
}

/// The common denominator for positions inside a clip.
pub open spec fn clip_pos_den(rate: int) -> int {
    57600 * rate
}

/// Whether the playhead stands inside `[start, start + len)` of a clip.
pub open spec fn clip_active_spec(sub: int, rate: int, start_ticks: int, len_ticks: int) -> bool {
    &&& clip_pos_num(sub, start_ticks, rate) >= 0
    &&& 960 * sub < (start_ticks + len_ticks) * 60 * rate
}

/// Quarter-beat steps elapsed since the clip start: the authoritative
/// `floor(position_in_clip * 4)`.
pub open spec fn clip_quarters(sub: int, rate: int, start_ticks: int) -> int {
    (4 * clip_pos_num(sub, start_ticks, rate)) / clip_pos_den(rate)
}

/// The 16-step sequencer column under the playhead: `clip_quarters mod 16`.
pub open spec fn clip_step_spec(sub: int, rate: int, start_ticks: int) -> int {
    clip_quarters(sub, rate, start_ticks) % 16
}

/// Whether this sample is the first of a new sequencer step: the derived
/// step index differs from the one derived at the previous sample
/// (`bpm` sub-beats earlier), or the previous sample was outside the clip.
pub open spec fn step_boundary_spec(
    sub: int,
    rate: int,
    bpm: int,
    start_ticks: int,
    len_ticks: int,
) -> bool {
    ||| !clip_active_spec(sub - bpm, rate, start_ticks, len_ticks)
    ||| clip_step_spec(sub - bpm, rate, start_ticks) != clip_step_spec(sub, rate, start_ticks)
}

/// Whether the playhead stands less than one sample's worth of beats past
/// the clip start: the entry window of an audio clip.
pub open spec fn audio_entry_spec(
    sub: int,
    rate: int,
    bpm: int,
    start_ticks: int,
    len_ticks: int,
) -> bool {
    &&& clip_active_spec(sub, rate, start_ticks, len_ticks)
    &&& clip_pos_num(sub, start_ticks, rate) < 960 * bpm
}

/// Whole beats elapsed: `floor(playhead in beats)`.
pub open spec fn whole_beats_spec(sub: int, rate: int) -> int {
    sub / (60 * rate)
}

/// Whether this sample crosses an integer-beat boundary, read against the
/// position one sample earlier; used by the metronome.
pub open spec fn beat_boundary_spec(sub: int, rate: int, bpm: int) -> bool {
    whole_beats_spec(sub, rate) != whole_beats_spec(sub - bpm, rate)
}

proof fn lemma_start_term_nonneg(start_ticks: int, rate: int)
    requires
        start_ticks >= 0,
        rate >= 1,
    ensures
        start_ticks * 60 * rate >= 0,
{
    assert(start_ticks * 60 * rate >= 0) by (nonlinear_arith)
        requires
            start_ticks >= 0,
            rate >= 1,
    ;
}

proof fn lemma_neg_div_neg(x: int, d: int)
    requires
        x < 0,
        d > 0,
    ensures
        x / d < 0,
{
    lemma_fundamental_div_mod(x, d);
    lemma_mod_division_less_than_divisor(x, d);
    let q = x / d;
    if q >= 0 {
        assert(d * q >= 0) by (nonlinear_arith)
            requires
                d > 0,
                q >= 0,
        ;
    }
}

/// Whether the playhead stands inside the clip `[start, start + len)`.
pub fn clip_active_at(sub: u64, rate: u32, start_ticks: u64, len_ticks: u64) -> (r: bool)
    requires
        rate >= 1,
    ensures
        r == clip_active_spec(sub as int, rate as int, start_ticks as int, len_ticks as int),
{
    proof {
        lemma_mul_upper_bound(
            (start_ticks + len_ticks) * 60,
            0xffff_ffff_ffff_ffff_ffffint * 60,
            rate as int,
            0x1_0000_0000,
        );
        lemma_mul_upper_bound(start_ticks * 60, 0xffff_ffff_ffff_ffffint * 60, rate as int, 0x1_0000_0000);
        lemma_mul_upper_bound(0, start_ticks * 60, 0, rate as int);
        lemma_mul_upper_bound(0, (start_ticks + len_ticks) * 60, 0, rate as int);
    }
    let here: u128 = 960 * (sub as u128);
    let begin: u128 = (start_ticks as u128) * 60 * (rate as u128);
    let end: u128 = ((start_ticks as u128) + (len_ticks as u128)) * 60 * (rate as u128);
    here >= begin && here < end
}

/// The sequencer column under the playhead inside a clip.
pub fn clip_step_at(sub: u64, rate: u32, start_ticks: u64) -> (st: u64)
    requires
        rate >= 1,
        clip_pos_num(sub as int, start_ticks as int, rate as int) >= 0,
    ensures
        st == clip_step_spec(sub as int, rate as int, start_ticks as int),
        st < 16,
{
    proof {
        lemma_mul_upper_bound(start_ticks * 60, 0xffff_ffff_ffff_ffffint * 60, rate as int, 0x1_0000_0000);
        lemma_mul_upper_bound(0, start_ticks * 60, 0, rate as int);
    }
    let here: u128 = 960 * (sub as u128);
    let begin: u128 = (start_ticks as u128) * 60 * (rate as u128);
    let num: u128 = here - begin;
    let den: u128 = 57600 * (rate as u128);
    let q: u128 = (4 * num) / den;
    proof {
        lemma_mod_division_less_than_divisor(q as int, 16);
        lemma_div_pos_is_pos(4 * num as int, den as int);
    }
    (q % 16) as u64
}

/// Whether this sample begins a new sequencer step of the clip.
pub fn step_boundary_at(sub: u64, rate: u32, bpm: u32, start_ticks: u64, len_ticks: u64) -> (r:
    bool)
    requires
        rate >= 1,
        bpm >= 1,
        clip_active_spec(sub as int, rate as int, start_ticks as int, len_ticks as int),
    ensures
        r == step_boundary_spec(
            sub as int,
            rate as int,
            bpm as int,
            start_ticks as int,
            len_ticks as int,
        ),
{
    if sub < bpm as u64 {
        proof {
            lemma_start_term_nonneg(start_ticks as int, rate as int);
        }
        return true;
    }
    let psub: u64 = sub - bpm as u64;
    if !clip_active_at(psub, rate, start_ticks, len_ticks) {
        true
    } else {
        clip_step_at(psub, rate, start_ticks) != clip_step_at(sub, rate, start_ticks)
    }
}

/// Whether the playhead stands in the one-sample entry window of the clip.
pub fn audio_entry_at(sub: u64, rate: u32, bpm: u32, start_ticks: u64, len_ticks: u64) -> (r: bool)
    requires
        rate >= 1,
    ensures
        r == audio_entry_spec(
            sub as int,
            rate as int,
            bpm as int,
            start_ticks as int,
            len_ticks as int,
        ),
{
    if !clip_active_at(sub, rate, start_ticks, len_ticks) {
        return false;
    }
    proof {
        lemma_mul_upper_bound(start_ticks * 60, 0xffff_ffff_ffff_ffffint * 60, rate as int, 0x1_0000_0000);
        lemma_mul_upper_bound(0, start_ticks * 60, 0, rate as int);
    }
    let here: u128 = 960 * (sub as u128);
    let begin: u128 = (start_ticks as u128) * 60 * (rate as u128);
    here - begin < 960 * (bpm as u128)
}

/// Whether this sample crosses an integer-beat boundary.
pub fn beat_boundary_at(sub: u64, rate: u32, bpm: u32) -> (r: bool)
    requires
        rate >= 1,
        bpm >= 1,
    ensures
        r == beat_boundary_spec(sub as int, rate as int, bpm as int),
{
    let den: u64 = 60 * (rate as u64);
    if sub < bpm as u64 {
        proof {
            lemma_neg_div_neg(sub - bpm, den as int);
            lemma_div_pos_is_pos(sub as int, den as int);
        }
        true
    } else {
        sub / den != (sub - bpm as u64) / den
    }
}

/// One quarter-step advance per sample at most: over one sample the
/// authoritative quarter-step count `clip_quarters` stays or rises by one,
/// and the frame-wise comparison of derived step indices fires exactly when
/// it rises. This holds for any `samplesPerBeat`, integer or not, whenever a
/// step lasts at least one sample (`bpm <= 15 * rate`). That bound cannot be
/// dropped: a sample that jumps a whole 16-step cycle leaves the derived
/// index unchanged and the comparison silent. Every tempo the transport
/// accepts (40..=300 BPM) satisfies it at any output rate of 20 Hz or more,
/// so at every real audio rate.
pub proof fn lemma_single_step(sub: int, rate: int, bpm: int, start_ticks: int)
    requires
        rate >= 1,
        1 <= bpm <= 15 * rate,
    ensures
        clip_quarters(sub - bpm, rate, start_ticks) <= clip_quarters(sub, rate, start_ticks),
        clip_quarters(sub, rate, start_ticks) <= clip_quarters(sub - bpm, rate, start_ticks) + 1,
        (clip_step_spec(sub, rate, start_ticks) != clip_step_spec(sub - bpm, rate, start_ticks))
            <==> (clip_quarters(sub, rate, start_ticks) == clip_quarters(
            sub - bpm,
            rate,
            start_ticks,
        ) + 1),
{
    let d = clip_pos_den(rate);
    let np = 4 * clip_pos_num(sub - bpm, start_ticks, rate);
    let nc = 4 * clip_pos_num(sub, start_ticks, rate);
    assert(nc - np == 3840 * bpm);
    assert(d >= 57600) by (nonlinear_arith)
        requires
            rate >= 1,
            d == 57600 * rate,
    ;
    assert(3840 * bpm <= d) by (nonlinear_arith)
        requires
            bpm <= 15 * rate,
            d == 57600 * rate,
    ;
    lemma_div_is_ordered(np, nc, d);
    lemma_div_is_ordered(nc, np + d, d);
    lemma_div_plus_one(np, d);
    let qp = clip_quarters(sub - bpm, rate, start_ticks);
    let qc = clip_quarters(sub, rate, start_ticks);
    if qc == qp + 1 {
        lemma_mod_16_succ_differs(qp);
    }
}

proof fn lemma_mod_16_succ_differs(q: int)
    ensures
        (q + 1) % 16 != q % 16,
{
    lemma_add_mod_noop(q, 1, 16);
    lemma_mod_division_less_than_divisor(q, 16);
    lemma_small_mod(1nat, 16nat);
    let m = q % 16;
    if m + 1 < 16 {
        lemma_small_mod((m + 1) as nat, 16nat);
    } else {
        lemma_mod_self_0(16);
    }
}

/// Whether the frame-wise trigger decision fires at this sample: the step
/// index derived at the sample differs from the one derived one sample
/// earlier.
pub open spec fn step_fires_at(sub: int, rate: int, bpm: int, start_ticks: int) -> bool {
    clip_step_spec(sub, rate, start_ticks) != clip_step_spec(sub - bpm, rate, start_ticks)
}

/// How often the frame-wise decision fires over the `k` samples after the
/// one at `sub`.
pub open spec fn fire_count(sub: int, k: nat, rate: int, bpm: int, start_ticks: int) -> int
    decreases k,
{
    if k == 0 {
        0
    } else {
        fire_count(sub, (k - 1) as nat, rate, bpm, start_ticks) + if step_fires_at(
            sub + k * bpm,
            rate,
            bpm,
            start_ticks,
        ) {
            1int
        } else {
            0int
        }
    }
}

/// Step determinism: over any span of samples, the frame-wise decisions
/// fire exactly as often as the authoritative `floor(position * 4)` count
/// advances — no double fires and no missed fires, for every tempo, frame
/// size and playhead position whose steps last at least one sample
/// (`bpm <= 15 * rate`, met by every accepted tempo at any rate of 20 Hz
/// or more; see `lemma_single_step` for why the bound is necessary).
pub proof fn lemma_step_determinism(sub: int, k: nat, rate: int, bpm: int, start_ticks: int)
    requires
        rate >= 1,
        1 <= bpm <= 15 * rate,
    ensures
        fire_count(sub, k, rate, bpm, start_ticks) == clip_quarters(
            sub + k * bpm,
            rate,
            start_ticks,
        ) - clip_quarters(sub, rate, start_ticks),
    decreases k,
{
    if k == 0 {
    } else {
        lemma_step_determinism(sub, (k - 1) as nat, rate, bpm, start_ticks);
        assert(sub + k * bpm - bpm == sub + (k - 1) * bpm) by (nonlinear_arith);
        lemma_single_step(sub + k * bpm, rate, bpm, start_ticks);
    }
}

/// An audio clip triggers at most once per pass: the entry window holds
/// exactly one sample of a playback, so no later sample of the same pass
/// (`k` samples on, the playhead `k * bpm` sub-beats further) lies in it.
pub proof fn lemma_audio_entry_unique(sub: int, k: int, rate: int, bpm: int, start_ticks: int, len_ticks: int)
    requires
        rate >= 1,
        bpm >= 1,
        k >= 1,
        audio_entry_spec(sub, rate, bpm, start_ticks, len_ticks),
    ensures
        !audio_entry_spec(sub + k * bpm, rate, bpm, start_ticks, len_ticks),
{
    assert(960 * (sub + k * bpm) - 960 * sub >= 960 * bpm) by (nonlinear_arith)
        requires
            k >= 1,
            bpm >= 1,
    ;
}

/// One whole-beat advance per sample at most: over one sample the whole-beat
/// count stays or rises by one, and the metronome's boundary comparison
/// fires exactly when it rises — one click per integer-beat crossing,
/// whenever a beat lasts at least one sample (`bpm <= 60 * rate`).
pub proof fn lemma_beat_boundary_single(sub: int, rate: int, bpm: int)
    requires
        rate >= 1,
        1 <= bpm <= 60 * rate,
    ensures
        whole_beats_spec(sub - bpm, rate) <= whole_beats_spec(sub, rate),
        whole_beats_spec(sub, rate) <= whole_beats_spec(sub - bpm, rate) + 1,
        beat_boundary_spec(sub, rate, bpm) <==> whole_beats_spec(sub, rate) == whole_beats_spec(
            sub - bpm,
            rate,
        ) + 1,
{
    let d = 60 * rate;
    lemma_div_is_ordered(sub - bpm, sub, d);
    lemma_div_is_ordered(sub, sub - bpm + d, d);
    lemma_div_plus_one(sub - bpm, d);
}

/// The musical clock: playhead, tempo, sample rate and run flags.
pub struct Transport {
    /// Playhead position in beats, as a numerator over `60 * sample_rate_hz`.
    pub playhead_subbeats: u64,
    /// Tempo in beats per minute, kept within `MIN_BPM..=MAX_BPM`.
    pub tempo_bpm: u32,
    /// Output sample rate in Hz, fixed at creation.
    pub sample_rate_hz: u32,
    /// Whether the scheduler advances the playhead each frame.
    pub is_running: bool,
    /// Whether the metronome clicks on beat boundaries.
    pub is_metronome: bool,
}

impl Transport {
    /// Validity: the tempo stays in range and the sample rate is positive.
    pub open spec fn wf(self) -> bool {
        &&& MIN_BPM <= self.tempo_bpm <= MAX_BPM
        &&& self.sample_rate_hz >= 1
    }

    /// The transport one sample later: the playhead gains `tempo_bpm`
    /// sub-beats; at the (unreachable in practice) end of the counter the
    /// transport stops instead of wrapping.
    pub open spec fn advanced_spec(self) -> Transport {
        if self.playhead_subbeats + self.tempo_bpm <= u64::MAX {
            Transport { playhead_subbeats: (self.playhead_subbeats + self.tempo_bpm) as u64, ..self }
        } else {
            Transport { is_running: false, ..self }
        }
    }

    /// A stopped transport at beat zero, 130 BPM, metronome off.
    pub fn new(sample_rate_hz: u32) -> (t: Transport)
        requires
            sample_rate_hz >= 1,
        ensures
            t.wf(),
            t.playhead_subbeats == 0,
            t.tempo_bpm == 130,
            t.sample_rate_hz == sample_rate_hz,
            !t.is_running,
            !t.is_metronome,
    {
        Transport {
            playhead_subbeats: 0,
            tempo_bpm: 130,
            sample_rate_hz,
            is_running: false,
            is_metronome: false,
        }
    }

    /// Moves the playhead one sample forward.
    pub fn advance(&mut self)
        requires
            old(self).wf(),
        ensures
            *final(self) == old(self).advanced_spec(),
            final(self).wf(),
    {
        if self.playhead_subbeats <= u64::MAX - self.tempo_bpm as u64 {
            self.playhead_subbeats = self.playhead_subbeats + self.tempo_bpm as u64;
        } else {
            self.is_running = false;
        }
    }

    /// Sets the tempo if it lies in `MIN_BPM..=MAX_BPM`; otherwise the
    /// request is refused and nothing changes. The playhead position in
    /// beats is unchanged either way: a tempo change alters only the rate
    /// of future advancement.
    pub fn set_tempo(&mut self, bpm: u32) -> (ok: bool)
        ensures
            ok == (MIN_BPM <= bpm <= MAX_BPM),
            ok ==> *final(self) == (Transport { tempo_bpm: bpm, ..*old(self) }),
            !ok ==> *final(self) == *old(self),
    {
        if MIN_BPM <= bpm && bpm <= MAX_BPM {
            self.tempo_bpm = bpm;
            true
        } else {
            false
        }
    }

    /// Samples in one beat at the current tempo, rounded down:
    /// `60 * sample_rate_hz / tempo_bpm`.
    pub fn samples_per_beat(&self) -> (r: u64)
        requires
            self.wf(),
        ensures
            r == subbeats_per_beat(self.sample_rate_hz as int) / self.tempo_bpm as int,
    {
        60 * (self.sample_rate_hz as u64) / (self.tempo_bpm as u64)
    }

    /// Whole beats under the playhead.
    pub fn whole_beats(&self) -> (r: u64)
        requires
            self.wf(),
        ensures
            r == whole_beats_spec(self.playhead_subbeats as int, self.sample_rate_hz as int),
    {
        self.playhead_subbeats / (60 * (self.sample_rate_hz as u64))
    }

    /// Starts playback at the current playhead.
    pub fn play(&mut self)
        ensures
            *final(self) == (Transport { is_running: true, ..*old(self) }),
    {
        self.is_running = true;
    }

    /// Pauses playback, keeping the playhead.
    pub fn pause(&mut self)
        ensures
            *final(self) == (Transport { is_running: false, ..*old(self) }),
    {
        self.is_running = false;
    }

    /// Stops playback and resets the playhead to beat zero.
    pub fn stop(&mut self)
        ensures
            *final(self) == (Transport { is_running: false, playhead_subbeats: 0, ..*old(self) }),
    {
        self.is_running = false;
        self.playhead_subbeats = 0;
    }

    /// Flips the metronome flag.
    pub fn toggle_metronome(&mut self)
        ensures
            *final(self) == (Transport { is_metronome: !old(self).is_metronome, ..*old(self) }),
    {
        self.is_metronome = !self.is_metronome;
    }
}

} // verus!
