//! The shared state and the per-frame engine.
//!
//! `AudioState` is the single logical state shared between the user
//! interface and the audio callback: the transport, the instrument list,
//! the live step grid, the pattern library, the timeline, the metronome
//! voice and an optional preview voice. Callers serialize access to it (a
//! mutex around the whole state); every method here assumes exclusive
//! access and keeps the state invariant, in particular the alignment of
//! every pattern's row count with the instrument count.

use vstd::prelude::*;

verus! {

use crate::pattern::{Pattern, grid_wf, blank_row, copy_grid};
use crate::sample::{Instrument, SampleBuffer, SAMPLE_UNIT};
use crate::timeline::{ClipType, Playlist};
use crate::transport::{
    Transport,
    audio_entry_at,
    audio_entry_spec,
    beat_boundary_at,
    beat_boundary_spec,
    clip_active_at,
    clip_active_spec,
    clip_step_at,
    clip_step_spec,
    step_boundary_at,
    step_boundary_spec,
};

/// Cap on instrument slots; keeps every mix sum far inside `i64`.
pub const MAX_INSTRUMENTS: usize = 65536;

/// The single mutually-exclusive container of the whole engine state.
pub struct AudioState {
    /// Which library pattern the live grid edits, if any.
    pub current_pattern_index: Option<usize>,
    /// The loaded sounds, each with its playback cursor.
    pub instruments: Vec<Instrument>,
    /// The live step grid being edited: one 16-column row per instrument.
    pub pattern: Vec<Vec<bool>>,
    /// The pattern library; rows stay aligned to the instrument list.
    pub patterns: Vec<Pattern>,
    /// The timeline of tracks and placed clips.
    pub playlist: Playlist,
    /// The musical clock.
    pub transport: Transport,
    /// Sequencer column highlighted in the editor.
    pub current_step: usize,
    /// The metronome click voice.
    pub metronome: Instrument,
    /// The file-browser preview voice, discarded once it finishes.
    pub preview_sound: Option<Instrument>,
}

impl AudioState {
    /// The state invariant: a valid clock, normalized voices with in-range
    /// cursors, a valid timeline, and one grid row per instrument in the
    /// live grid and in every library pattern.
    pub open spec fn wf(self) -> bool {
        &&& self.transport.wf()
        &&& self.instruments@.len() <= MAX_INSTRUMENTS
        &&& forall|i: int|
            0 <= i < self.instruments@.len() ==> (#[trigger] self.instruments@[i]).wf()
        &&& self.pattern@.len() == self.instruments@.len()
        &&& grid_wf(self.pattern@)
        &&& forall|p: int|
            0 <= p < self.patterns@.len() ==> (#[trigger] self.patterns@[p]).wf()
                && self.patterns@[p].data@.len() == self.instruments@.len()
        &&& self.playlist.wf()
        &&& self.metronome.wf()
        &&& (self.preview_sound matches Some(v) ==> v.wf())
    }

    /// A fresh engine for the given output sample rate: no instruments, one
    /// blank pattern under edit, three empty tracks, a stopped transport at
    /// 130 BPM, a silent metronome and no preview.
    pub fn new(sample_rate_hz: u32) -> (s: AudioState)
        requires
            sample_rate_hz >= 1,
        ensures
            s.wf(),
            s.instruments@.len() == 0,
            s.patterns@.len() == 1,
            s.patterns@[0].data@.len() == 0,
            s.current_pattern_index == Some(0usize),
            s.pattern@.len() == 0,
            s.playlist.tracks@.len() == 3,
            s.playlist.clips@.len() == 0,
            s.transport.sample_rate_hz == sample_rate_hz,
            s.transport.tempo_bpm == 130,
            s.transport.playhead_subbeats == 0,
            !s.transport.is_running,
            !s.transport.is_metronome,
            s.metronome.buffer.data@.len() == 0,
            !s.metronome.is_playing,
            s.preview_sound is None,
            s.current_step == 0,
    {
        let mut patterns: Vec<Pattern> = Vec::new();
        patterns.push(Pattern::blank(String::from_str("Pattern 1"), 0));
        AudioState {
            current_pattern_index: Some(0),
            instruments: Vec::new(),
            pattern: Vec::new(),
            patterns,
            playlist: Playlist::new(),
            transport: Transport::new(sample_rate_hz),
            current_step: 0,
            metronome: Instrument::new(
                String::from_str("metronome"),
                SampleBuffer::empty(String::from_str("metronome")),
            ),
            preview_sound: None,
        }
    }

    /// Appends an instrument for a loaded sound, and atomically appends a
    /// matching all-false row to the live grid and to every pattern of the
    /// library, keeping them aligned. Returns the new instrument's index,
    /// or `None` when the slot cap is reached (nothing changes then).
    pub fn add_instrument(&mut self, name: String, buffer: SampleBuffer) -> (r: Option<usize>)
        requires
            old(self).wf(),
            buffer.wf(),
        ensures
            r is Some <==> old(self).instruments@.len() < MAX_INSTRUMENTS,
            r is None ==> *final(self) == *old(self),
            r matches Some(idx) ==> {
                &&& idx == old(self).instruments@.len()
                &&& final(self).instruments@.len() == old(self).instruments@.len() + 1
                &&& forall|i: int|
                    0 <= i < old(self).instruments@.len() ==> final(self).instruments@[i] == old(self).instruments@[i]
                &&& final(self).instruments@[idx as int].name == name
                &&& final(self).instruments@[idx as int].buffer == buffer
                &&& final(self).instruments@[idx as int].position == 0
                &&& !final(self).instruments@[idx as int].is_playing
                &&& final(self).pattern@.len() == old(self).pattern@.len() + 1
                &&& forall|i: int|
                    0 <= i < old(self).pattern@.len() ==> (#[trigger] final(self).pattern@[i])@
                        == old(self).pattern@[i]@
                &&& forall|s: int|
                    0 <= s < 16 ==> !(#[trigger] (final(self).pattern@[idx as int])@[s])
                &&& final(self).patterns@.len() == old(self).patterns@.len()
                &&& forall|p: int|
                    0 <= p < old(self).patterns@.len() ==> {
                        &&& (#[trigger] final(self).patterns@[p]).name == old(self).patterns@[p].name
                        &&& final(self).patterns@[p].data@.len() == old(self).patterns@[p].data@.len() + 1
                        &&& forall|i: int|
                            0 <= i < old(self).patterns@[p].data@.len() ==> (#[trigger] final(self).patterns@[p].data@[i])@ == old(self).patterns@[p].data@[i]@
                        &&& forall|s: int|
                            0 <= s < 16 ==> !(#[trigger] (final(self).patterns@[p].data@[old(self).patterns@[p].data@.len() as int])@[s])
                        &&& (final(self).patterns@[p].data@[old(self).patterns@[p].data@.len() as int])@.len() == 16
                    }
                &&& final(self).playlist == old(self).playlist
                &&& final(self).transport == old(self).transport
                &&& final(self).metronome == old(self).metronome
                &&& final(self).preview_sound == old(self).preview_sound
                &&& final(self).current_pattern_index == old(self).current_pattern_index
                &&& final(self).current_step == old(self).current_step
            },
            final(self).wf(),
    {
        if self.instruments.len() >= MAX_INSTRUMENTS {
            return None;
        }
        let idx = self.instruments.len();
        self.instruments.push(Instrument::new(name, buffer));
        self.pattern.push(blank_row());
        let mut p: usize = 0;
        while p < self.patterns.len()
            invariant
                p <= self.patterns@.len(),
                self.patterns@.len() == old(self).patterns@.len(),
                forall|j: int|
                    0 <= j < p ==> {
                        &&& (#[trigger] self.patterns@[j]).name == old(self).patterns@[j].name
                        &&& self.patterns@[j].data@.len() == old(self).patterns@[j].data@.len() + 1
                        &&& forall|i: int|
                            0 <= i < old(self).patterns@[j].data@.len() ==> (#[trigger] self
                                .patterns@[j].data@[i])@ == old(self).patterns@[j].data@[i]@
                        &&& forall|s: int|
                            0 <= s < 16 ==> !(#[trigger] (self.patterns@[j].data@[old(self).patterns@[j].data@.len() as int])@[s])
                        &&& (self.patterns@[j].data@[old(self).patterns@[j].data@.len() as int])@.len() == 16
                    },
                forall|j: int|
                    p <= j < self.patterns@.len() ==> #[trigger] self.patterns@[j] == old(self).patterns@[j],
                self.instruments@ == old(self).instruments@.push(
                    (Instrument { name, buffer, position: 0, is_playing: false }),
                ),
                self.pattern@.len() == old(self).pattern@.len() + 1,
                forall|i: int|
                    0 <= i < old(self).pattern@.len() ==> (#[trigger] self.pattern@[i])@ == old(self).pattern@[i]@,
                (self.pattern@[idx as int])@.len() == 16,
                forall|s: int| 0 <= s < 16 ==> !(#[trigger] (self.pattern@[idx as int])@[s]),
                self.playlist == old(self).playlist,
                self.transport == old(self).transport,
                self.metronome == old(self).metronome,
                self.preview_sound == old(self).preview_sound,
                self.current_pattern_index == old(self).current_pattern_index,
                self.current_step == old(self).current_step,
                idx == old(self).instruments@.len(),
            decreases self.patterns@.len() - p,
        {
            let pat = &mut self.patterns[p];
            pat.add_row();
            p = p + 1;
        }
        proof {
            assert forall|i: int| 0 <= i < self.instruments@.len() implies (#[trigger] self
                .instruments@[i]).wf() by {
                if i < old(self).instruments@.len() {
                    assert(old(self).instruments@[i].wf());
                }
            }
            assert forall|r: int| 0 <= r < self.pattern@.len() implies (#[trigger] self
                .pattern@[r])@.len() == 16 by {
                if r < old(self).pattern@.len() {
                    assert(old(self).pattern@[r]@.len() == 16);
                }
            }
            assert forall|q: int| 0 <= q < self.patterns@.len() implies (#[trigger] self
                .patterns@[q]).wf() by {
                assert(old(self).patterns@[q].wf());
                assert forall|r: int| 0 <= r < self.patterns@[q].data@.len() implies (
                #[trigger] self.patterns@[q].data@[r])@.len() == 16 by {
                    if r < old(self).patterns@[q].data@.len() {
                        assert(self.patterns@[q].data@[r]@ == old(self).patterns@[q].data@[r]@);
                    }
                }
            }
        }
        Some(idx)
    }

    /// Flips one cell of the live grid; a slot or step outside the grid is
    /// refused and changes nothing.
    pub fn toggle_step(&mut self, instrument_index: usize, step: usize) -> (ok: bool)
        requires
            old(self).wf(),
        ensures
            ok == (instrument_index < old(self).pattern@.len() && step < 16),
            !ok ==> *final(self) == *old(self),
            ok ==> {
                &&& final(self).pattern@.len() == old(self).pattern@.len()
                &&& (final(self).pattern@[instrument_index as int])@[step as int] == !(old(self).pattern@[instrument_index as int])@[step as int]
                &&& forall|i: int, s: int|
                    0 <= i < old(self).pattern@.len() && 0 <= s < (old(self).pattern@[i])@.len()
                        && !(i == instrument_index && s == step)
                        ==> #[trigger] final(self).pattern@[i]@[s] == old(self).pattern@[i]@[s]
                &&& *final(self) == (AudioState { pattern: final(self).pattern, ..*old(self) })
            },
            final(self).wf(),
    {
        if instrument_index < self.pattern.len() && step < 16 {
            let row = &mut self.pattern[instrument_index];
            let v = row[step];
            row.set(step, !v);
            true
        } else {
            false
        }
    }

    /// Appends a blank pattern, with one row per current instrument, to the
    /// library.
    pub fn add_pattern(&mut self, name: String)
        requires
            old(self).wf(),
        ensures
            final(self).patterns@.len() == old(self).patterns@.len() + 1,
            forall|p: int|
                0 <= p < old(self).patterns@.len() ==> final(self).patterns@[p] == old(self).patterns@[p],
            final(self).patterns@.last().name == name,
            final(self).patterns@.last().data@.len() == old(self).instruments@.len(),
            forall|r: int, s: int|
                0 <= r < old(self).instruments@.len() && 0 <= s < 16 ==> !(#[trigger] final(self).patterns@.last().data@[r]@[s]),
            *final(self) == (AudioState { patterns: final(self).patterns, ..*old(self) }),
            final(self).wf(),
    {
        let rows = self.instruments.len();
        self.patterns.push(Pattern::blank(name, rows));
    }

    /// Switches the live grid to another library pattern: first persists
    /// the grid into the pattern it was editing, then loads the chosen one.
    /// An index past the library is refused and changes nothing.
    pub fn select_pattern(&mut self, index: usize) -> (ok: bool)
        requires
            old(self).wf(),
        ensures
            ok == (index < old(self).patterns@.len()),
            !ok ==> *final(self) == *old(self),
            ok ==> {
                &&& final(self).current_pattern_index == Some(index)
                &&& final(self).patterns@.len() == old(self).patterns@.len()
                &&& (old(self).current_pattern_index matches Some(ci) ==> (ci
                    < old(self).patterns@.len() ==> {
                    &&& final(self).patterns@[ci as int].name == old(self).patterns@[ci as int].name
                    &&& final(self).patterns@[ci as int].data@.len() == old(self).pattern@.len()
                    &&& forall|r: int|
                        0 <= r < old(self).pattern@.len() ==> (#[trigger] final(self).patterns@[ci as int].data@[r])@ == old(self).pattern@[r]@
                }))
                &&& forall|p: int|
                    0 <= p < old(self).patterns@.len() && old(self).current_pattern_index != Some(
                        p as usize,
                    ) ==> final(self).patterns@[p] == old(self).patterns@[p]
                &&& final(self).pattern@.len() == final(self).patterns@[index as int].data@.len()
                &&& forall|r: int|
                    0 <= r < final(self).patterns@[index as int].data@.len() ==> (#[trigger] final(self).pattern@[r])@ == final(self).patterns@[index as int].data@[r]@
                &&& final(self).instruments == old(self).instruments
                &&& final(self).playlist == old(self).playlist
                &&& final(self).transport == old(self).transport
                &&& final(self).metronome == old(self).metronome
                &&& final(self).preview_sound == old(self).preview_sound
                &&& final(self).current_step == old(self).current_step
            },
            final(self).wf(),
    {
        if index >= self.patterns.len() {
            return false;
        }
        match self.current_pattern_index {
            Some(ci) => {
                if ci < self.patterns.len() {
                    let persisted = copy_grid(&self.pattern);
                    let pat = &mut self.patterns[ci];
                    pat.data = persisted;
                }
            },
            None => {},
        }
        let loaded = copy_grid(&self.patterns[index].data);
        self.pattern = loaded;
        self.current_pattern_index = Some(index);
        true
    }

    /// Removes a pattern from the library. Clips that still reference it,
    /// and a live-grid selection pointing at it, are left dangling and are
    /// tolerated everywhere as "nothing to trigger".
    pub fn remove_pattern(&mut self, index: usize) -> (ok: bool)
        requires
            old(self).wf(),
        ensures
            ok == (index < old(self).patterns@.len()),
            !ok ==> *final(self) == *old(self),
            ok ==> final(self).patterns@ == old(self).patterns@.remove(index as int),
            ok ==> *final(self) == (AudioState { patterns: final(self).patterns, ..*old(self) }),
            final(self).wf(),
    {
        if index < self.patterns.len() {
            self.patterns.remove(index);
            true
        } else {
            false
        }
    }

    /// Appends a copy of a library pattern under the same name.
    pub fn duplicate_pattern(&mut self, index: usize) -> (ok: bool)
        requires
            old(self).wf(),
        ensures
            ok == (index < old(self).patterns@.len()),
            !ok ==> *final(self) == *old(self),
            ok ==> {
                &&& final(self).patterns@.len() == old(self).patterns@.len() + 1
                &&& forall|p: int|
                    0 <= p < old(self).patterns@.len() ==> final(self).patterns@[p] == old(self).patterns@[p]
                &&& final(self).patterns@.last().name@ == old(self).patterns@[index as int].name@
                &&& final(self).patterns@.last().data@.len() == old(self).patterns@[index as int].data@.len()
                &&& forall|r: int|
                    0 <= r < old(self).patterns@[index as int].data@.len() ==> (#[trigger] final(self).patterns@.last().data@[r])@ == old(self).patterns@[index as int].data@[r]@
                &&& *final(self) == (AudioState { patterns: final(self).patterns, ..*old(self) })
            },
            final(self).wf(),
    {
        if index < self.patterns.len() {
            let name = self.patterns[index].name.clone();
            let copy = self.patterns[index].duplicate(name);
            self.patterns.push(copy);
            true
        } else {
            false
        }
    }

    /// Renames a library pattern.
    pub fn rename_pattern(&mut self, index: usize, name: String) -> (ok: bool)
        requires
            old(self).wf(),
        ensures
            ok == (index < old(self).patterns@.len()),
            !ok ==> *final(self) == *old(self),
            ok ==> {
                &&& final(self).patterns@.len() == old(self).patterns@.len()
                &&& final(self).patterns@[index as int].name == name
                &&& final(self).patterns@[index as int].data == old(self).patterns@[index as int].data
                &&& forall|p: int|
                    0 <= p < old(self).patterns@.len() && p != index ==> final(self).patterns@[p]
                        == old(self).patterns@[p]
                &&& *final(self) == (AudioState { patterns: final(self).patterns, ..*old(self) })
            },
            final(self).wf(),
    {
        if index < self.patterns.len() {
            let pat = &mut self.patterns[index];
            pat.name = name;
            true
        } else {
            false
        }
    }

    /// Replaces any current preview voice with a new one playing the given
    /// buffer from the top.
    pub fn preview_sample(&mut self, buffer: SampleBuffer)
        requires
            old(self).wf(),
            buffer.wf(),
        ensures
            final(self).preview_sound matches Some(v) && {
                &&& v.buffer == buffer
                &&& v.position == 0
                &&& v.is_playing
                &&& v.name@ == buffer.name@
            },
            *final(self) == (AudioState { preview_sound: final(self).preview_sound, ..*old(self) }),
            final(self).wf(),
    {
        let name = buffer.name.clone();
        self.preview_sound = Some(
            Instrument { name, buffer, position: 0, is_playing: true },
        );
    }

    /// Installs the metronome click sound, silent until the next beat
    /// boundary while running.
    pub fn set_metronome_sample(&mut self, buffer: SampleBuffer)
        requires
            old(self).wf(),
            buffer.wf(),
        ensures
            final(self).metronome.buffer == buffer,
            final(self).metronome.position == 0,
            !final(self).metronome.is_playing,
            final(self).metronome.name@ == buffer.name@,
            *final(self) == (AudioState { metronome: final(self).metronome, ..*old(self) }),
            final(self).wf(),
    {
        let name = buffer.name.clone();
        self.metronome = Instrument { name, buffer, position: 0, is_playing: false };
    }
}

impl AudioState {
    /// Whether clip `c` is a pattern clip that stands on a new sequencer
    /// step this frame and whose pattern marks instrument row `i` on that
    /// step. A clip referencing a pattern past the library fires nothing.
    pub open spec fn pattern_row_fires(self, c: int, i: int) -> bool {
        let sub = self.transport.playhead_subbeats as int;
        let rate = self.transport.sample_rate_hz as int;
        let bpm = self.transport.tempo_bpm as int;
        &&& 0 <= c < self.playlist.clips@.len()
        &&& (self.playlist.clips@[c].clip_type matches ClipType::Pattern(p) && {
            let start = self.playlist.clips@[c].start_ticks as int;
            let len = self.playlist.clips@[c].length_ticks as int;
            &&& clip_active_spec(sub, rate, start, len)
            &&& step_boundary_spec(sub, rate, bpm, start, len)
            &&& (p as int) < self.patterns@.len()
            &&& 0 <= i < self.patterns@[p as int].data@.len()
            &&& self.patterns@[p as int].data@[i]@[clip_step_spec(sub, rate, start)]
        })
    }

    /// Whether any pattern clip marks instrument `i` this frame.
    pub open spec fn pattern_triggered(self, i: int) -> bool {
        exists|c: int| self.pattern_row_fires(c, i)
    }

    /// Whether clip `c` is an audio clip of instrument `i` whose start the
    /// playhead enters this frame.
    pub open spec fn audio_clip_fires(self, c: int, i: int) -> bool {
        let sub = self.transport.playhead_subbeats as int;
        let rate = self.transport.sample_rate_hz as int;
        let bpm = self.transport.tempo_bpm as int;
        &&& 0 <= c < self.playlist.clips@.len()
        &&& (self.playlist.clips@[c].clip_type matches ClipType::AudioFile(j) && {
            &&& j == i
            &&& audio_entry_spec(
                sub,
                rate,
                bpm,
                self.playlist.clips@[c].start_ticks as int,
                self.playlist.clips@[c].length_ticks as int,
            )
        })
    }

    /// Whether any audio clip of instrument `i` is entered this frame.
    pub open spec fn audio_triggered(self, i: int) -> bool {
        exists|c: int| self.audio_clip_fires(c, i)
    }

    /// The scheduler's decision for instrument `i` this frame: a pattern
    /// step fires it unconditionally; an entered audio clip fires it only
    /// when it is not already playing (no retrigger storms).
    pub open spec fn instrument_triggered(self, i: int) -> bool {
        ||| self.pattern_triggered(i)
        ||| (self.audio_triggered(i) && !self.instruments@[i].is_playing)
    }

    /// Instrument `i` as the mixer reads it this frame: restarted when the
    /// running scheduler fired it, untouched otherwise.
    pub open spec fn scheduled_voice(self, i: int) -> Instrument {
        if self.transport.is_running && self.instrument_triggered(i) {
            self.instruments@[i].triggered_spec()
        } else {
            self.instruments@[i]
        }
    }

    /// The metronome voice as the mixer reads it this frame: restarted when
    /// running, enabled and crossing an integer-beat boundary.
    pub open spec fn scheduled_metronome(self) -> Instrument {
        if self.transport.is_running && self.transport.is_metronome && beat_boundary_spec(
            self.transport.playhead_subbeats as int,
            self.transport.sample_rate_hz as int,
            self.transport.tempo_bpm as int,
        ) {
            self.metronome.triggered_spec()
        } else {
            self.metronome
        }
    }

    /// Sum of the first `n` instruments' contributions this frame.
    pub open spec fn mix_sum(self, n: int) -> int
        decreases n,
    {
        if n <= 0 {
            0
        } else {
            self.mix_sum(n - 1) + self.scheduled_voice(n - 1).contribution()
        }
    }

    /// What the preview voice adds to the output sample.
    pub open spec fn preview_contribution(p: Option<Instrument>) -> int {
        match p {
            Some(v) => v.contribution(),
            None => 0,
        }
    }

    /// The preview voice after one frame: it advances while playing, and is
    /// discarded entirely — not merely stopped — once it finishes.
    pub open spec fn preview_after(p: Option<Instrument>) -> Option<Instrument> {
        match p {
            None => None,
            Some(v) => if v.is_playing && v.position < v.buffer.data@.len() {
                Some(v.after_mix_spec())
            } else if v.is_playing {
                None
            } else {
                Some(v)
            },
        }
    }

    /// The output sample of one frame: the unclamped sum of every active
    /// voice — instruments, metronome and preview — after this frame's
    /// trigger decisions.
    pub open spec fn frame_output(self) -> int {
        self.mix_sum(self.instruments@.len() as int) + self.scheduled_metronome().contribution()
            + Self::preview_contribution(self.preview_sound)
    }

    /// One flag per instrument: whether a pattern clip fires it this frame.
    fn pattern_trigger_flags(&self) -> (f: Vec<bool>)
        requires
            self.wf(),
        ensures
            f@.len() == self.instruments@.len(),
            forall|i: int| 0 <= i < f@.len() ==> #[trigger] f@[i] == self.pattern_triggered(i),
    {
        let n = self.instruments.len();
        let mut f: Vec<bool> = Vec::new();
        let mut i: usize = 0;
        while i < n
            invariant
                i <= n,
                f@.len() == i,
                forall|j: int| 0 <= j < i ==> !(#[trigger] f@[j]),
            decreases n - i,
        {
            f.push(false);
            i = i + 1;
        }
        let sub = self.transport.playhead_subbeats;
        let rate = self.transport.sample_rate_hz;
        let bpm = self.transport.tempo_bpm;
        let mut c: usize = 0;
        while c < self.playlist.clips.len()
            invariant
                self.wf(),
                c <= self.playlist.clips@.len(),
                f@.len() == n,
                n == self.instruments@.len(),
                sub == self.transport.playhead_subbeats,
                rate == self.transport.sample_rate_hz,
                bpm == self.transport.tempo_bpm,
                forall|j: int|
                    0 <= j < n ==> #[trigger] f@[j] == (exists|k: int|
                        k < c && self.pattern_row_fires(k, j)),
            decreases self.playlist.clips@.len() - c,
        {
            let clip = &self.playlist.clips[c];
            match clip.clip_type {
                ClipType::Pattern(p) => {
                    if clip_active_at(sub, rate, clip.start_ticks, clip.length_ticks)
                        && step_boundary_at(sub, rate, bpm, clip.start_ticks, clip.length_ticks)
                        && p < self.patterns.len() {
                        let st = clip_step_at(sub, rate, clip.start_ticks);
                        let rows = &self.patterns[p].data;
                        let mut r: usize = 0;
                        while r < rows.len()
                            invariant
                                self.wf(),
                                r <= rows@.len(),
                                rows == &self.patterns@[p as int].data,
                                p < self.patterns@.len(),
                                c < self.playlist.clips@.len(),
                                f@.len() == n,
                                n == self.instruments@.len(),
                                rows@.len() == n,
                                st == clip_step_spec(
                                    self.transport.playhead_subbeats as int,
                                    self.transport.sample_rate_hz as int,
                                    self.playlist.clips@[c as int].start_ticks as int,
                                ),
                                st < 16,
                                self.playlist.clips@[c as int].clip_type == ClipType::Pattern(p),
                                clip_active_spec(
                                    self.transport.playhead_subbeats as int,
                                    self.transport.sample_rate_hz as int,
                                    self.playlist.clips@[c as int].start_ticks as int,
                                    self.playlist.clips@[c as int].length_ticks as int,
                                ),
                                step_boundary_spec(
                                    self.transport.playhead_subbeats as int,
                                    self.transport.sample_rate_hz as int,
                                    self.transport.tempo_bpm as int,
                                    self.playlist.clips@[c as int].start_ticks as int,
                                    self.playlist.clips@[c as int].length_ticks as int,
                                ),
                                forall|j: int|
                                    0 <= j < n ==> #[trigger] f@[j] == ((exists|k: int|
                                        k < c && self.pattern_row_fires(k, j)) || (j < r
                                        && self.pattern_row_fires(c as int, j))),
                            decreases rows@.len() - r,
                        {
                            let row = &rows[r];
                            let sti: usize = st as usize;
                            if sti < row.len() && row[sti] {
                                f.set(r, true);
                                proof {
                                    assert(self.pattern_row_fires(c as int, r as int));
                                }
                            }
                            r = r + 1;
                        }
                    } else {
                        proof {
                            assert(forall|j: int| !self.pattern_row_fires(c as int, j));
                        }
                    }
                },
                ClipType::AudioFile(_) => {
                    proof {
                        assert(forall|j: int| !self.pattern_row_fires(c as int, j));
                    }
                },
            }
            c = c + 1;
        }
        proof {
            assert forall|j: int| 0 <= j < n implies #[trigger] f@[j] == self.pattern_triggered(
                j,
            ) by {
                if self.pattern_triggered(j) {
                    let k = choose|k: int| self.pattern_row_fires(k, j);
                    assert(k < self.playlist.clips@.len());
                }
            }
        }
        f
    }

    /// One flag per instrument: whether an audio clip of it is entered this
    /// frame.
    fn audio_trigger_flags(&self) -> (f: Vec<bool>)
        requires
            self.wf(),
        ensures
            f@.len() == self.instruments@.len(),
            forall|i: int| 0 <= i < f@.len() ==> #[trigger] f@[i] == self.audio_triggered(i),
    {
        let n = self.instruments.len();
        let mut f: Vec<bool> = Vec::new();
        let mut i: usize = 0;
        while i < n
            invariant
                i <= n,
                f@.len() == i,
                forall|j: int| 0 <= j < i ==> !(#[trigger] f@[j]),
            decreases n - i,
        {
            f.push(false);
            i = i + 1;
        }
        let sub = self.transport.playhead_subbeats;
        let rate = self.transport.sample_rate_hz;
        let bpm = self.transport.tempo_bpm;
        let mut c: usize = 0;
        while c < self.playlist.clips.len()
            invariant
                self.wf(),
                c <= self.playlist.clips@.len(),
                f@.len() == n,
                n == self.instruments@.len(),
                sub == self.transport.playhead_subbeats,
                rate == self.transport.sample_rate_hz,
                bpm == self.transport.tempo_bpm,
                forall|j: int|
                    0 <= j < n ==> #[trigger] f@[j] == (exists|k: int|
                        k < c && self.audio_clip_fires(k, j)),
            decreases self.playlist.clips@.len() - c,
        {
            let clip = &self.playlist.clips[c];
            match clip.clip_type {
                ClipType::AudioFile(j) => {
                    if audio_entry_at(sub, rate, bpm, clip.start_ticks, clip.length_ticks) && j
                        < n {
                        f.set(j, true);
                        proof {
                            assert(self.audio_clip_fires(c as int, j as int));
                        }
                    }
                },
                ClipType::Pattern(_) => {},
            }
            c = c + 1;
        }
        proof {
            assert forall|j: int| 0 <= j < n implies #[trigger] f@[j] == self.audio_triggered(
                j,
            ) by {
                if self.audio_triggered(j) {
                    let k = choose|k: int| self.audio_clip_fires(k, j);
                    assert(k < self.playlist.clips@.len());
                }
            }
        }
        f
    }

    /// Applies this frame's trigger decisions: every fired instrument
    /// restarts from the top of its buffer.
    fn apply_triggers(&mut self, pat: &Vec<bool>, aud: &Vec<bool>)
        requires
            old(self).wf(),
            pat@.len() == old(self).instruments@.len(),
            aud@.len() == old(self).instruments@.len(),
            forall|i: int| 0 <= i < pat@.len() ==> #[trigger] pat@[i] == old(self).pattern_triggered(i),
            forall|i: int| 0 <= i < aud@.len() ==> #[trigger] aud@[i] == old(self).audio_triggered(i),
        ensures
            final(self).instruments@.len() == old(self).instruments@.len(),
            forall|i: int|
                0 <= i < old(self).instruments@.len() ==> #[trigger] final(self).instruments@[i]
                    == (if old(self).instrument_triggered(i) {
                    old(self).instruments@[i].triggered_spec()
                } else {
                    old(self).instruments@[i]
                }),
            *final(self) == (AudioState { instruments: final(self).instruments, ..*old(self) }),
            final(self).wf(),
    {
        let n = self.instruments.len();
        let mut i: usize = 0;
        while i < n
            invariant
                i <= n,
                n == self.instruments@.len(),
                n == old(self).instruments@.len(),
                pat@.len() == n,
                aud@.len() == n,
                forall|j: int| 0 <= j < pat@.len() ==> #[trigger] pat@[j] == old(self).pattern_triggered(j),
                forall|j: int| 0 <= j < aud@.len() ==> #[trigger] aud@[j] == old(self).audio_triggered(j),
                forall|j: int|
                    i <= j < n ==> #[trigger] self.instruments@[j] == old(self).instruments@[j],
                forall|j: int|
                    0 <= j < i ==> #[trigger] self.instruments@[j] == (if old(
                        self,
                    ).instrument_triggered(j) {
                        old(self).instruments@[j].triggered_spec()
                    } else {
                        old(self).instruments@[j]
                    }),
                *self == (AudioState { instruments: self.instruments, ..*old(self) }),
            decreases n - i,
        {
            if pat[i] {
                let v = &mut self.instruments[i];
                v.trigger();
            } else if aud[i] {
                let v = &mut self.instruments[i];
                if !v.is_playing {
                    v.trigger();
                }
            }
            i = i + 1;
        }
        proof {
            assert forall|j: int| 0 <= j < n implies (#[trigger] final(self).instruments@[j]).wf()
                by {
                assert(old(self).instruments@[j].wf());
            }
        }
    }

    /// Runs one audio frame: while the transport runs, decides this frame's
    /// triggers from the timeline, clicks the metronome on beat boundaries,
    /// and advances the playhead by one sample; then mixes every active
    /// voice — instruments, metronome, preview — into one output sample,
    /// advancing each contributing voice and stopping those that finished.
    /// The output is a raw, unclamped sum in fixed-point amplitude units.
    pub fn process_frame(&mut self) -> (out: i64)
        requires
            old(self).wf(),
        ensures
            final(self).wf(),
            out == old(self).frame_output(),
            final(self).instruments@.len() == old(self).instruments@.len(),
            forall|i: int|
                0 <= i < old(self).instruments@.len() ==> #[trigger] final(self).instruments@[i]
                    == old(self).scheduled_voice(i).after_mix_spec(),
            final(self).metronome == old(self).scheduled_metronome().after_mix_spec(),
            final(self).preview_sound == Self::preview_after(old(self).preview_sound),
            final(self).transport == (if old(self).transport.is_running {
                old(self).transport.advanced_spec()
            } else {
                old(self).transport
            }),
            final(self).patterns == old(self).patterns,
            final(self).pattern == old(self).pattern,
            final(self).playlist == old(self).playlist,
            final(self).current_pattern_index == old(self).current_pattern_index,
            final(self).current_step == old(self).current_step,
    {
        if self.transport.is_running {
            let pat = self.pattern_trigger_flags();
            let aud = self.audio_trigger_flags();
            self.apply_triggers(&pat, &aud);
            if self.transport.is_metronome {
                if beat_boundary_at(
                    self.transport.playhead_subbeats,
                    self.transport.sample_rate_hz,
                    self.transport.tempo_bpm,
                ) {
                    self.metronome.trigger();
                }
            }
            self.transport.advance();
        }
        let mut acc: i64 = 0;
        let n = self.instruments.len();
        let mut i: usize = 0;
        while i < n
            invariant
                i <= n,
                n == self.instruments@.len(),
                n == old(self).instruments@.len(),
                n <= MAX_INSTRUMENTS,
                forall|j: int|
                    i <= j < n ==> #[trigger] self.instruments@[j] == old(self).scheduled_voice(j),
                forall|j: int|
                    0 <= j < i ==> #[trigger] self.instruments@[j] == old(self).scheduled_voice(
                        j,
                    ).after_mix_spec(),
                forall|j: int| 0 <= j < n ==> (#[trigger] old(self).instruments@[j]).wf(),
                acc == old(self).mix_sum(i as int),
                -(i as int) * (SAMPLE_UNIT as int) <= acc <= (i as int) * (SAMPLE_UNIT as int),
                self.metronome == old(self).scheduled_metronome(),
                self.metronome.wf(),
                self.preview_sound == old(self).preview_sound,
                self.transport == (if old(self).transport.is_running {
                    old(self).transport.advanced_spec()
                } else {
                    old(self).transport
                }),
                self.patterns == old(self).patterns,
                self.pattern == old(self).pattern,
                self.playlist == old(self).playlist,
                self.current_pattern_index == old(self).current_pattern_index,
                self.current_step == old(self).current_step,
                old(self).wf(),
            decreases n - i,
        {
            let v = &mut self.instruments[i];
            let c = v.mix_step();
            acc = acc + c as i64;
            i = i + 1;
        }
        let mc = self.metronome.mix_step();
        acc = acc + mc as i64;
        let mut drop_preview = false;
        match &mut self.preview_sound {
            Some(v) => {
                if v.is_playing {
                    if v.position < v.buffer.data.len() {
                        acc = acc + v.buffer.data[v.position] as i64;
                        v.position = v.position + 1;
                    } else {
                        drop_preview = true;
                    }
                }
            },
            None => {},
        }
        if drop_preview {
            self.preview_sound = None;
        }
        acc
    }
}

/// Pattern/instrument alignment: in every valid state the live grid and
/// every pattern of the library hold exactly one row per instrument; since
/// every mutation of the state keeps `wf`, this holds at every observation
/// point of any sequence of edits.
pub proof fn lemma_pattern_alignment(s: AudioState)
    requires
        s.wf(),
    ensures
        s.pattern@.len() == s.instruments@.len(),
        forall|p: int|
            0 <= p < s.patterns@.len() ==> (#[trigger] s.patterns@[p]).data@.len()
                == s.instruments@.len(),
{
}

} // verus!
