//! The playlist: tracks and placed clips.
//!
//! A clip places either a pattern or a loaded audio file on a track, with a
//! start position and a length in ticks (`TICKS_PER_BEAT` ticks per beat).
//! Every mutation keeps each clip at least `MIN_CLIP_TICKS` long and inside
//! the `MAX_TICKS` horizon; a resize request below the floor is clamped to
//! the floor, never refused and never committed short.

use vstd::prelude::*;

verus! {

use vstd::arithmetic::div_mod::{lemma_fundamental_div_mod, lemma_mod_division_less_than_divisor};

/// Shortest length a placed clip may have: a quarter beat.
pub const MIN_CLIP_TICKS: u64 = 240;

/// Length given to a freshly placed clip: four beats, one full pattern.
pub const DEFAULT_CLIP_TICKS: u64 = 3840;

/// Horizon of the timeline: no clip reaches past this tick.
pub const MAX_TICKS: u64 = 0x100_0000_0000;

/// What a placed clip plays: a pattern of the library, or a loaded audio
/// file, each by index. A stale index is tolerated and schedules nothing.
#[derive(Clone, Copy, PartialEq, Eq, Structural)]
pub enum ClipType {
    /// Index into the pattern library.
    Pattern(usize),
    /// Index into the instrument list.
    AudioFile(usize),
}

/// Which edge of a clip a resize drags.
#[derive(Clone, Copy, Debug, PartialEq, Eq, Structural)]
pub enum ResizeEdge {
    /// The clip start moves; the end stays.
    Left,
    /// The clip end moves; the start stays.
    Right,
}

/// A resize in progress: which clip, which edge, and the geometry it had
/// when the drag began.
#[derive(Clone, Copy, PartialEq, Eq, Structural)]
pub struct ResizeState {
    /// Index of the clip being resized.
    pub clip_index: usize,
    /// The edge being dragged.
    pub edge: ResizeEdge,
    /// Clip start when the drag began, in ticks.
    pub initial_start: u64,
    /// Clip length when the drag began, in ticks.
    pub initial_length: u64,
}

/// A pattern or audio file placed on a track.
pub struct PlacedClip {
    /// What the clip plays.
    pub clip_type: ClipType,
    /// Display name.
    pub name: String,
    /// Lane the clip sits on.
    pub track_index: usize,
    /// Start position in ticks.
    pub start_ticks: u64,
    /// Length in ticks, at least `MIN_CLIP_TICKS`.
    pub length_ticks: u64,
}

/// A lane of the playlist; purely an identity, it owns no clips.
pub struct Track {
    /// Display name.
    pub name: String,
    /// Lane height for display, in pixels.
    pub height: u32,
    /// Whether the lane is muted (display state).
    pub muted: bool,
    /// Whether the lane is soloed (display state).
    pub solo: bool,
}

/// `x` rounded to the nearest multiple of `div` (half rounds up);
/// `div == 0` means no quantization.
pub open spec fn quantized(x: int, div: int) -> int {
    if div == 0 {
        x
    } else {
        ((x + div / 2) / div) * div
    }
}

/// `x` forced into `[lo, hi]` (with `lo <= hi`).
pub open spec fn clamped(x: int, lo: int, hi: int) -> int {
    if x < lo {
        lo
    } else if x > hi {
        hi
    } else {
        x
    }
}

/// The clip after a resize: the request is quantized to the snap grid, then
/// clamped so the length never falls below `MIN_CLIP_TICKS`, the start never
/// falls below zero, and the clip never reaches past `MAX_TICKS`. Dragging
/// the left edge keeps the end fixed; dragging the right edge keeps the
/// start fixed.
pub open spec fn resized_clip_spec(c: PlacedClip, edge: ResizeEdge, req: int, div: int) -> PlacedClip {
    let capped = if req > MAX_TICKS { MAX_TICKS as int } else { req };
    let q = quantized(capped, div);
    match edge {
        ResizeEdge::Left => {
            let end = c.start_ticks + c.length_ticks;
            let ns = if q > end - MIN_CLIP_TICKS {
                end - MIN_CLIP_TICKS
            } else {
                q
            };
            PlacedClip { start_ticks: ns as u64, length_ticks: (end - ns) as u64, ..c }
        },
        ResizeEdge::Right => {
            let nl = clamped(q, MIN_CLIP_TICKS as int, MAX_TICKS - c.start_ticks);
            PlacedClip { length_ticks: nl as u64, ..c }
        },
    }
}

/// Rounds `x` to the nearest multiple of `div`; `div == 0` leaves `x` as is.
fn quantize_ticks(x: u64, div: u64) -> (r: u64)
    requires
        x <= MAX_TICKS,
    ensures
        r == quantized(x as int, div as int),
        r <= x + div / 2,
{
    if div == 0 {
        x
    } else {
        let s: u64 = x + div / 2;
        let q: u64 = s / div;
        proof {
            lemma_fundamental_div_mod(s as int, div as int);
            lemma_mod_division_less_than_divisor(s as int, div as int);
        }
        q * div
    }
}

impl PlacedClip {
    /// Validity: the length respects the floor and the clip stays inside
    /// the horizon.
    pub open spec fn geometry_wf(self) -> bool {
        &&& self.length_ticks >= MIN_CLIP_TICKS
        &&& self.start_ticks + self.length_ticks <= MAX_TICKS
    }
}

/// The timeline: an ordered list of tracks and a flat list of placed clips.
pub struct Playlist {
    /// The lanes.
    pub tracks: Vec<Track>,
    /// The placed clips, each referencing a lane by index.
    pub clips: Vec<PlacedClip>,
}

impl Playlist {
    /// Validity: every clip has sound geometry and sits on an existing lane.
    pub open spec fn wf(self) -> bool {
        forall|i: int|
            0 <= i < self.clips@.len() ==> (#[trigger] self.clips@[i]).geometry_wf()
                && self.clips@[i].track_index < self.tracks@.len()
    }

    /// A playlist with three empty lanes and no clips.
    pub fn new() -> (p: Playlist)
        ensures
            p.wf(),
            p.tracks@.len() == 3,
            p.clips@.len() == 0,
    {
        let mut tracks: Vec<Track> = Vec::new();
        tracks.push(Track { name: String::from_str("Track 1"), height: 60, muted: false, solo: false });
        tracks.push(Track { name: String::from_str("Track 2"), height: 50, muted: false, solo: false });
        tracks.push(Track { name: String::from_str("Track 3"), height: 50, muted: false, solo: false });
        Playlist { tracks, clips: Vec::new() }
    }

    /// Places a clip on a lane. The placement is refused — and nothing
    /// changes — when the lane does not exist, the length is under the
    /// floor, or the clip would reach past the horizon.
    pub fn place_clip(
        &mut self,
        clip_type: ClipType,
        name: String,
        track_index: usize,
        start_ticks: u64,
        length_ticks: u64,
    ) -> (ok: bool)
        requires
            old(self).wf(),
        ensures
            ok == (track_index < old(self).tracks@.len() && length_ticks >= MIN_CLIP_TICKS
                && start_ticks + length_ticks <= MAX_TICKS),
            ok ==> final(self).clips@ == old(self).clips@.push(
                (PlacedClip { clip_type, name, track_index, start_ticks, length_ticks }),
            ),
            !ok ==> *final(self) == *old(self),
            final(self).tracks@ == old(self).tracks@,
            final(self).wf(),
    {
        if track_index < self.tracks.len() && length_ticks >= MIN_CLIP_TICKS && start_ticks
            <= MAX_TICKS && length_ticks <= MAX_TICKS && start_ticks + length_ticks <= MAX_TICKS {
            self.clips.push(PlacedClip { clip_type, name, track_index, start_ticks, length_ticks });
            true
        } else {
            false
        }
    }

    /// Resizes a clip by dragging one edge to a requested position
    /// (`requested_ticks`: the new length for the right edge, the new start
    /// for the left edge), optionally quantized to a snap grid of
    /// `snap_ticks` (0 for none). The result never falls below the minimum
    /// length, however small the request; an index past the clip list is
    /// refused and changes nothing.
    pub fn resize_clip(
        &mut self,
        clip_index: usize,
        edge: ResizeEdge,
        requested_ticks: u64,
        snap_ticks: u64,
    ) -> (ok: bool)
        requires
            old(self).wf(),
        ensures
            ok == (clip_index < old(self).clips@.len()),
            ok ==> final(self).clips@ == old(self).clips@.update(
                clip_index as int,
                resized_clip_spec(
                    old(self).clips@[clip_index as int],
                    edge,
                    requested_ticks as int,
                    snap_ticks as int,
                ),
            ),
            ok ==> final(self).clips@[clip_index as int].length_ticks >= MIN_CLIP_TICKS,
            !ok ==> *final(self) == *old(self),
            final(self).tracks@ == old(self).tracks@,
            final(self).wf(),
    {
        if clip_index >= self.clips.len() {
            return false;
        }
        let capped: u64 = if requested_ticks > MAX_TICKS {
            MAX_TICKS
        } else {
            requested_ticks
        };
        let q: u64 = quantize_ticks(capped, snap_ticks);
        let c = &mut self.clips[clip_index];
        match edge {
            ResizeEdge::Left => {
                let end: u64 = c.start_ticks + c.length_ticks;
                let limit: u64 = end - MIN_CLIP_TICKS;
                let ns: u64 = if q > limit {
                    limit
                } else {
                    q
                };
                c.start_ticks = ns;
                c.length_ticks = end - ns;
            },
            ResizeEdge::Right => {
                let hi: u64 = MAX_TICKS - c.start_ticks;
                let nl: u64 = if q < MIN_CLIP_TICKS {
                    MIN_CLIP_TICKS
                } else if q > hi {
                    hi
                } else {
                    q
                };
                c.length_ticks = nl;
            },
        }
        proof {
            assert(final(self).clips@ =~= old(self).clips@.update(
                clip_index as int,
                resized_clip_spec(
                    old(self).clips@[clip_index as int],
                    edge,
                    requested_ticks as int,
                    snap_ticks as int,
                ),
            ));
        }
        true
    }

    /// Begins a resize session: captures which clip and edge are dragged
    /// and the geometry the clip had when the drag began, so the caller can
    /// turn accumulated drag deltas into the absolute requests that
    /// `resize_clip` takes. An index past the clip list yields `None`.
    pub fn begin_resize(&self, clip_index: usize, edge: ResizeEdge) -> (r: Option<ResizeState>)
        ensures
            r is Some <==> clip_index < self.clips@.len(),
            r matches Some(st) ==> {
                &&& st.clip_index == clip_index
                &&& st.edge == edge
                &&& st.initial_start == self.clips@[clip_index as int].start_ticks
                &&& st.initial_length == self.clips@[clip_index as int].length_ticks
            },
    {
        if clip_index < self.clips.len() {
            let c = &self.clips[clip_index];
            Some(
                ResizeState {
                    clip_index,
                    edge,
                    initial_start: c.start_ticks,
                    initial_length: c.length_ticks,
                },
            )
        } else {
            None
        }
    }

    /// Removes a clip; an index past the clip list is refused.
    pub fn remove_clip(&mut self, clip_index: usize) -> (ok: bool)
        requires
            old(self).wf(),
        ensures
            ok == (clip_index < old(self).clips@.len()),
            ok ==> final(self).clips@ == old(self).clips@.remove(clip_index as int),
            !ok ==> *final(self) == *old(self),
            final(self).tracks@ == old(self).tracks@,
            final(self).wf(),
    {
        if clip_index < self.clips.len() {
            self.clips.remove(clip_index);
            true
        } else {
            false
        }
    }
}

/// Clip minimum length: whatever edge is dragged, whatever position is
/// requested and whatever snap grid is applied, the clip a resize commits
/// is never shorter than `MIN_CLIP_TICKS` and never reaches past the
/// horizon.
pub proof fn lemma_resize_respects_floor(c: PlacedClip, edge: ResizeEdge, req: int, div: int)
    requires
        c.geometry_wf(),
        req >= 0,
        div >= 0,
    ensures
        resized_clip_spec(c, edge, req, div).length_ticks >= MIN_CLIP_TICKS,
        resized_clip_spec(c, edge, req, div).geometry_wf(),
{
    if div > 0 {
        let capped = if req > MAX_TICKS {
            MAX_TICKS as int
        } else {
            req
        };
        lemma_fundamental_div_mod(capped + div / 2, div);
        lemma_mod_division_less_than_divisor(capped + div / 2, div);
    }
}

} // verus!
