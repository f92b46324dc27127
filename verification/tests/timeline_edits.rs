use remdaw::engine::AudioState;
use remdaw::sample::SampleBuffer;
use remdaw::timeline::{ClipType, Playlist, ResizeEdge, MIN_CLIP_TICKS, DEFAULT_CLIP_TICKS, MAX_TICKS};
use remdaw::transport::TICKS_PER_BEAT;

fn playlist_with_clip() -> Playlist {
    let mut p = Playlist::new();
    assert!(p.place_clip(
        ClipType::Pattern(0),
        String::from("clip"),
        0,
        TICKS_PER_BEAT,
        DEFAULT_CLIP_TICKS,
    ));
    assert_eq!(DEFAULT_CLIP_TICKS, 4 * TICKS_PER_BEAT);
    p
}

#[test]
fn resize_right_clamps_to_minimum_length() {
    // Initial length 4 beats; requesting 0.1 beat (96 ticks) stays at the
    // 0.25-beat floor (240 ticks), never 0.1.
    let mut p = playlist_with_clip();
    assert_eq!(p.clips[0].length_ticks, 3840);
    assert!(p.resize_clip(0, ResizeEdge::Right, 96, 0));
    assert_eq!(p.clips[0].length_ticks, MIN_CLIP_TICKS);
    assert_eq!(p.clips[0].length_ticks, 240);
    assert_eq!(p.clips[0].start_ticks, 960);
}

#[test]
fn resize_right_zero_request_stays_at_floor() {
    let mut p = playlist_with_clip();
    assert!(p.resize_clip(0, ResizeEdge::Right, 0, 0));
    assert_eq!(p.clips[0].length_ticks, MIN_CLIP_TICKS);
}

#[test]
fn resize_right_plain_request_is_taken() {
    let mut p = playlist_with_clip();
    assert!(p.resize_clip(0, ResizeEdge::Right, 1920, 0));
    assert_eq!(p.clips[0].length_ticks, 1920);
}

#[test]
fn resize_right_snaps_to_grid() {
    let mut p = playlist_with_clip();
    // Snap to whole beats: 1000 ticks rounds to 960, 1440 rounds up to 1920.
    assert!(p.resize_clip(0, ResizeEdge::Right, 1000, 960));
    assert_eq!(p.clips[0].length_ticks, 960);
    assert!(p.resize_clip(0, ResizeEdge::Right, 1440, 960));
    assert_eq!(p.clips[0].length_ticks, 1920);
    // Snapping below the floor still lands on the floor: 100 rounds to 0,
    // clamped to 240.
    assert!(p.resize_clip(0, ResizeEdge::Right, 100, 960));
    assert_eq!(p.clips[0].length_ticks, MIN_CLIP_TICKS);
}

#[test]
fn resize_left_keeps_end_and_respects_floor() {
    let mut p = playlist_with_clip();
    // Clip spans [960, 4800). Moving the left edge to 1920 keeps the end.
    assert!(p.resize_clip(0, ResizeEdge::Left, 1920, 0));
    assert_eq!(p.clips[0].start_ticks, 1920);
    assert_eq!(p.clips[0].length_ticks, 2880);
    // Dragging far past the end clamps so the length stays at the floor.
    assert!(p.resize_clip(0, ResizeEdge::Left, 1_000_000, 0));
    assert_eq!(p.clips[0].start_ticks, 4800 - MIN_CLIP_TICKS);
    assert_eq!(p.clips[0].length_ticks, MIN_CLIP_TICKS);
    assert_eq!(p.clips[0].start_ticks + p.clips[0].length_ticks, 4800);
}

#[test]
fn resize_left_to_zero_grows_clip() {
    let mut p = playlist_with_clip();
    assert!(p.resize_clip(0, ResizeEdge::Left, 0, 0));
    assert_eq!(p.clips[0].start_ticks, 0);
    assert_eq!(p.clips[0].length_ticks, 4800);
}

#[test]
fn resize_session_captures_initial_geometry() {
    let mut p = playlist_with_clip();
    let session = p.begin_resize(0, ResizeEdge::Right).unwrap();
    assert_eq!(session.clip_index, 0);
    assert_eq!(session.edge, ResizeEdge::Right);
    assert_eq!(session.initial_start, TICKS_PER_BEAT);
    assert_eq!(session.initial_length, DEFAULT_CLIP_TICKS);
    // A drag of minus three beats, applied as an absolute request computed
    // from the captured geometry.
    let requested = session.initial_length - 3 * TICKS_PER_BEAT;
    assert!(p.resize_clip(session.clip_index, session.edge, requested, 0));
    assert_eq!(p.clips[0].length_ticks, TICKS_PER_BEAT);
    assert!(p.begin_resize(4, ResizeEdge::Left).is_none());
}

#[test]
fn resize_out_of_range_index_is_refused() {
    let mut p = playlist_with_clip();
    assert!(!p.resize_clip(5, ResizeEdge::Right, 960, 0));
    assert_eq!(p.clips[0].length_ticks, DEFAULT_CLIP_TICKS);
    assert_eq!(p.clips[0].start_ticks, 960);
}

#[test]
fn place_clip_validates_track_and_geometry() {
    let mut p = Playlist::new();
    assert_eq!(p.tracks.len(), 3);
    // Lane 3 does not exist.
    assert!(!p.place_clip(ClipType::Pattern(0), String::from("x"), 3, 0, 960));
    assert_eq!(p.clips.len(), 0);
    // Length under the floor is refused.
    assert!(!p.place_clip(ClipType::Pattern(0), String::from("x"), 0, 0, 100));
    // Past the horizon is refused.
    assert!(!p.place_clip(
        ClipType::Pattern(0),
        String::from("x"),
        0,
        MAX_TICKS,
        960,
    ));
    assert_eq!(p.clips.len(), 0);
    assert!(p.place_clip(ClipType::Pattern(0), String::from("x"), 2, 480, 960));
    assert_eq!(p.clips.len(), 1);
    assert_eq!(p.clips[0].track_index, 2);
    assert_eq!(p.clips[0].start_ticks, 480);
}

#[test]
fn remove_clip_shifts_rest() {
    let mut p = Playlist::new();
    assert!(p.place_clip(ClipType::Pattern(0), String::from("a"), 0, 0, 960));
    assert!(p.place_clip(ClipType::Pattern(1), String::from("b"), 1, 960, 960));
    assert!(p.remove_clip(0));
    assert_eq!(p.clips.len(), 1);
    assert_eq!(p.clips[0].name, "b");
    assert!(!p.remove_clip(7));
}

#[test]
fn patterns_stay_aligned_with_instruments() {
    // Interleaved instrument additions and pattern creations: every pattern
    // keeps one row per instrument at every observation point.
    let mut st = AudioState::new(48000);
    let check = |st: &AudioState| {
        assert_eq!(st.pattern.len(), st.instruments.len());
        for p in &st.patterns {
            assert_eq!(p.data.len(), st.instruments.len());
        }
    };
    check(&st);
    st.add_pattern(String::from("P2"));
    check(&st);
    let b = SampleBuffer::new(String::from("a"), vec![1]).unwrap();
    st.add_instrument(String::from("a"), b).unwrap();
    check(&st);
    st.add_pattern(String::from("P3"));
    check(&st);
    let b = SampleBuffer::new(String::from("b"), vec![2]).unwrap();
    st.add_instrument(String::from("b"), b).unwrap();
    check(&st);
    assert_eq!(st.patterns.len(), 3);
    assert_eq!(st.instruments.len(), 2);
}

#[test]
fn select_pattern_persists_the_edited_grid() {
    let mut st = AudioState::new(48000);
    let b = SampleBuffer::new(String::from("a"), vec![1]).unwrap();
    st.add_instrument(String::from("a"), b).unwrap();
    st.add_pattern(String::from("P2"));
    // Edit the live grid (editing pattern 0), then switch to pattern 1.
    assert!(st.toggle_step(0, 3));
    assert!(st.pattern[0][3]);
    assert!(st.select_pattern(1));
    // The edit was persisted into pattern 0 and the blank pattern loaded.
    assert!(st.patterns[0].step_on(0, 3));
    assert!(!st.pattern[0][3]);
    // Switching back restores the edit into the live grid.
    assert!(st.select_pattern(0));
    assert!(st.pattern[0][3]);
    assert_eq!(st.current_pattern_index, Some(0));
    // An index past the library is refused.
    assert!(!st.select_pattern(9));
}

#[test]
fn toggle_step_rejects_out_of_range() {
    let mut st = AudioState::new(48000);
    let b = SampleBuffer::new(String::from("a"), vec![1]).unwrap();
    st.add_instrument(String::from("a"), b).unwrap();
    assert!(!st.toggle_step(1, 0));
    assert!(!st.toggle_step(0, 16));
    assert!(st.toggle_step(0, 15));
    assert!(st.pattern[0][15]);
    assert!(st.toggle_step(0, 15));
    assert!(!st.pattern[0][15]);
}

#[test]
fn pattern_library_edits() {
    let mut st = AudioState::new(48000);
    let b = SampleBuffer::new(String::from("a"), vec![1]).unwrap();
    st.add_instrument(String::from("a"), b).unwrap();
    assert!(st.toggle_step(0, 2));
    assert!(st.select_pattern(0));
    assert!(st.duplicate_pattern(0));
    assert_eq!(st.patterns.len(), 2);
    assert_eq!(st.patterns[1].name, "Pattern 1");
    assert!(st.patterns[1].step_on(0, 2));
    assert!(st.rename_pattern(1, String::from("Copy")));
    assert_eq!(st.patterns[1].name, "Copy");
    assert!(st.remove_pattern(0));
    assert_eq!(st.patterns.len(), 1);
    assert_eq!(st.patterns[0].name, "Copy");
    assert!(!st.remove_pattern(5));
    assert!(!st.duplicate_pattern(5));
    assert!(!st.rename_pattern(5, String::from("x")));
}

#[test]
fn stale_pattern_reference_is_silent() {
    // A clip referencing a pattern past the library schedules nothing.
    let mut st = AudioState::new(48000);
    let b = SampleBuffer::new(String::from("a"), vec![50]).unwrap();
    st.add_instrument(String::from("a"), b).unwrap();
    assert!(st.toggle_step(0, 0));
    assert!(st.select_pattern(0));
    assert!(st.playlist.place_clip(
        ClipType::Pattern(9),
        String::from("stale"),
        0,
        0,
        3840,
    ));
    st.transport.play();
    for _ in 0..100 {
        assert_eq!(st.process_frame(), 0);
    }
    // Likewise a stale instrument index on an audio clip.
    let mut st2 = AudioState::new(48000);
    assert!(st2.playlist.place_clip(
        ClipType::AudioFile(3),
        String::from("stale"),
        0,
        0,
        3840,
    ));
    st2.transport.play();
    for _ in 0..100 {
        assert_eq!(st2.process_frame(), 0);
    }
}
