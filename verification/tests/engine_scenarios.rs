use remdaw::engine::AudioState;
use remdaw::sample::{SampleBuffer, SAMPLE_UNIT};
use remdaw::timeline::ClipType;

fn buffer(name: &str, data: Vec<i32>) -> SampleBuffer {
    SampleBuffer::new(String::from(name), data).unwrap()
}

#[test]
fn pattern_clip_triggers_once_per_step_cycle() {
    // 120 BPM at 48000 Hz: one beat is 24000 samples, one step 6000.
    let mut st = AudioState::new(48000);
    assert!(st.transport.set_tempo(120));
    assert_eq!(st.transport.samples_per_beat(), 24000);

    let idx = st
        .add_instrument(String::from("kick"), buffer("kick", vec![SAMPLE_UNIT]))
        .unwrap();
    assert_eq!(idx, 0);
    // Row 0: step 0 on, all other steps off; persist into pattern 0.
    assert!(st.toggle_step(0, 0));
    assert!(st.select_pattern(0));
    // A four-beat pattern clip at the start of track 0.
    assert!(st.playlist.place_clip(
        ClipType::Pattern(0),
        String::from("p1"),
        0,
        0,
        3840,
    ));
    st.transport.play();

    // The instrument fires exactly once, at sample 0, and not again before
    // sample 24000 (step 4) since that column is off.
    for k in 0..24000u64 {
        let out = st.process_frame();
        if k == 0 {
            assert_eq!(out, SAMPLE_UNIT as i64);
        } else {
            assert_eq!(out, 0, "unexpected trigger at sample {}", k);
        }
    }
}

#[test]
fn two_voices_mix_unclamped() {
    // Buffer A = [0.5, 0.5], buffer B = [0.25, -0.25]: frames 0.75 and 0.25.
    let mut st = AudioState::new(48000);
    st.add_instrument(String::from("a"), buffer("a", vec![32768, 32768]))
        .unwrap();
    st.add_instrument(String::from("b"), buffer("b", vec![16384, -16384]))
        .unwrap();
    st.instruments[0].is_playing = true;
    st.instruments[1].is_playing = true;

    let f0 = st.process_frame();
    let f1 = st.process_frame();
    assert_eq!(f0, 49152);
    assert_eq!(f1, 16384);
    assert_eq!(f0 as f32 / SAMPLE_UNIT as f32, 0.75);
    assert_eq!(f1 as f32 / SAMPLE_UNIT as f32, 0.25);

    // Both voices finished: they are stopped and further frames are silent.
    assert!(!st.instruments[0].is_playing || st.instruments[0].position == 2);
    let f2 = st.process_frame();
    assert_eq!(f2, 0);
    assert!(!st.instruments[0].is_playing);
    assert!(!st.instruments[1].is_playing);
}

#[test]
fn audio_clip_triggers_exactly_once() {
    let mut st = AudioState::new(48000);
    assert!(st.transport.set_tempo(120));
    st.add_instrument(String::from("hit"), buffer("hit", vec![100]))
        .unwrap();
    // An audio clip starting at beat 1 (tick 960).
    assert!(st.playlist.place_clip(
        ClipType::AudioFile(0),
        String::from("hit"),
        1,
        960,
        3840,
    ));
    st.transport.play();

    let mut fired = 0;
    let mut fired_at = 0u64;
    for k in 0..30000u64 {
        let out = st.process_frame();
        if out != 0 {
            fired += 1;
            fired_at = k;
        }
    }
    assert_eq!(fired, 1);
    // Beat 1 at 120 BPM / 48000 Hz is sample 24000.
    assert_eq!(fired_at, 24000);
}

#[test]
fn metronome_clicks_on_beat_boundaries() {
    let mut st = AudioState::new(48000);
    assert!(st.transport.set_tempo(120));
    st.set_metronome_sample(buffer("click", vec![7]));
    st.transport.toggle_metronome();
    assert!(st.transport.is_metronome);
    st.transport.play();

    let mut clicks = Vec::new();
    for k in 0..30000u64 {
        let out = st.process_frame();
        if out != 0 {
            clicks.push(k);
        }
    }
    // One click entering beat 0, one crossing into beat 1 at sample 24000.
    assert_eq!(clicks, vec![0, 24000]);
}

#[test]
fn tempo_change_keeps_playhead_position() {
    // Changing tempo mid-playback changes the rate of advancement at once
    // but not the beat position already reached.
    let mut st = AudioState::new(48000);
    assert!(st.transport.set_tempo(120));
    st.transport.play();
    for _ in 0..1000 {
        st.process_frame();
    }
    let subbeats_before = st.transport.playhead_subbeats;
    assert_eq!(subbeats_before, 1000 * 120);
    assert_eq!(st.transport.samples_per_beat(), 24000);

    assert!(st.transport.set_tempo(240));
    assert_eq!(st.transport.samples_per_beat(), 12000);
    assert_eq!(st.transport.playhead_subbeats, subbeats_before);

    // Future advancement runs at the new rate.
    st.process_frame();
    assert_eq!(st.transport.playhead_subbeats, subbeats_before + 240);
}

#[test]
fn preview_voice_plays_and_is_discarded() {
    let mut st = AudioState::new(44100);
    st.preview_sample(buffer("prev", vec![11, -12]));
    assert!(st.preview_sound.is_some());

    assert_eq!(st.process_frame(), 11);
    assert_eq!(st.process_frame(), -12);
    // The finished preview is removed entirely, not merely flagged.
    assert_eq!(st.process_frame(), 0);
    assert!(st.preview_sound.is_none());
}

#[test]
fn preview_replaces_previous_preview() {
    let mut st = AudioState::new(44100);
    st.preview_sample(buffer("one", vec![1, 1, 1]));
    st.process_frame();
    st.preview_sample(buffer("two", vec![2, 2]));
    assert_eq!(st.process_frame(), 2);
    let v = st.preview_sound.as_ref().unwrap();
    assert_eq!(v.position, 1);
}

#[test]
fn stopped_transport_still_mixes_but_does_not_schedule() {
    let mut st = AudioState::new(48000);
    st.add_instrument(String::from("a"), buffer("a", vec![5, 6]))
        .unwrap();
    assert!(st.toggle_step(0, 0));
    assert!(st.select_pattern(0));
    assert!(st.playlist.place_clip(
        ClipType::Pattern(0),
        String::from("p"),
        0,
        0,
        3840,
    ));
    // Not running: the clip schedules nothing and the playhead stays.
    assert_eq!(st.process_frame(), 0);
    assert_eq!(st.transport.playhead_subbeats, 0);
    // A manually started voice still sounds while stopped.
    st.instruments[0].is_playing = true;
    assert_eq!(st.process_frame(), 5);
    assert_eq!(st.process_frame(), 6);
}

#[test]
fn stop_resets_playhead_pause_keeps_it() {
    let mut st = AudioState::new(48000);
    st.transport.play();
    for _ in 0..10 {
        st.process_frame();
    }
    let pos = st.transport.playhead_subbeats;
    assert!(pos > 0);
    st.transport.pause();
    assert_eq!(st.transport.playhead_subbeats, pos);
    assert!(!st.transport.is_running);
    st.transport.stop();
    assert_eq!(st.transport.playhead_subbeats, 0);
}

#[test]
fn retrigger_after_end_of_buffer() {
    // A voice that finished can always be re-triggered from position 0.
    let mut st = AudioState::new(48000);
    st.add_instrument(String::from("a"), buffer("a", vec![9]))
        .unwrap();
    st.instruments[0].is_playing = true;
    assert_eq!(st.process_frame(), 9);
    assert_eq!(st.process_frame(), 0);
    assert!(!st.instruments[0].is_playing);
    st.instruments[0].trigger();
    assert_eq!(st.instruments[0].position, 0);
    assert_eq!(st.process_frame(), 9);
}
