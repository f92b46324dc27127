use remdaw::config::AppConfig;
use remdaw::sample::{Instrument, SampleBuffer, sample_from_pcm16, SAMPLE_UNIT};
use remdaw::transport::{
    beat_boundary_at, clip_active_at, clip_step_at, step_boundary_at, Transport, MIN_BPM, MAX_BPM,
};
use remdaw::utils::get_file_name;

#[test]
fn pcm16_normalization() {
    assert_eq!(sample_from_pcm16(0), 0);
    assert_eq!(sample_from_pcm16(100), 200);
    assert_eq!(sample_from_pcm16(-100), -200);
    assert_eq!(sample_from_pcm16(16384), 32768);
    assert_eq!(sample_from_pcm16(i16::MIN), -SAMPLE_UNIT);
    assert_eq!(sample_from_pcm16(i16::MAX), SAMPLE_UNIT - 2);
}

#[test]
fn sample_buffer_validates_range() {
    assert!(SampleBuffer::new(String::from("ok"), vec![0, SAMPLE_UNIT, -SAMPLE_UNIT]).is_some());
    assert!(SampleBuffer::new(String::from("hot"), vec![0, SAMPLE_UNIT + 1]).is_none());
    assert!(SampleBuffer::new(String::from("cold"), vec![-SAMPLE_UNIT - 1]).is_none());
    let b = SampleBuffer::from_pcm16(String::from("p"), &vec![1, -2, 3]);
    assert_eq!(b.data, vec![2, -4, 6]);
    assert_eq!(b.len(), 3);
}

#[test]
fn voice_end_of_buffer_behaviour() {
    // Mixing a finished voice is idempotent: silence, stopped, unchanged.
    let b = SampleBuffer::new(String::from("two"), vec![3, 4]).unwrap();
    let mut v = Instrument::new(String::from("two"), b);
    v.trigger();
    assert_eq!(v.mix_step(), 3);
    assert_eq!(v.mix_step(), 4);
    assert_eq!(v.position, 2);
    assert!(v.is_playing);
    assert_eq!(v.mix_step(), 0);
    assert!(!v.is_playing);
    assert_eq!(v.position, 2);
    assert_eq!(v.mix_step(), 0);
    assert!(!v.is_playing);
    assert_eq!(v.position, 2);
    v.trigger();
    assert!(v.is_playing);
    assert_eq!(v.position, 0);
    assert_eq!(v.mix_step(), 3);
}

#[test]
fn empty_buffer_voice_is_silent() {
    let b = SampleBuffer::empty(String::from("none"));
    let mut v = Instrument::new(String::from("none"), b);
    v.trigger();
    assert_eq!(v.mix_step(), 0);
    assert!(!v.is_playing);
}

#[test]
fn transport_tempo_bounds() {
    let mut t = Transport::new(48000);
    assert_eq!(t.tempo_bpm, 130);
    assert!(!t.set_tempo(MIN_BPM - 1));
    assert_eq!(t.tempo_bpm, 130);
    assert!(!t.set_tempo(MAX_BPM + 1));
    assert_eq!(t.tempo_bpm, 130);
    assert!(t.set_tempo(MIN_BPM));
    assert_eq!(t.tempo_bpm, 40);
    assert!(t.set_tempo(MAX_BPM));
    assert_eq!(t.tempo_bpm, 300);
}

#[test]
fn samples_per_beat_values() {
    let mut t = Transport::new(48000);
    assert!(t.set_tempo(120));
    assert_eq!(t.samples_per_beat(), 24000);
    assert!(t.set_tempo(240));
    assert_eq!(t.samples_per_beat(), 12000);
    let mut t2 = Transport::new(44100);
    assert!(t2.set_tempo(130));
    // 60 * 44100 / 130, rounded down.
    assert_eq!(t2.samples_per_beat(), 20353);
}

#[test]
fn whole_beats_follow_playhead() {
    let mut t = Transport::new(48000);
    assert!(t.set_tempo(120));
    t.play();
    assert_eq!(t.whole_beats(), 0);
    for _ in 0..24000 {
        t.advance();
    }
    assert_eq!(t.whole_beats(), 1);
    assert_eq!(t.playhead_subbeats, 24000 * 120);
}

#[test]
fn step_boundaries_fire_once_per_quarter_beat() {
    // 120 BPM at 48000 Hz, clip at tick 0: sample k sits at sub-beat 120k;
    // a step lasts 6000 samples. The frame-wise decision fires exactly at
    // samples 0, 6000, 12000, ...
    let rate = 48000u32;
    let bpm = 120u32;
    for (k, expect) in [
        (0u64, true),
        (1, false),
        (5999, false),
        (6000, true),
        (6001, false),
        (12000, true),
        (23999, false),
    ] {
        let sub = k * bpm as u64;
        assert!(clip_active_at(sub, rate, 0, 3840 * 10));
        assert_eq!(
            step_boundary_at(sub, rate, bpm, 0, 3840 * 10),
            expect,
            "at sample {}",
            k
        );
    }
    // The derived step index walks 0..16 and wraps after 4 beats.
    assert_eq!(clip_step_at(0, rate, 0), 0);
    assert_eq!(clip_step_at(6000 * 120, rate, 0), 1);
    assert_eq!(clip_step_at(15 * 6000 * 120, rate, 0), 15);
    assert_eq!(clip_step_at(16 * 6000 * 120, rate, 0), 0);
}

#[test]
fn step_boundaries_with_non_integer_samples_per_beat() {
    // 44100 Hz at 130 BPM: samplesPerBeat is not an integer; each quarter
    // beat still yields exactly one boundary over a full pattern cycle.
    let rate = 44100u32;
    let bpm = 130u32;
    let mut fires = 0u32;
    let samples_per_4_beats = (4 * 60 * rate as u64) / bpm as u64 + 1;
    for k in 0..samples_per_4_beats {
        let sub = k * bpm as u64;
        if clip_active_at(sub, rate, 0, 3840 * 10)
            && step_boundary_at(sub, rate, bpm, 0, 3840 * 10)
        {
            fires += 1;
        }
    }
    assert_eq!(fires, 16);
}

#[test]
fn beat_boundary_points() {
    let rate = 48000u32;
    let bpm = 120u32;
    assert!(beat_boundary_at(0, rate, bpm));
    assert!(!beat_boundary_at(120, rate, bpm));
    assert!(!beat_boundary_at(23999 * 120, rate, bpm));
    assert!(beat_boundary_at(24000 * 120, rate, bpm));
    assert!(!beat_boundary_at(24001 * 120, rate, bpm));
}

#[test]
fn file_name_from_path() {
    assert_eq!(get_file_name("sounds/drums/kick.wav"), "kick.wav");
    assert_eq!(get_file_name("kick.wav"), "kick.wav");
    assert_eq!(get_file_name("/kick.wav"), "kick.wav");
    // Trailing separators are stripped before the component is taken.
    assert_eq!(get_file_name("sounds/"), "sounds");
    assert_eq!(get_file_name("a/b//"), "b");
    // A path with no component falls back to "Unknown".
    assert_eq!(get_file_name("/"), "Unknown");
    assert_eq!(get_file_name("//"), "Unknown");
    assert_eq!(get_file_name(""), "Unknown");
}

#[test]
fn config_validity() {
    let empty = AppConfig { file_path: String::new() };
    assert!(!empty.is_valid());
    let set = AppConfig { file_path: String::from("/home/someone/Documents") };
    assert!(set.is_valid());
    let default = AppConfig::default();
    assert!(!default.is_valid());
}
