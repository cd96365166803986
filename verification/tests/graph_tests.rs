use timeline_video::filter_graph::{
    add_background_music, audio_output_label, generate_filter_complex,
};
use timeline_video::fixed::Fixed;
use timeline_video::inputs::{source_position, unique_sources};
use timeline_video::timeline::{
    flatten, total_duration_of, ClipWithVolume, TimelineClip, TimelineData, TimelineTrack,
};

fn secs(x: f64) -> Fixed {
    Fixed::from_micros((x * 1e6).round() as i64)
}

fn clip(source: &str, start: f64, duration: f64, trim_start: f64, trim_end: f64) -> TimelineClip {
    TimelineClip {
        source_file: source.to_string(),
        start_time: secs(start),
        duration: secs(duration),
        trim_start: secs(trim_start),
        trim_end: secs(trim_end),
    }
}

fn gained(source: &str, start: f64, duration: f64, trim_start: f64, volume: f64) -> ClipWithVolume {
    ClipWithVolume {
        clip: clip(source, start, duration, trim_start, trim_start + duration),
        track_volume: secs(volume),
    }
}

fn names(list: &[&str]) -> Vec<String> {
    list.iter().map(|s| s.to_string()).collect()
}

#[test]
fn single_clip_is_trimmed_reset_gained_and_delayed() {
    let clips = vec![gained("a.mp3", 0.0, 5.0, 2.0, 1.0)];
    let graph = generate_filter_complex(&clips, &names(&["a.mp3"]), secs(1.0), false);
    assert_eq!(
        graph,
        "[1:a]atrim=start=2:end=7,asetpts=PTS-STARTPTS,volume=1,adelay=0|0[a0];\
         [a0]amix=inputs=1:duration=longest,volume=1[aout]"
    );
}

#[test]
fn delay_is_the_start_in_milliseconds_on_both_legs() {
    let clips = vec![gained("a.mp3", 1.5, 4.0, 0.25, 0.8)];
    let graph = generate_filter_complex(&clips, &names(&["a.mp3"]), secs(0.5), false);
    assert_eq!(
        graph,
        "[1:a]atrim=start=0.25:end=4.25,asetpts=PTS-STARTPTS,volume=0.8,adelay=1500|1500[a0];\
         [a0]amix=inputs=1:duration=longest,volume=0.5[aout]"
    );
}

#[test]
fn graph_agrees_with_float_formatting() {
    let cases = [(0.0, 10.0, 0.0, 1.0), (3.25, 2.5, 1.125, 0.75), (12.0, 0.5, 30.0, 2.0)];
    for (start, duration, trim, volume) in cases {
        let clips = vec![gained("s.wav", start, duration, trim, volume)];
        let graph = generate_filter_complex(&clips, &names(&["s.wav"]), secs(0.9), true);
        let delay = (start * 1000.0) as i64;
        let expected = format!(
            "[{}:a]atrim=start={}:end={},asetpts=PTS-STARTPTS,volume={},adelay={}|{}[a{}];{}amix=inputs={}:duration=longest,volume={}[aout]",
            2, trim, duration + trim, volume, delay, delay, 0, "[a0]", 1, 0.9
        );
        assert_eq!(graph, expected);
    }
}

#[test]
fn clips_of_one_source_share_its_slot() {
    let clips = vec![
        gained("a.mp3", 0.0, 1.0, 0.0, 1.0),
        gained("a.mp3", 1.0, 1.0, 1.0, 1.0),
        gained("a.mp3", 2.0, 1.0, 2.0, 1.0),
    ];
    let sources = unique_sources(&clips);
    assert_eq!(sources, names(&["a.mp3"]));
    let graph = generate_filter_complex(&clips, &sources, secs(1.0), false);
    assert_eq!(
        graph,
        "[1:a]atrim=start=0:end=1,asetpts=PTS-STARTPTS,volume=1,adelay=0|0[a0];\
         [1:a]atrim=start=1:end=2,asetpts=PTS-STARTPTS,volume=1,adelay=1000|1000[a1];\
         [1:a]atrim=start=2:end=3,asetpts=PTS-STARTPTS,volume=1,adelay=2000|2000[a2];\
         [a0][a1][a2]amix=inputs=3:duration=longest,volume=1[aout]"
    );
}

#[test]
fn different_sources_get_slots_in_order_of_first_use() {
    let clips = vec![
        gained("b.mp3", 0.0, 1.0, 0.0, 1.0),
        gained("a.mp3", 0.0, 1.0, 0.0, 1.0),
        gained("b.mp3", 5.0, 1.0, 0.0, 1.0),
        gained("c.mp3", 0.0, 1.0, 0.0, 1.0),
        gained("a.mp3", 9.0, 1.0, 0.0, 1.0),
    ];
    let sources = unique_sources(&clips);
    assert_eq!(sources, names(&["b.mp3", "a.mp3", "c.mp3"]));
    assert_eq!(source_position(&sources, &"b.mp3".to_string()), Some(0));
    assert_eq!(source_position(&sources, &"a.mp3".to_string()), Some(1));
    assert_eq!(source_position(&sources, &"c.mp3".to_string()), Some(2));
    assert_eq!(source_position(&sources, &"d.mp3".to_string()), None);
    let graph = generate_filter_complex(&clips, &sources, secs(1.0), true);
    let slots: Vec<&str> = graph
        .split(';')
        .filter(|part| part.contains("atrim"))
        .map(|part| &part[..5])
        .collect();
    assert_eq!(slots, vec!["[2:a]", "[3:a]", "[2:a]", "[4:a]", "[3:a]"]);
}

#[test]
fn position_is_the_first_of_equal_entries() {
    let sources = names(&["x", "y", "x", "y"]);
    assert_eq!(source_position(&sources, &"y".to_string()), Some(1));
    assert_eq!(source_position(&Vec::new(), &"y".to_string()), None);
}

#[test]
fn no_clips_no_graph() {
    let graph = generate_filter_complex(&Vec::new(), &Vec::new(), secs(1.0), false);
    assert_eq!(graph, "");
    assert_eq!(unique_sources(&Vec::new()), Vec::<String>::new());
}

#[test]
fn music_is_looped_gained_and_mixed_for_as_long_as_the_timeline() {
    let mixed = add_background_music("X[aout]".to_string(), secs(0.5));
    assert_eq!(
        mixed,
        "X[aout];[1:a]aloop=loop=-1:size=2e+09,volume=0.5[bgmusic];\
         [aout][bgmusic]amix=inputs=2:duration=first:dropout_transition=2[final]"
    );
    assert_eq!(audio_output_label(true), "[final]");
    assert_eq!(audio_output_label(false), "[aout]");
}

#[test]
fn graph_is_the_same_for_the_same_input() {
    let clips = vec![gained("a.mp3", 0.5, 5.0, 2.0, 0.7), gained("b.mp3", 1.0, 2.0, 0.0, 1.0)];
    let sources = unique_sources(&clips);
    let first = generate_filter_complex(&clips, &sources, secs(0.8), true);
    let second = generate_filter_complex(&clips, &sources, secs(0.8), true);
    assert_eq!(first, second);
}

#[test]
fn graph_of_a_single_clip_does_not_depend_on_its_source() {
    let joined = vec![gained("/tmp/temp_combined.mp3", 0.0, 42.0, 0.0, 1.0)];
    let single = vec![gained("whole.mp3", 0.0, 42.0, 0.0, 1.0)];
    let first = generate_filter_complex(&joined, &unique_sources(&joined), secs(1.0), false);
    let second = generate_filter_complex(&single, &unique_sources(&single), secs(1.0), false);
    assert_eq!(first, second);
    assert_eq!(
        first,
        "[1:a]atrim=start=0:end=42,asetpts=PTS-STARTPTS,volume=1,adelay=0|0[a0];\
         [a0]amix=inputs=1:duration=longest,volume=1[aout]"
    );
}

#[test]
fn trim_end_is_not_read() {
    let mut a = gained("a.mp3", 0.0, 5.0, 2.0, 1.0);
    let mut b = gained("a.mp3", 0.0, 5.0, 2.0, 1.0);
    a.clip.trim_end = secs(100.0);
    b.clip.trim_end = secs(3.0);
    let sources = names(&["a.mp3"]);
    assert_eq!(
        generate_filter_complex(&vec![a], &sources, secs(1.0), false),
        generate_filter_complex(&vec![b], &sources, secs(1.0), false)
    );
}

#[test]
fn flatten_goes_track_by_track_with_each_tracks_gain() {
    let timeline = TimelineData {
        tracks: vec![
            TimelineTrack {
                clips: vec![clip("a", 0.0, 1.0, 0.0, 1.0), clip("b", 1.0, 1.0, 0.0, 1.0)],
                volume: secs(0.5),
            },
            TimelineTrack { clips: vec![], volume: secs(9.0) },
            TimelineTrack { clips: vec![clip("c", 2.0, 3.0, 0.0, 3.0)], volume: secs(2.0) },
        ],
    };
    let clips = flatten(&timeline);
    let seen: Vec<(String, i64)> =
        clips.iter().map(|c| (c.clip.source_file.clone(), c.track_volume.micros)).collect();
    assert_eq!(
        seen,
        vec![
            ("a".to_string(), 500_000),
            ("b".to_string(), 500_000),
            ("c".to_string(), 2_000_000)
        ]
    );
    assert_eq!(clips[2].clip.start_time.micros, 2_000_000);
    assert_eq!(clips[2].clip.duration.micros, 3_000_000);
    assert_eq!(flatten(&TimelineData { tracks: vec![] }).len(), 0);
}

#[test]
fn clip_copy_keeps_every_field() {
    let first = clip("a.mp3", 1.0, 2.0, 3.0, 4.0);
    let copy = first.copy();
    assert_eq!(copy.source_file, "a.mp3");
    assert_eq!(copy.start_time.micros, 1_000_000);
    assert_eq!(copy.duration.micros, 2_000_000);
    assert_eq!(copy.trim_start.micros, 3_000_000);
    assert_eq!(copy.trim_end.micros, 4_000_000);
}

#[test]
fn sound_clips() {
    assert!(clip("a", 0.0, 1.0, 0.0, 1.0).is_valid());
    assert!(clip("a", 3.0, 0.000001, 2.0, 2.0).is_valid());
    assert!(!clip("a", -0.5, 1.0, 0.0, 1.0).is_valid());
    assert!(!clip("a", 0.0, 0.0, 0.0, 1.0).is_valid());
    assert!(!clip("a", 0.0, 1.0, -1.0, 1.0).is_valid());
    assert!(!clip("a", 0.0, 1.0, 2.0, 1.0).is_valid());
}

#[test]
fn total_duration_is_the_latest_end() {
    let clips = vec![
        gained("a", 0.0, 10.0, 0.0, 1.0),
        gained("b", 20.0, 5.5, 0.0, 1.0),
        gained("c", 3.0, 4.0, 0.0, 1.0),
    ];
    assert_eq!(total_duration_of(&clips).micros, 25_500_000);
    assert_eq!(total_duration_of(&Vec::new()).micros, 0);
    let negative = vec![gained("a", -10.0, 2.0, 0.0, 1.0)];
    assert_eq!(total_duration_of(&negative).micros, 0);
    let mut huge = gained("a", 0.0, 1.0, 0.0, 1.0);
    huge.clip.start_time = Fixed::from_micros(i64::MAX);
    assert_eq!(total_duration_of(&vec![huge]).micros, i64::MAX);
}
