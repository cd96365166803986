//! A session: one run of the encoder over a timeline and a still image.
//!
//! Building a session settles everything before the encoder is launched: the
//! inputs and their slots, the audio graph, the video filter, the output
//! path, and the command that holds them all.

use vstd::prelude::*;
use vstd::string::StringExecFns;
use ffmpeg_sidecar::command::FfmpegCommand;
use crate::command::{
    add_args, add_input, add_output, add_overwrite, all_passable, command_args, initial_args,
    is_passable, lemma_passable_concat, lemma_passable_push, new_command, str_views,
};
use crate::error::EncodeError;
use crate::filter_graph::{
    add_background_music, audio_graph, audio_output_label, generate_filter_complex, output_label,
};
use crate::fixed::Fixed;
use crate::inputs::{
    clip_sources, lemma_unique_same_items, string_views, unique_in_order, unique_sources,
};
use crate::paths::{
    has_suffix, join_path, lemma_output_name_is_file_name, output_file_name, output_name,
    parent_dir, same_text,
};
use crate::timeline::{
    all_clips, clip_count, flatten, gained_views, lemma_all_clips_len, total_duration,
    total_duration_of, ClipWithVolume, ClipWithVolumeView, TimelineData,
};

verus! {

/// How the still image fills the frame.
#[derive(Clone, Copy, Debug, PartialEq, Eq, Structural)]
pub enum FitMode {
    /// Scaled up until it covers the frame, the overhang cropped.
    Cover,
    /// Scaled down until it lies inside the frame, the rest padded.
    Contain,
    /// Tiled two by two.
    Repeat,
    /// Centred: scaled and padded as for `Contain`.
    Center,
}

/// The fit mode that a word names. A word that names none stands for `Cover`.
pub open spec fn fit_mode_of(word: Seq<char>) -> FitMode {
    if word == "cover"@ {
        FitMode::Cover
    } else if word == "contain"@ {
        FitMode::Contain
    } else if word == "repeat"@ {
        FitMode::Repeat
    } else if word == "center"@ {
        FitMode::Center
    } else {
        FitMode::Cover
    }
}

/// The video filter of a fit mode.
pub open spec fn video_filter_text(mode: FitMode) -> Seq<char> {
    match mode {
        FitMode::Cover => "scale=1280:720:force_original_aspect_ratio=increase,crop=1280:720"@,
        FitMode::Contain => "scale=1280:720:force_original_aspect_ratio=decrease,pad=1280:720:(ow-iw)/2:(oh-ih)/2"@,
        FitMode::Repeat => "tile=2x2"@,
        FitMode::Center => "scale=1280:720:force_original_aspect_ratio=decrease,pad=1280:720:(ow-iw)/2:(oh-ih)/2"@,
    }
}

impl FitMode {
    /// Reads a fit mode from its word.
    pub fn parse(word: &str) -> (mode: FitMode)
        ensures
            mode == fit_mode_of(word@),
    {
        if same_text(word, "cover") {
            FitMode::Cover
        } else if same_text(word, "contain") {
            FitMode::Contain
        } else if same_text(word, "repeat") {
            FitMode::Repeat
        } else if same_text(word, "center") {
            FitMode::Center
        } else {
            FitMode::Cover
        }
    }

    /// The video filter that fits the image to the frame.
    pub fn video_filter(self) -> (filter: &'static str)
        ensures
            filter@ == video_filter_text(self),
    {
        match self {
            FitMode::Cover => "scale=1280:720:force_original_aspect_ratio=increase,crop=1280:720",
            FitMode::Contain => "scale=1280:720:force_original_aspect_ratio=decrease,pad=1280:720:(ow-iw)/2:(oh-ih)/2",
            FitMode::Repeat => "tile=2x2",
            FitMode::Center => "scale=1280:720:force_original_aspect_ratio=decrease,pad=1280:720:(ow-iw)/2:(oh-ih)/2",
        }
    }
}

/// The text of a string that may be absent.
pub open spec fn option_text(text: Option<String>) -> Option<Seq<char>> {
    match text {
        Some(t) => Some(t@),
        None => None,
    }
}

/// The linear gain of a percentage, in millionths.
pub open spec fn gain_of_percent(percent: int) -> int {
    percent * 10_000
}

/// The gain of the background music, where there is any.
pub open spec fn music_gain(music: Option<Seq<char>>, percent: int) -> Option<int> {
    match music {
        Some(_) => Some(gain_of_percent(percent)),
        None => None,
    }
}

/// `-i` and the source, for every source in order.
pub open spec fn source_inputs(sources: Seq<Seq<char>>) -> Seq<Seq<char>>
    decreases sources.len(),
{
    if sources.len() == 0 {
        Seq::<Seq<char>>::empty()
    } else {
        source_inputs(sources.drop_last()).push("-i"@).push(sources.last())
    }
}

/// The inputs of a timeline's command: the image as a looped still, then the
/// music where there is any, then every audio source once.
pub open spec fn timeline_inputs(
    image: Seq<char>,
    music: Option<Seq<char>>,
    sources: Seq<Seq<char>>,
) -> Seq<Seq<char>> {
    let still = seq!["-loop"@, "1"@, "-i"@, image];
    match music {
        Some(m) => still.push("-i"@).push(m) + source_inputs(sources),
        None => still + source_inputs(sources),
    }
}

/// What follows the inputs: the two filters, the mapping of the image's
/// video and of the graph's audio, and the fixed parameters of the encoding.
pub open spec fn timeline_options(
    video_filter: Seq<char>,
    audio_filter: Seq<char>,
    label: Seq<char>,
) -> Seq<Seq<char>> {
    seq![
        "-vf"@,
        video_filter,
        "-filter_complex"@,
        audio_filter,
        "-map"@,
        "0:v"@,
        "-map"@,
        label,
        "-c:v"@,
        "libx264"@,
        "-tune"@,
        "stillimage"@,
        "-c:a"@,
        "aac"@,
        "-b:a"@,
        "192k"@,
        "-pix_fmt"@,
        "yuv420p"@,
        "-shortest"@,
        "-progress"@,
        "pipe:1"@,
    ]
}

/// All arguments of a timeline's command.
pub open spec fn timeline_args(
    image: Seq<char>,
    music: Option<Seq<char>>,
    sources: Seq<Seq<char>>,
    video_filter: Seq<char>,
    audio_filter: Seq<char>,
    output: Seq<char>,
) -> Seq<Seq<char>> {
    (initial_args() + timeline_inputs(image, music, sources) + timeline_options(
        video_filter,
        audio_filter,
        output_label(music is Some),
    )).push("-y"@).push(output)
}

/// Where the inputs of the sources can be arguments, every source can.
pub proof fn lemma_source_inputs_passable(sources: Seq<Seq<char>>)
    requires
        all_passable(source_inputs(sources)),
    ensures
        all_passable(sources),
    decreases sources.len(),
{
    if sources.len() > 0 {
        let shorter = sources.drop_last();
        lemma_passable_push(source_inputs(shorter).push("-i"@), sources.last());
        lemma_passable_push(source_inputs(shorter), "-i"@);
        lemma_source_inputs_passable(shorter);
        assert forall|i: int| 0 <= i < sources.len() implies is_passable(
            #[trigger] sources[i],
        ) by {
            if i < shorter.len() {
                assert(shorter[i] == sources[i]);
            }
        }
    }
}

/// Where the arguments of a timeline's command can be arguments, every part
/// of them can.
pub proof fn lemma_timeline_args_passable(
    image: Seq<char>,
    music: Option<Seq<char>>,
    sources: Seq<Seq<char>>,
    video_filter: Seq<char>,
    audio_filter: Seq<char>,
    output: Seq<char>,
)
    requires
        all_passable(timeline_args(image, music, sources, video_filter, audio_filter, output)),
    ensures
        all_passable(seq!["-loop"@, "1"@]),
        is_passable(image),
        music matches Some(m) ==> is_passable(m),
        all_passable(sources),
        all_passable(timeline_options(video_filter, audio_filter, output_label(music is Some))),
        is_passable(output),
{
    let options = timeline_options(video_filter, audio_filter, output_label(music is Some));
    let inputs = timeline_inputs(image, music, sources);
    let still = seq!["-loop"@, "1"@, "-i"@, image];
    lemma_passable_push((initial_args() + inputs + options).push("-y"@), output);
    lemma_passable_push(initial_args() + inputs + options, "-y"@);
    lemma_passable_concat(initial_args() + inputs, options);
    lemma_passable_concat(initial_args(), inputs);
    match music {
        Some(m) => {
            lemma_passable_concat(still.push("-i"@).push(m), source_inputs(sources));
            lemma_passable_push(still.push("-i"@), m);
            lemma_passable_push(still, "-i"@);
        },
        None => {
            lemma_passable_concat(still, source_inputs(sources));
        },
    }
    lemma_source_inputs_passable(sources);
    assert(still[3] == image);
    assert(still[0] == "-loop"@);
    assert(still[1] == "1"@);
}

/// Every source takes one input: two arguments.
pub proof fn lemma_source_inputs_len(sources: Seq<Seq<char>>)
    ensures
        source_inputs(sources).len() == 2 * sources.len(),
    decreases sources.len(),
{
    if sources.len() > 0 {
        lemma_source_inputs_len(sources.drop_last());
    }
}

/// A session that is ready to run.
pub struct EncodeSession {
    /// The command to launch.
    pub command: FfmpegCommand,
    /// The still image, input 0.
    pub image_path: String,
    /// The audio sources, in the order of their slots.
    pub unique_sources: Vec<String>,
    /// How the image fills the frame.
    pub fit_mode: FitMode,
    /// The video filter of the fit mode.
    pub video_filter: String,
    /// The audio graph.
    pub audio_filter: String,
    /// Whether background music is input 1.
    pub has_bg_music: bool,
    /// The time at which the last clip ends, for the percentage of progress.
    pub total_duration: Fixed,
    /// The file that the encoder writes.
    pub output_path: String,
}

/// Whether `session` is the session of these clips and settings.
pub open spec fn is_session_of(
    session: EncodeSession,
    image: Seq<char>,
    clips: Seq<ClipWithVolumeView>,
    style: Seq<char>,
    music: Option<Seq<char>>,
    bg_music_volume: int,
    main_audio_volume: int,
    output: Seq<char>,
) -> bool {
    let sources = unique_in_order(clip_sources(clips));
    let graph = audio_graph(
        clips,
        sources,
        gain_of_percent(main_audio_volume),
        music_gain(music, bg_music_volume),
    );
    let filter = video_filter_text(fit_mode_of(style));
    &&& session.image_path@ == image
    &&& string_views(session.unique_sources@) == sources
    &&& session.fit_mode == fit_mode_of(style)
    &&& session.video_filter@ == filter
    &&& session.audio_filter@ == graph
    &&& session.has_bg_music == (music is Some)
    &&& session.total_duration@ == total_duration(clips)
    &&& session.output_path@ == output
    &&& all_passable(timeline_args(image, music, sources, filter, graph, output))
        ==> command_args(session.command) == timeline_args(
        image,
        music,
        sources,
        filter,
        graph,
        output,
    )
}

/// The command of a timeline. It holds the arguments of the timeline,
/// unless one of them cannot be an argument.
pub fn timeline_command(
    image_path: &str,
    bg_music_path: &Option<String>,
    unique_sources: &Vec<String>,
    video_filter: &str,
    audio_filter: &str,
    output_path: &str,
) -> (cmd: FfmpegCommand)
    ensures
        all_passable(
            timeline_args(
                image_path@,
                option_text(*bg_music_path),
                string_views(unique_sources@),
                video_filter@,
                audio_filter@,
                output_path@,
            ),
        ) ==> command_args(cmd) == timeline_args(
            image_path@,
            option_text(*bg_music_path),
            string_views(unique_sources@),
            video_filter@,
            audio_filter@,
            output_path@,
        ),
{
    let ghost sources = string_views(unique_sources@);
    let ghost music = option_text(*bg_music_path);
    let ghost wanted = timeline_args(
        image_path@,
        music,
        sources,
        video_filter@,
        audio_filter@,
        output_path@,
    );
    proof {
        if all_passable(wanted) {
            lemma_timeline_args_passable(
                image_path@,
                music,
                sources,
                video_filter@,
                audio_filter@,
                output_path@,
            );
        }
    }
    let mut cmd = new_command();
    let still = ["-loop", "1"];
    add_args(&mut cmd, &still);
    add_input(&mut cmd, image_path);
    match bg_music_path {
        Some(path) => {
            add_input(&mut cmd, path.as_str());
        },
        None => {},
    }
    let ghost head = initial_args() + timeline_inputs(
        image_path@,
        music,
        Seq::<Seq<char>>::empty(),
    );
    assert(str_views(still@) =~= seq!["-loop"@, "1"@]);
    assert(all_passable(wanted) ==> command_args(cmd) =~= head);
    let mut i: usize = 0;
    while i < unique_sources.len()
        invariant
            i <= unique_sources.len(),
            sources == string_views(unique_sources@),
            all_passable(wanted) ==> all_passable(sources),
            all_passable(wanted) ==> command_args(cmd) == head + source_inputs(
                sources.take(i as int),
            ),
        decreases unique_sources.len() - i,
    {
        assert(sources.take(i + 1).drop_last() =~= sources.take(i as int));
        assert(sources[i as int] == unique_sources@[i as int]@);
        add_input(&mut cmd, unique_sources[i].as_str());
        i += 1;
    }
    assert(sources.take(unique_sources.len() as int) =~= sources);
    let label = audio_output_label(bg_music_path.is_some());
    let options = [
        "-vf",
        video_filter,
        "-filter_complex",
        audio_filter,
        "-map",
        "0:v",
        "-map",
        label,
        "-c:v",
        "libx264",
        "-tune",
        "stillimage",
        "-c:a",
        "aac",
        "-b:a",
        "192k",
        "-pix_fmt",
        "yuv420p",
        "-shortest",
        "-progress",
        "pipe:1",
    ];
    add_args(&mut cmd, &options);
    add_overwrite(&mut cmd);
    add_output(&mut cmd, output_path);
    cmd
}

/// Builds the session of a list of clips that writes to `output_path`.
///
/// Fails with `NoClips`, and only so, where the list is empty.
pub fn session_for_clips(
    image_path: String,
    clips: &Vec<ClipWithVolume>,
    background_style: &str,
    bg_music_path: Option<String>,
    bg_music_volume: i32,
    main_audio_volume: i32,
    output_path: String,
) -> (r: Result<EncodeSession, EncodeError>)
    ensures
        clips.len() == 0 ==> r matches Err(EncodeError::NoClips),
        clips.len() > 0 ==> (r matches Ok(session) && is_session_of(
            session,
            image_path@,
            gained_views(clips@),
            background_style@,
            option_text(bg_music_path),
            bg_music_volume as int,
            main_audio_volume as int,
            output_path@,
        )),
{
    if clips.len() == 0 {
        return Err(EncodeError::NoClips);
    }
    let ghost views = gained_views(clips@);
    let fit_mode = FitMode::parse(background_style);
    let video_filter = String::from_str(fit_mode.video_filter());
    let main_volume = Fixed::from_percent(main_audio_volume);
    let has_bg_music = bg_music_path.is_some();
    let sources = unique_sources(clips);
    proof {
        assert forall|i: int| 0 <= i < views.len() implies string_views(sources@).contains(
            #[trigger] views[i].clip.source_file,
        ) by {
            assert(clip_sources(views)[i] == views[i].clip.source_file);
            lemma_unique_same_items(clip_sources(views), views[i].clip.source_file);
        }
    }
    let mut audio_filter = generate_filter_complex(clips, &sources, main_volume, has_bg_music);
    if has_bg_music {
        audio_filter = add_background_music(audio_filter, Fixed::from_percent(bg_music_volume));
    }
    let command = timeline_command(
        image_path.as_str(),
        &bg_music_path,
        &sources,
        video_filter.as_str(),
        audio_filter.as_str(),
        output_path.as_str(),
    );
    let total = total_duration_of(clips);
    Ok(
        EncodeSession {
            command,
            image_path,
            unique_sources: sources,
            fit_mode,
            video_filter,
            audio_filter,
            has_bg_music,
            total_duration: total,
            output_path,
        },
    )
}

/// Builds the session of a timeline.
///
/// The output goes into the directory of the first clip's source, under the
/// name that `output_filename` asks for, made safe, or under `output.mp4`:
/// the output path ends with that name, unless the name is `.` or `..`.
/// A timeline without clips fails with `NoClips` before anything else is
/// looked at; a first source without a directory fails with
/// `NoAudioDirectory`.
pub fn timeline_session(
    image_path: String,
    timeline: &TimelineData,
    background_style: &str,
    bg_music_path: Option<String>,
    bg_music_volume: i32,
    main_audio_volume: i32,
    output_filename: Option<String>,
) -> (r: Result<EncodeSession, EncodeError>)
    ensures
        clip_count(timeline@) == 0 <==> r matches Err(EncodeError::NoClips),
        r matches Err(e) ==> e is NoClips || e is NoAudioDirectory,
        clip_count(timeline@) > 0 && all_clips(timeline@)[0].clip.source_file.len() == 0
            ==> r is Err,
        r matches Ok(session) ==> is_session_of(
            session,
            image_path@,
            all_clips(timeline@),
            background_style@,
            option_text(bg_music_path),
            bg_music_volume as int,
            main_audio_volume as int,
            session.output_path@,
        ),
        r matches Ok(session) ==> has_suffix(
            session.output_path@,
            output_name(option_text(output_filename)),
        ) || output_name(option_text(output_filename)) == seq!['.'] || output_name(
            option_text(output_filename),
        ) == seq!['.', '.'],
{
    let clips = flatten(timeline);
    proof {
        lemma_all_clips_len(timeline@);
        lemma_output_name_is_file_name(option_text(output_filename));
    }
    if clips.len() == 0 {
        return Err(EncodeError::NoClips);
    }
    match parent_dir(clips[0].clip.source_file.as_str()) {
        None => Err(EncodeError::NoAudioDirectory),
        Some(dir) => {
            let name = output_file_name(&output_filename);
            let output_path = join_path(dir.as_str(), name.as_str());
            proof {
                assert(name@ == output_name(option_text(output_filename)));
                if name@.len() == 0 {
                    assert(output_path@.skip(output_path@.len() as int) =~= name@);
                }
            }
            session_for_clips(
                image_path,
                &clips,
                background_style,
                bg_music_path,
                bg_music_volume,
                main_audio_volume,
                output_path,
            )
        },
    }
}

} // verus!
