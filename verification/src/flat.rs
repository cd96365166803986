//! Sessions over a flat list of whole audio files.
//!
//! One file is encoded as it is. Several files are first joined into one,
//! without re-encoding, through a list that names them; the joined file then
//! takes the place of the one. Trims and placements do not apply here: the
//! audio filter knows of gains only.

use vstd::prelude::*;
use vstd::string::StringExecFns;
use ffmpeg_sidecar::command::FfmpegCommand;
use crate::command::{
    add_args, add_format, add_input, add_output, add_overwrite, all_passable, command_args,
    initial_args, is_passable, lemma_passable_concat, lemma_passable_push, new_command,
    str_views,
};
use crate::error::EncodeError;
use crate::fixed::Fixed;
use crate::inputs::string_views;
use crate::paths::{has_suffix, is_file_name, join_path, parent_dir};
use crate::session::{
    fit_mode_of, gain_of_percent, music_gain, option_text, video_filter_text, FitMode,
};
use crate::text::{append_fixed, fixed_text};

verus! {

/// The character that stands for `c` in a path of the list: a slash for a
/// backslash.
pub open spec fn slash_char(c: char) -> char {
    if c == '\\' {
        '/'
    } else {
        c
    }
}

/// `path` with a slash for every backslash.
pub open spec fn forward_slashes(path: Seq<char>) -> Seq<char> {
    path.map_values(|c: char| slash_char(c))
}

/// The line that names one file in the list.
pub open spec fn concat_line(path: Seq<char>) -> Seq<char> {
    "file '"@ + forward_slashes(path) + "'"@
}

/// The list that names the files to join: one line for each, in order, with
/// a line feed between two lines.
pub open spec fn concat_list(paths: Seq<Seq<char>>) -> Seq<char>
    decreases paths.len(),
{
    if paths.len() == 0 {
        Seq::<char>::empty()
    } else if paths.len() == 1 {
        concat_line(paths[0])
    } else {
        concat_list(paths.drop_last()) + "\n"@ + concat_line(paths.last())
    }
}

/// The audio filter of a flat session.
///
/// With music, the inputs are the image (0), the music (1) and the audio
/// (2): the music is looped and gets its gain, the audio gets the master
/// gain, and the two are mixed, the audio first, for as long as the audio
/// lasts. Without music: the master gain alone.
pub open spec fn flat_filter(main_volume: int, bg_volume: Option<int>) -> Seq<char> {
    match bg_volume {
        Some(v) => "[1:a]aloop=loop=-1:size=2e+09[bg];[bg]volume="@ + fixed_text(v)
            + "[bg_vol];[2:a]volume="@ + fixed_text(main_volume)
            + "[main];[main][bg_vol]amix=inputs=2:duration=first:dropout_transition=2"@,
        None => "volume="@ + fixed_text(main_volume),
    }
}

/// The arguments of the command that joins the files of a list.
pub open spec fn concat_args(list_path: Seq<char>, combined_path: Seq<char>) -> Seq<Seq<char>> {
    initial_args() + seq![
        "-f"@,
        "concat"@,
        "-i"@,
        list_path,
        "-safe"@,
        "0"@,
        "-c"@,
        "copy"@,
        "-y"@,
        combined_path,
    ]
}

/// The fixed parameters of the encoding.
pub open spec fn encode_options() -> Seq<Seq<char>> {
    seq![
        "-c:v"@,
        "libx264"@,
        "-tune"@,
        "stillimage"@,
        "-c:a"@,
        "aac"@,
        "-b:a"@,
        "192k"@,
        "-pix_fmt"@,
        "yuv420p"@,
        "-shortest"@,
    ]
}

/// The arguments of the command that encodes one audio file.
pub open spec fn flat_args(
    image: Seq<char>,
    music: Option<Seq<char>>,
    audio: Seq<char>,
    video_filter: Seq<char>,
    audio_filter: Seq<char>,
    output: Seq<char>,
) -> Seq<Seq<char>> {
    let still = initial_args() + seq!["-loop"@, "1"@, "-i"@, image];
    match music {
        Some(m) => (still + seq!["-i"@, m, "-i"@, audio] + seq![
            "-vf"@,
            video_filter,
            "-filter_complex"@,
            audio_filter,
        ] + encode_options()).push("-y"@).push(output),
        None => (still + seq!["-i"@, audio] + seq!["-vf"@, video_filter, "-af"@, audio_filter]
            + encode_options()).push("-y"@).push(output),
    }
}

/// The joining that comes before the encoding of several files.
pub struct ConcatStep {
    /// Where the list is written.
    pub list_path: String,
    /// What the list says.
    pub list_content: String,
    /// Where the joined audio is written.
    pub combined_path: String,
    /// The command that joins.
    pub command: FfmpegCommand,
}

/// A flat session that is ready to run.
pub struct FlatSession {
    /// The joining, where there are several files.
    pub concat: Option<ConcatStep>,
    /// The command that encodes.
    pub command: FfmpegCommand,
    /// The audio that is encoded: the one file, or the joined one.
    pub audio_path: String,
    /// How the image fills the frame.
    pub fit_mode: FitMode,
    /// The video filter of the fit mode.
    pub video_filter: String,
    /// The audio filter.
    pub audio_filter: String,
    /// Whether background music is input 1.
    pub has_bg_music: bool,
    /// The file that the encoder writes.
    pub output_path: String,
}

/// Whether `step` joins these files through this list into this file.
pub open spec fn is_concat_of(
    step: ConcatStep,
    paths: Seq<Seq<char>>,
    list_path: Seq<char>,
    combined_path: Seq<char>,
) -> bool {
    &&& step.list_path@ == list_path
    &&& step.list_content@ == concat_list(paths)
    &&& step.combined_path@ == combined_path
    &&& all_passable(concat_args(list_path, combined_path)) ==> command_args(step.command)
        == concat_args(list_path, combined_path)
}

/// Whether `session` is the flat session of these files and settings, with
/// its files at these paths.
pub open spec fn is_flat_session_of(
    session: FlatSession,
    image: Seq<char>,
    paths: Seq<Seq<char>>,
    style: Seq<char>,
    music: Option<Seq<char>>,
    bg_music_volume: int,
    main_audio_volume: int,
    output: Seq<char>,
    list_path: Seq<char>,
    combined_path: Seq<char>,
) -> bool {
    let audio = if paths.len() > 1 { combined_path } else { paths[0] };
    let filter = flat_filter(
        gain_of_percent(main_audio_volume),
        music_gain(music, bg_music_volume),
    );
    let video = video_filter_text(fit_mode_of(style));
    &&& paths.len() > 1 ==> (session.concat matches Some(step) && is_concat_of(
        step,
        paths,
        list_path,
        combined_path,
    ))
    &&& paths.len() <= 1 ==> session.concat is None
    &&& session.audio_path@ == audio
    &&& session.fit_mode == fit_mode_of(style)
    &&& session.video_filter@ == video
    &&& session.audio_filter@ == filter
    &&& session.has_bg_music == (music is Some)
    &&& session.output_path@ == output
    &&& all_passable(flat_args(image, music, audio, video, filter, output)) ==> command_args(
        session.command,
    ) == flat_args(image, music, audio, video, filter, output)
}

/// The audio filter of a flat session does not depend on its files: one
/// file, several files, or the one file that several were joined into all
/// get the same filter under the same gains.
pub proof fn lemma_flat_filter_ignores_files(
    first: FlatSession,
    second: FlatSession,
    image: Seq<char>,
    first_paths: Seq<Seq<char>>,
    second_paths: Seq<Seq<char>>,
    style: Seq<char>,
    music: Option<Seq<char>>,
    bg_music_volume: int,
    main_audio_volume: int,
    first_places: (Seq<char>, Seq<char>, Seq<char>),
    second_places: (Seq<char>, Seq<char>, Seq<char>),
)
    requires
        is_flat_session_of(
            first,
            image,
            first_paths,
            style,
            music,
            bg_music_volume,
            main_audio_volume,
            first_places.0,
            first_places.1,
            first_places.2,
        ),
        is_flat_session_of(
            second,
            image,
            second_paths,
            style,
            music,
            bg_music_volume,
            main_audio_volume,
            second_places.0,
            second_places.1,
            second_places.2,
        ),
    ensures
        first.audio_filter@ == second.audio_filter@,
        first.video_filter@ == second.video_filter@,
{
}

/// A path as the list has it: with slashes only.
pub fn with_forward_slashes(path: &str) -> (r: String)
    ensures
        r@ == forward_slashes(path@),
{
    let ghost target = forward_slashes(path@);
    let mut out = String::new();
    for c in it: path.chars()
        invariant
            it.seq() == path@,
            target == forward_slashes(path@),
            out@ == target.take(it.index() as int),
    {
        let d: char = if c == '\\' { '/' } else { c };
        out.push(d);
    }
    out
}

/// The line that names one file.
fn concat_line_text(path: &str) -> (r: String)
    ensures
        r@ == concat_line(path@),
{
    let mut line = String::from_str("file '");
    let slashed = with_forward_slashes(path);
    line.append(slashed.as_str());
    line.append("'");
    line
}

/// The list that names the files to join.
pub fn concat_list_content(audio_paths: &Vec<String>) -> (r: String)
    ensures
        r@ == concat_list(string_views(audio_paths@)),
{
    let ghost paths = string_views(audio_paths@);
    if audio_paths.len() == 0 {
        return String::new();
    }
    let mut out = concat_line_text(audio_paths[0].as_str());
    let mut i: usize = 1;
    while i < audio_paths.len()
        invariant
            1 <= i <= audio_paths.len(),
            paths == string_views(audio_paths@),
            out@ == concat_list(paths.take(i as int)),
        decreases audio_paths.len() - i,
    {
        assert(paths.take(i + 1).drop_last() =~= paths.take(i as int));
        let line = concat_line_text(audio_paths[i].as_str());
        out.append("\n");
        out.append(line.as_str());
        i += 1;
    }
    assert(paths.take(audio_paths.len() as int) =~= paths);
    out
}

/// The audio filter of a flat session.
pub fn flat_audio_filter(main_volume: Fixed, bg_volume: Option<Fixed>) -> (r: String)
    ensures
        r@ == flat_filter(
            main_volume@,
            match bg_volume {
                Some(v) => Some(v@),
                None => None,
            },
        ),
{
    match bg_volume {
        Some(v) => {
            let mut out = String::from_str("[1:a]aloop=loop=-1:size=2e+09[bg];[bg]volume=");
            append_fixed(&mut out, v);
            out.append("[bg_vol];[2:a]volume=");
            append_fixed(&mut out, main_volume);
            out.append("[main];[main][bg_vol]amix=inputs=2:duration=first:dropout_transition=2");
            out
        },
        None => {
            let mut out = String::from_str("volume=");
            append_fixed(&mut out, main_volume);
            out
        },
    }
}

/// The command that joins the files of a list. It holds the arguments of
/// the joining, unless one of them cannot be an argument.
pub fn concat_command(list_path: &str, combined_path: &str) -> (cmd: FfmpegCommand)
    ensures
        all_passable(concat_args(list_path@, combined_path@)) ==> command_args(cmd)
            == concat_args(list_path@, combined_path@),
{
    let ghost wanted = concat_args(list_path@, combined_path@);
    let ghost added = seq![
        "-f"@,
        "concat"@,
        "-i"@,
        list_path@,
        "-safe"@,
        "0"@,
        "-c"@,
        "copy"@,
        "-y"@,
        combined_path@,
    ];
    proof {
        if all_passable(wanted) {
            lemma_passable_concat(initial_args(), added);
            assert(is_passable(added[1]));
            assert(is_passable(added[3]));
            assert(is_passable(added[4]));
            assert(is_passable(added[5]));
            assert(is_passable(added[6]));
            assert(is_passable(added[7]));
            assert(is_passable(added[9]));
        }
    }
    let mut cmd = new_command();
    add_format(&mut cmd, "concat");
    add_input(&mut cmd, list_path);
    let copy = ["-safe", "0", "-c", "copy"];
    add_args(&mut cmd, &copy);
    assert(str_views(copy@) =~= seq!["-safe"@, "0"@, "-c"@, "copy"@]);
    add_overwrite(&mut cmd);
    add_output(&mut cmd, combined_path);
    assert(all_passable(wanted) ==> command_args(cmd) =~= wanted);
    cmd
}

/// The command that encodes one audio file. It holds the arguments of the
/// encoding, unless one of them cannot be an argument.
pub fn flat_command(
    image_path: &str,
    bg_music_path: &Option<String>,
    audio_path: &str,
    video_filter: &str,
    audio_filter: &str,
    output_path: &str,
) -> (cmd: FfmpegCommand)
    ensures
        all_passable(
            flat_args(
                image_path@,
                option_text(*bg_music_path),
                audio_path@,
                video_filter@,
                audio_filter@,
                output_path@,
            ),
        ) ==> command_args(cmd) == flat_args(
            image_path@,
            option_text(*bg_music_path),
            audio_path@,
            video_filter@,
            audio_filter@,
            output_path@,
        ),
{
    let ghost music = option_text(*bg_music_path);
    let ghost wanted = flat_args(
        image_path@,
        music,
        audio_path@,
        video_filter@,
        audio_filter@,
        output_path@,
    );
    let ghost still = seq!["-loop"@, "1"@, "-i"@, image_path@];
    let ghost flag = if music is Some { "-filter_complex"@ } else { "-af"@ };
    let ghost inputs = match music {
        Some(m) => seq!["-i"@, m, "-i"@, audio_path@],
        None => seq!["-i"@, audio_path@],
    };
    let ghost filters = seq!["-vf"@, video_filter@, flag, audio_filter@];
    proof {
        if all_passable(wanted) {
            let body = initial_args() + still + inputs + filters + encode_options();
            lemma_passable_push(body.push("-y"@), output_path@);
            lemma_passable_push(body, "-y"@);
            lemma_passable_concat(initial_args() + still + inputs + filters, encode_options());
            lemma_passable_concat(initial_args() + still + inputs, filters);
            lemma_passable_concat(initial_args() + still, inputs);
            lemma_passable_concat(initial_args(), still);
            assert(is_passable(still[0]));
            assert(is_passable(still[1]));
            assert(is_passable(still[3]));
            assert(is_passable(inputs[1]));
            if music is Some {
                assert(is_passable(inputs[3]));
            }
            lemma_passable_concat(filters, encode_options());
        }
    }
    let mut cmd = new_command();
    let still = ["-loop", "1"];
    add_args(&mut cmd, &still);
    add_input(&mut cmd, image_path);
    match bg_music_path {
        Some(music) => {
            add_input(&mut cmd, music.as_str());
            add_input(&mut cmd, audio_path);
            let options = [
                "-vf",
                video_filter,
                "-filter_complex",
                audio_filter,
                "-c:v",
                "libx264",
                "-tune",
                "stillimage",
                "-c:a",
                "aac",
                "-b:a",
                "192k",
                "-pix_fmt",
                "yuv420p",
                "-shortest",
            ];
            add_args(&mut cmd, &options);
        },
        None => {
            add_input(&mut cmd, audio_path);
            let options = [
                "-vf",
                video_filter,
                "-af",
                audio_filter,
                "-c:v",
                "libx264",
                "-tune",
                "stillimage",
                "-c:a",
                "aac",
                "-b:a",
                "192k",
                "-pix_fmt",
                "yuv420p",
                "-shortest",
            ];
            add_args(&mut cmd, &options);
        },
    }
    add_overwrite(&mut cmd);
    add_output(&mut cmd, output_path);
    assert(all_passable(wanted) ==> command_args(cmd) =~= wanted);
    cmd
}

/// Builds the flat session of a list of files, with its files at the given
/// paths.
///
/// Fails with `NoAudioFiles`, and only so, where the list is empty.
pub fn flat_session_at(
    image_path: &str,
    audio_paths: &Vec<String>,
    background_style: &str,
    bg_music_path: Option<String>,
    bg_music_volume: i32,
    main_audio_volume: i32,
    output_path: String,
    list_path: String,
    combined_path: String,
) -> (r: Result<FlatSession, EncodeError>)
    ensures
        audio_paths.len() == 0 ==> r matches Err(EncodeError::NoAudioFiles),
        audio_paths.len() > 0 ==> (r matches Ok(session) && is_flat_session_of(
            session,
            image_path@,
            string_views(audio_paths@),
            background_style@,
            option_text(bg_music_path),
            bg_music_volume as int,
            main_audio_volume as int,
            output_path@,
            list_path@,
            combined_path@,
        )),
{
    if audio_paths.len() == 0 {
        return Err(EncodeError::NoAudioFiles);
    }
    let fit_mode = FitMode::parse(background_style);
    let video_filter = String::from_str(fit_mode.video_filter());
    let has_bg_music = bg_music_path.is_some();
    let bg_volume = if has_bg_music {
        Some(Fixed::from_percent(bg_music_volume))
    } else {
        None
    };
    let audio_filter = flat_audio_filter(Fixed::from_percent(main_audio_volume), bg_volume);
    let mut concat: Option<ConcatStep> = None;
    let audio_path: String;
    if audio_paths.len() > 1 {
        let list_content = concat_list_content(audio_paths);
        let command = concat_command(list_path.as_str(), combined_path.as_str());
        audio_path = combined_path.clone();
        concat = Some(ConcatStep { list_path, list_content, combined_path, command });
    } else {
        audio_path = audio_paths[0].clone();
    }
    let command = flat_command(
        image_path,
        &bg_music_path,
        audio_path.as_str(),
        video_filter.as_str(),
        audio_filter.as_str(),
        output_path.as_str(),
    );
    Ok(
        FlatSession {
            concat,
            command,
            audio_path,
            fit_mode,
            video_filter,
            audio_filter,
            has_bg_music,
            output_path,
        },
    )
}

/// The three names of a flat session's files are plain file names.
pub proof fn lemma_flat_names_are_file_names()
    ensures
        is_file_name("output.mp4"@),
        is_file_name("concat_list.txt"@),
        is_file_name("temp_combined.mp3"@),
{
    reveal_strlit("output.mp4");
    reveal_strlit("concat_list.txt");
    reveal_strlit("temp_combined.mp3");
    assert("output.mp4"@.len() == 10);
    assert("concat_list.txt"@.len() == 15);
    assert("temp_combined.mp3"@.len() == 17);
}

/// Builds the flat session of a list of files.
///
/// The output `output.mp4`, the list `concat_list.txt` and the joined audio
/// `temp_combined.mp3` all go into the directory of the first file: each
/// path ends with its name. An empty list fails with `NoAudioFiles`; a
/// first file without a directory fails with `NoAudioDirectory`.
pub fn flat_session(
    image_path: &str,
    audio_paths: &Vec<String>,
    background_style: &str,
    bg_music_path: Option<String>,
    bg_music_volume: i32,
    main_audio_volume: i32,
) -> (r: Result<FlatSession, EncodeError>)
    ensures
        audio_paths.len() == 0 <==> r matches Err(EncodeError::NoAudioFiles),
        r matches Err(e) ==> e is NoAudioFiles || e is NoAudioDirectory,
        audio_paths.len() > 0 && audio_paths[0]@.len() == 0 ==> r is Err,
        r matches Ok(session) ==> is_flat_session_of(
            session,
            image_path@,
            string_views(audio_paths@),
            background_style@,
            option_text(bg_music_path),
            bg_music_volume as int,
            main_audio_volume as int,
            session.output_path@,
            match session.concat {
                Some(step) => step.list_path@,
                None => Seq::<char>::empty(),
            },
            match session.concat {
                Some(step) => step.combined_path@,
                None => Seq::<char>::empty(),
            },
        ),
        r matches Ok(session) ==> has_suffix(session.output_path@, "output.mp4"@),
        r matches Ok(session) ==> (session.concat matches Some(step) ==> has_suffix(
            step.list_path@,
            "concat_list.txt"@,
        ) && has_suffix(step.combined_path@, "temp_combined.mp3"@)),
{
    if audio_paths.len() == 0 {
        return Err(EncodeError::NoAudioFiles);
    }
    proof {
        lemma_flat_names_are_file_names();
    }
    match parent_dir(audio_paths[0].as_str()) {
        None => Err(EncodeError::NoAudioDirectory),
        Some(dir) => {
            let output_path = join_path(dir.as_str(), "output.mp4");
            let list_path = join_path(dir.as_str(), "concat_list.txt");
            let combined_path = join_path(dir.as_str(), "temp_combined.mp3");
            flat_session_at(
                image_path,
                audio_paths,
                background_style,
                bg_music_path,
                bg_music_volume,
                main_audio_volume,
                output_path,
                list_path,
                combined_path,
            )
        },
    }
}

/// Where a flat session stands.
#[derive(Clone, Copy, Debug, PartialEq, Eq, Structural)]
pub enum FlatState {
    NotStarted,
    /// The list of files to join is being written.
    WritingList,
    /// The files are being joined.
    Joining,
    /// The video is being encoded.
    Encoding,
    Succeeded,
    Failed,
}

/// What can happen to a flat session.
#[derive(Debug)]
pub enum FlatEvent {
    /// The caller is ready to run the session.
    Begin,
    /// The list was written.
    ListWritten,
    /// The list could not be written.
    ListFailed(String),
    /// The command could not be launched.
    LaunchFailed(String),
    /// The command's end could not be awaited.
    WaitFailed(String),
    /// The command ended.
    Exited { success: bool },
}

/// What the caller is to do after a step of a flat session.
#[derive(Debug)]
pub enum FlatAction {
    /// Nothing.
    Continue,
    /// Write the list of files to join.
    WriteList,
    /// Run the command that joins.
    Join,
    /// Run the command that encodes; before that, remove the list if it was
    /// written.
    Encode { remove_list: bool },
    /// End with the path of the video.
    Succeed(String),
    /// End with the error.
    Fail(EncodeError),
}

/// The state of a flat session after an event.
pub open spec fn next_flat_state(state: FlatState, joins: bool, event: FlatEvent) -> FlatState {
    match (state, event) {
        (FlatState::NotStarted, FlatEvent::Begin) => if joins {
            FlatState::WritingList
        } else {
            FlatState::Encoding
        },
        (FlatState::WritingList, FlatEvent::ListWritten) => FlatState::Joining,
        (FlatState::WritingList, FlatEvent::ListFailed(_)) => FlatState::Failed,
        (FlatState::Joining, FlatEvent::LaunchFailed(_)) => FlatState::Failed,
        (FlatState::Joining, FlatEvent::WaitFailed(_)) => FlatState::Failed,
        (FlatState::Joining, FlatEvent::Exited { success }) => if success {
            FlatState::Encoding
        } else {
            FlatState::Failed
        },
        (FlatState::Encoding, FlatEvent::LaunchFailed(_)) => FlatState::Failed,
        (FlatState::Encoding, FlatEvent::WaitFailed(_)) => FlatState::Failed,
        (FlatState::Encoding, FlatEvent::Exited { success }) => if success {
            FlatState::Succeeded
        } else {
            FlatState::Failed
        },
        _ => state,
    }
}

/// How far a state of a flat session is on the way from `NotStarted` to an
/// end.
pub open spec fn flat_rank(state: FlatState) -> nat {
    match state {
        FlatState::NotStarted => 0,
        FlatState::WritingList => 1,
        FlatState::Joining => 2,
        FlatState::Encoding => 3,
        FlatState::Succeeded => 4,
        FlatState::Failed => 4,
    }
}

/// An ended flat session stays as it is, whatever happens.
pub proof fn lemma_ended_flat_sessions_stay(state: FlatState, joins: bool, event: FlatEvent)
    requires
        state == FlatState::Succeeded || state == FlatState::Failed,
    ensures
        next_flat_state(state, joins, event) == state,
{
}

/// A flat session never goes back, and it succeeds only out of encoding.
/// A session of one file never writes a list and never joins.
pub proof fn lemma_flat_sessions_go_forward(state: FlatState, joins: bool, event: FlatEvent)
    ensures
        flat_rank(state) <= flat_rank(next_flat_state(state, joins, event)),
        next_flat_state(state, joins, event) == FlatState::Succeeded ==> state
            == FlatState::Encoding || state == FlatState::Succeeded,
        !joins && state != FlatState::WritingList && state != FlatState::Joining
            ==> next_flat_state(state, joins, event) != FlatState::WritingList
            && next_flat_state(state, joins, event) != FlatState::Joining,
{
}

/// Whether `action` is what an event asks for in a state of a flat session.
pub open spec fn is_flat_action_of(
    action: FlatAction,
    state: FlatState,
    session: FlatSession,
    event: FlatEvent,
) -> bool {
    match (state, event) {
        (FlatState::NotStarted, FlatEvent::Begin) => if session.concat is Some {
            action is WriteList
        } else {
            action == (FlatAction::Encode { remove_list: false })
        },
        (FlatState::WritingList, FlatEvent::ListWritten) => action is Join,
        (FlatState::WritingList, FlatEvent::ListFailed(cause)) => {
            action matches FlatAction::Fail(EncodeError::ConcatList(text)) && text@ == cause@
        },
        (FlatState::Joining, FlatEvent::LaunchFailed(cause)) => {
            action matches FlatAction::Fail(EncodeError::ConcatSpawn(text)) && text@ == cause@
        },
        (FlatState::Joining, FlatEvent::WaitFailed(cause)) => {
            action matches FlatAction::Fail(EncodeError::ConcatWait(text)) && text@ == cause@
        },
        (FlatState::Joining, FlatEvent::Exited { success }) => if success {
            action == (FlatAction::Encode { remove_list: true })
        } else {
            action matches FlatAction::Fail(EncodeError::ConcatFailed)
        },
        (FlatState::Encoding, FlatEvent::LaunchFailed(cause)) => {
            action matches FlatAction::Fail(EncodeError::Spawn(text)) && text@ == cause@
        },
        (FlatState::Encoding, FlatEvent::WaitFailed(cause)) => {
            action matches FlatAction::Fail(EncodeError::Wait(text)) && text@ == cause@
        },
        (FlatState::Encoding, FlatEvent::Exited { success }) => if success {
            action matches FlatAction::Succeed(path) && path@ == session.output_path@
        } else if session.has_bg_music {
            action matches FlatAction::Fail(EncodeError::EncodingFailedWithMusic)
        } else {
            action matches FlatAction::Fail(EncodeError::EncodingFailedWithoutMusic)
        },
        _ => action is Continue,
    }
}

/// Decides on one event of a flat session: the next state, and what to do.
pub fn flat_step(state: FlatState, session: &FlatSession, event: FlatEvent) -> (r: (
    FlatState,
    FlatAction,
))
    ensures
        r.0 == next_flat_state(state, session.concat is Some, event),
        is_flat_action_of(r.1, state, *session, event),
{
    match state {
        FlatState::NotStarted => match event {
            FlatEvent::Begin => {
                if session.concat.is_some() {
                    (FlatState::WritingList, FlatAction::WriteList)
                } else {
                    (FlatState::Encoding, FlatAction::Encode { remove_list: false })
                }
            },
            _ => (state, FlatAction::Continue),
        },
        FlatState::WritingList => match event {
            FlatEvent::ListWritten => (FlatState::Joining, FlatAction::Join),
            FlatEvent::ListFailed(cause) => (
                FlatState::Failed,
                FlatAction::Fail(EncodeError::ConcatList(cause)),
            ),
            _ => (state, FlatAction::Continue),
        },
        FlatState::Joining => match event {
            FlatEvent::LaunchFailed(cause) => (
                FlatState::Failed,
                FlatAction::Fail(EncodeError::ConcatSpawn(cause)),
            ),
            FlatEvent::WaitFailed(cause) => (
                FlatState::Failed,
                FlatAction::Fail(EncodeError::ConcatWait(cause)),
            ),
            FlatEvent::Exited { success } => {
                if success {
                    (FlatState::Encoding, FlatAction::Encode { remove_list: true })
                } else {
                    (FlatState::Failed, FlatAction::Fail(EncodeError::ConcatFailed))
                }
            },
            _ => (state, FlatAction::Continue),
        },
        FlatState::Encoding => match event {
            FlatEvent::LaunchFailed(cause) => (
                FlatState::Failed,
                FlatAction::Fail(EncodeError::Spawn(cause)),
            ),
            FlatEvent::WaitFailed(cause) => (
                FlatState::Failed,
                FlatAction::Fail(EncodeError::Wait(cause)),
            ),
            FlatEvent::Exited { success } => {
                if success {
                    (FlatState::Succeeded, FlatAction::Succeed(session.output_path.clone()))
                } else if session.has_bg_music {
                    (FlatState::Failed, FlatAction::Fail(EncodeError::EncodingFailedWithMusic))
                } else {
                    (
                        FlatState::Failed,
                        FlatAction::Fail(EncodeError::EncodingFailedWithoutMusic),
                    )
                }
            },
            _ => (state, FlatAction::Continue),
        },
        _ => (state, FlatAction::Continue),
    }
}

} // verus!
