//! The audio filter graph of a timeline.
//!
//! Each clip gets a chain of its own: trim the source to the clip's window,
//! reset the timestamps, apply the track's gain, delay to the clip's place.
//! The chains' outputs `a0`, `a1`, ... are mixed for as long as the longest
//! of them lasts, and the master gain is applied: that is `aout`. Background
//! music, looped and with a gain of its own, is mixed to that for as long as
//! `aout` lasts: that is `final`.

use vstd::prelude::*;
use vstd::string::StringExecFns;
use crate::fixed::{saturate, truncated_quotient, Fixed};
use crate::inputs::{base_offset, first_index, input_slot, source_position, string_views};
use crate::text::{
    append_fixed, append_index, append_signed, append_unsigned, decimal_digits, fixed_text,
    signed_digits,
};
use crate::timeline::{gained_views, ClipWithVolume, ClipWithVolumeView};

verus! {

/// Where a clip's window ends in its source: `trim_start + duration`.
pub open spec fn window_end(clip: ClipWithVolumeView) -> int {
    saturate(clip.clip.duration + clip.clip.trim_start)
}

/// The delay that places a clip, in whole milliseconds.
pub open spec fn delay_millis(clip: ClipWithVolumeView) -> int {
    truncated_quotient(clip.clip.start_time, 1000)
}

/// The chain of the clip at `index`, which reads the input `slot`.
pub open spec fn clip_filter(slot: nat, clip: ClipWithVolumeView, index: nat) -> Seq<char> {
    "["@ + decimal_digits(slot) + ":a]atrim=start="@ + fixed_text(clip.clip.trim_start)
        + ":end="@ + fixed_text(window_end(clip)) + ",asetpts=PTS-STARTPTS,volume="@
        + fixed_text(clip.track_volume) + ",adelay="@ + signed_digits(delay_millis(clip)) + "|"@
        + signed_digits(delay_millis(clip)) + "[a"@ + decimal_digits(index) + "]"@
}

/// The chains of the first `n` clips, each followed by a semicolon.
pub open spec fn clip_filters(
    clips: Seq<ClipWithVolumeView>,
    sources: Seq<Seq<char>>,
    has_bg_music: bool,
    n: nat,
) -> Seq<char>
    decreases n,
{
    if n == 0 {
        Seq::<char>::empty()
    } else {
        let i = (n - 1) as nat;
        clip_filters(clips, sources, has_bg_music, i) + clip_filter(
            input_slot(sources, clips[i as int].clip.source_file, has_bg_music) as nat,
            clips[i as int],
            i,
        ) + ";"@
    }
}

/// The labels `[a0]`, `[a1]`, ... of the first `n` chains.
pub open spec fn mix_labels(n: nat) -> Seq<char>
    decreases n,
{
    if n == 0 {
        Seq::<char>::empty()
    } else {
        mix_labels((n - 1) as nat) + "[a"@ + decimal_digits((n - 1) as nat) + "]"@
    }
}

/// The graph of a timeline's clips, up to the label `aout`. A list without
/// clips has the empty graph.
pub open spec fn filter_complex(
    clips: Seq<ClipWithVolumeView>,
    sources: Seq<Seq<char>>,
    main_volume: int,
    has_bg_music: bool,
) -> Seq<char> {
    if clips.len() == 0 {
        Seq::<char>::empty()
    } else {
        clip_filters(clips, sources, has_bg_music, clips.len()) + mix_labels(clips.len())
            + "amix=inputs="@ + decimal_digits(clips.len()) + ":duration=longest,volume="@
            + fixed_text(main_volume) + "[aout]"@
    }
}

/// A graph with the background music mixed to it, up to the label `final`.
pub open spec fn with_music(graph: Seq<char>, bg_volume: int) -> Seq<char> {
    graph + ";[1:a]aloop=loop=-1:size=2e+09,volume="@ + fixed_text(bg_volume)
        + "[bgmusic];[aout][bgmusic]amix=inputs=2:duration=first:dropout_transition=2[final]"@
}

/// The whole audio graph of a session.
pub open spec fn audio_graph(
    clips: Seq<ClipWithVolumeView>,
    sources: Seq<Seq<char>>,
    main_volume: int,
    bg_volume: Option<int>,
) -> Seq<char> {
    match bg_volume {
        Some(v) => with_music(filter_complex(clips, sources, main_volume, true), v),
        None => filter_complex(clips, sources, main_volume, false),
    }
}

/// The label of the graph's last output, in the brackets that map it.
pub open spec fn output_label(has_bg_music: bool) -> Seq<char> {
    if has_bg_music {
        "[final]"@
    } else {
        "[aout]"@
    }
}

/// Whether every clip names a source of the list.
pub open spec fn sources_cover(clips: Seq<ClipWithVolumeView>, sources: Seq<Seq<char>>) -> bool {
    forall|i: int| 0 <= i < clips.len() ==> sources.contains(#[trigger] clips[i].clip.source_file)
}

/// The graph does not read what the sources are called: clips that agree in
/// times, gains and input slots have the same chains.
pub proof fn lemma_clip_filters_by_slot(
    clips: Seq<ClipWithVolumeView>,
    sources: Seq<Seq<char>>,
    other_clips: Seq<ClipWithVolumeView>,
    other_sources: Seq<Seq<char>>,
    has_bg_music: bool,
    n: nat,
)
    requires
        n <= clips.len(),
        n <= other_clips.len(),
        forall|i: int|
            0 <= i < n ==> {
                &&& (#[trigger] clips[i]).clip.start_time == other_clips[i].clip.start_time
                &&& clips[i].clip.duration == other_clips[i].clip.duration
                &&& clips[i].clip.trim_start == other_clips[i].clip.trim_start
                &&& clips[i].track_volume == other_clips[i].track_volume
                &&& first_index(sources, clips[i].clip.source_file) == first_index(
                    other_sources,
                    other_clips[i].clip.source_file,
                )
            },
    ensures
        clip_filters(clips, sources, has_bg_music, n) == clip_filters(
            other_clips,
            other_sources,
            has_bg_music,
            n,
        ),
    decreases n,
{
    if n > 0 {
        lemma_clip_filters_by_slot(
            clips,
            sources,
            other_clips,
            other_sources,
            has_bg_music,
            (n - 1) as nat,
        );
    }
}

/// A timeline of one clip has the same graph whatever its source is called:
/// one audio file put together from several stands for them all.
pub proof fn lemma_single_clip_graph(
    clip: ClipWithVolumeView,
    other: ClipWithVolumeView,
    main_volume: int,
    bg_volume: Option<int>,
)
    requires
        clip.clip.start_time == other.clip.start_time,
        clip.clip.duration == other.clip.duration,
        clip.clip.trim_start == other.clip.trim_start,
        clip.track_volume == other.track_volume,
    ensures
        audio_graph(seq![clip], seq![clip.clip.source_file], main_volume, bg_volume)
            == audio_graph(seq![other], seq![other.clip.source_file], main_volume, bg_volume),
{
    let has_bg_music = bg_volume is Some;
    lemma_clip_filters_by_slot(
        seq![clip],
        seq![clip.clip.source_file],
        seq![other],
        seq![other.clip.source_file],
        has_bg_music,
        1,
    );
}

/// The chain of one clip.
fn clip_filter_text(slot: u128, clip: &ClipWithVolume, index: usize) -> (s: String)
    ensures
        s@ == clip_filter(slot as nat, clip@, index as nat),
{
    let delay: i64 = clip.clip.start_time.whole_millis();
    let end: Fixed = clip.clip.duration.saturating_add(clip.clip.trim_start);
    let mut s = String::from_str("[");
    append_unsigned(&mut s, slot);
    s.append(":a]atrim=start=");
    append_fixed(&mut s, clip.clip.trim_start);
    s.append(":end=");
    append_fixed(&mut s, end);
    s.append(",asetpts=PTS-STARTPTS,volume=");
    append_fixed(&mut s, clip.track_volume);
    s.append(",adelay=");
    append_signed(&mut s, delay);
    s.append("|");
    append_signed(&mut s, delay);
    s.append("[a");
    append_index(&mut s, index);
    s.append("]");
    s
}

/// The labels of the first `n` chains.
fn mix_labels_text(n: usize) -> (s: String)
    ensures
        s@ == mix_labels(n as nat),
{
    let mut s = String::new();
    let mut i: usize = 0;
    while i < n
        invariant
            i <= n,
            s@ == mix_labels(i as nat),
        decreases n - i,
    {
        s.append("[a");
        append_index(&mut s, i);
        s.append("]");
        i += 1;
    }
    s
}

/// Compiles the clips into the graph that ends in `aout`.
///
/// `unique_sources` lists the audio inputs in the order of their slots, and
/// has to hold the source of every clip.
pub fn generate_filter_complex(
    clips: &Vec<ClipWithVolume>,
    unique_sources: &Vec<String>,
    main_volume: Fixed,
    has_bg_music: bool,
) -> (graph: String)
    requires
        sources_cover(gained_views(clips@), string_views(unique_sources@)),
    ensures
        graph@ == filter_complex(
            gained_views(clips@),
            string_views(unique_sources@),
            main_volume@,
            has_bg_music,
        ),
{
    let mut out = String::new();
    if clips.len() == 0 {
        return out;
    }
    let ghost views = gained_views(clips@);
    let ghost names = string_views(unique_sources@);
    let base: u128 = if has_bg_music { 2 } else { 1 };
    let mut i: usize = 0;
    while i < clips.len()
        invariant
            i <= clips.len(),
            views == gained_views(clips@),
            names == string_views(unique_sources@),
            sources_cover(views, names),
            base == base_offset(has_bg_music),
            out@ == clip_filters(views, names, has_bg_music, i as nat),
        decreases clips.len() - i,
    {
        let position = source_position(unique_sources, &clips[i].clip.source_file);
        let slot: u128 = match position {
            Some(p) => p as u128 + base,
            // Every clip's source is in the list.
            None => base,
        };
        let part = clip_filter_text(slot, &clips[i], i);
        out.append(part.as_str());
        out.append(";");
        i += 1;
    }
    let labels = mix_labels_text(clips.len());
    out.append(labels.as_str());
    out.append("amix=inputs=");
    append_index(&mut out, clips.len());
    out.append(":duration=longest,volume=");
    append_fixed(&mut out, main_volume);
    out.append("[aout]");
    out
}

/// Mixes the background music to a graph that ends in `aout`.
pub fn add_background_music(graph: String, bg_volume: Fixed) -> (mixed: String)
    ensures
        mixed@ == with_music(graph@, bg_volume@),
{
    let mut out = graph;
    out.append(";[1:a]aloop=loop=-1:size=2e+09,volume=");
    append_fixed(&mut out, bg_volume);
    out.append(
        "[bgmusic];[aout][bgmusic]amix=inputs=2:duration=first:dropout_transition=2[final]",
    );
    out
}

/// The label to map as the output's audio.
pub fn audio_output_label(has_bg_music: bool) -> (label: &'static str)
    ensures
        label@ == output_label(has_bg_music),
{
    if has_bg_music {
        "[final]"
    } else {
        "[aout]"
    }
}

} // verus!
