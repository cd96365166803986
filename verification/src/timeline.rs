//! The timeline: tracks of audio clips, each placed on the output's time
//! axis and trimmed out of its source.

use vstd::prelude::*;
use crate::fixed::{saturate, Fixed};

verus! {

/// One clip: a window of an audio source, placed at a time of the output.
///
/// The window starts at `trim_start` in the source and lasts `duration`.
/// `trim_end` is carried along, and the window never reads it.
#[derive(Clone, Debug)]
pub struct TimelineClip {
    pub source_file: String,
    pub start_time: Fixed,
    pub duration: Fixed,
    pub trim_start: Fixed,
    pub trim_end: Fixed,
}

/// A clip together with the gain of the track that it lies on.
#[derive(Clone, Debug)]
pub struct ClipWithVolume {
    pub clip: TimelineClip,
    pub track_volume: Fixed,
}

/// A track: clips in order, and one gain for all of them.
#[derive(Debug)]
pub struct TimelineTrack {
    pub clips: Vec<TimelineClip>,
    pub volume: Fixed,
}

/// A timeline: its tracks.
#[derive(Debug)]
pub struct TimelineData {
    pub tracks: Vec<TimelineTrack>,
}

/// What a clip says: times and gains in millionths.
pub struct ClipView {
    pub source_file: Seq<char>,
    pub start_time: int,
    pub duration: int,
    pub trim_start: int,
    pub trim_end: int,
}

/// What a clip with its track's gain says.
pub struct ClipWithVolumeView {
    pub clip: ClipView,
    pub track_volume: int,
}

/// What a track says.
pub struct TrackView {
    pub clips: Seq<ClipView>,
    pub volume: int,
}

impl View for TimelineClip {
    type V = ClipView;

    open spec fn view(&self) -> ClipView {
        ClipView {
            source_file: self.source_file@,
            start_time: self.start_time@,
            duration: self.duration@,
            trim_start: self.trim_start@,
            trim_end: self.trim_end@,
        }
    }
}

impl View for ClipWithVolume {
    type V = ClipWithVolumeView;

    open spec fn view(&self) -> ClipWithVolumeView {
        ClipWithVolumeView { clip: self.clip@, track_volume: self.track_volume@ }
    }
}

/// The views of a list of clips.
pub open spec fn clip_views(clips: Seq<TimelineClip>) -> Seq<ClipView> {
    clips.map_values(|c: TimelineClip| c@)
}

/// The views of a list of clips with gains.
pub open spec fn gained_views(clips: Seq<ClipWithVolume>) -> Seq<ClipWithVolumeView> {
    clips.map_values(|c: ClipWithVolume| c@)
}

impl View for TimelineTrack {
    type V = TrackView;

    open spec fn view(&self) -> TrackView {
        TrackView { clips: clip_views(self.clips@), volume: self.volume@ }
    }
}

impl View for TimelineData {
    type V = Seq<TrackView>;

    open spec fn view(&self) -> Seq<TrackView> {
        self.tracks@.map_values(|t: TimelineTrack| t@)
    }
}

/// Whether a clip is sound: it is placed at or after the start of the
/// output, lasts for some time, and its window starts at or after the start
/// of its source and ends no earlier than it starts.
pub open spec fn is_sound(clip: ClipView) -> bool {
    &&& clip.start_time >= 0
    &&& clip.duration > 0
    &&& clip.trim_start >= 0
    &&& clip.trim_end >= clip.trim_start
}

/// The clips of one track, each with the track's gain.
pub open spec fn with_volume(clips: Seq<ClipView>, volume: int) -> Seq<ClipWithVolumeView> {
    clips.map_values(|c: ClipView| ClipWithVolumeView { clip: c, track_volume: volume })
}

/// Every clip of every track, track by track and in each track's order, with
/// its track's gain.
pub open spec fn all_clips(tracks: Seq<TrackView>) -> Seq<ClipWithVolumeView>
    decreases tracks.len(),
{
    if tracks.len() == 0 {
        Seq::<ClipWithVolumeView>::empty()
    } else {
        all_clips(tracks.drop_last()) + with_volume(tracks.last().clips, tracks.last().volume)
    }
}

/// The number of clips on all tracks together.
pub open spec fn clip_count(tracks: Seq<TrackView>) -> nat
    decreases tracks.len(),
{
    if tracks.len() == 0 {
        0
    } else {
        clip_count(tracks.drop_last()) + tracks.last().clips.len()
    }
}

/// The time at which a clip ends on the output's axis, saturated.
pub open spec fn clip_end(clip: ClipView) -> int {
    saturate(clip.start_time + clip.duration)
}

/// The time at which the last clip ends: the greatest `clip_end`, and zero
/// where there is no clip or none ends after zero.
pub open spec fn total_duration(clips: Seq<ClipWithVolumeView>) -> int
    decreases clips.len(),
{
    if clips.len() == 0 {
        0
    } else {
        let before = total_duration(clips.drop_last());
        let end = clip_end(clips.last().clip);
        if end > before {
            end
        } else {
            before
        }
    }
}

/// The flattened list holds as many clips as the tracks do.
pub proof fn lemma_all_clips_len(tracks: Seq<TrackView>)
    ensures
        all_clips(tracks).len() == clip_count(tracks),
    decreases tracks.len(),
{
    if tracks.len() > 0 {
        lemma_all_clips_len(tracks.drop_last());
    }
}

/// The total duration is never negative, and no clip ends after it.
pub proof fn lemma_total_duration_bounds(clips: Seq<ClipWithVolumeView>, i: int)
    requires
        0 <= i < clips.len(),
    ensures
        total_duration(clips) >= 0,
        total_duration(clips) >= clip_end(clips[i].clip),
    decreases clips.len(),
{
    lemma_total_duration_nonnegative(clips.drop_last());
    if i < clips.len() - 1 {
        lemma_total_duration_bounds(clips.drop_last(), i);
    }
}

/// The total duration is never negative.
pub proof fn lemma_total_duration_nonnegative(clips: Seq<ClipWithVolumeView>)
    ensures
        total_duration(clips) >= 0,
    decreases clips.len(),
{
    if clips.len() > 0 {
        lemma_total_duration_nonnegative(clips.drop_last());
    }
}

impl TimelineClip {
    /// Whether the clip is sound.
    pub fn is_valid(&self) -> (r: bool)
        ensures
            r == is_sound(self@),
    {
        self.start_time.micros >= 0 && self.duration.micros > 0 && self.trim_start.micros >= 0
            && self.trim_end.micros >= self.trim_start.micros
    }

    /// A copy of the clip.
    pub fn copy(&self) -> (r: TimelineClip)
        ensures
            r@ == self@,
    {
        TimelineClip {
            source_file: self.source_file.clone(),
            start_time: self.start_time,
            duration: self.duration,
            trim_start: self.trim_start,
            trim_end: self.trim_end,
        }
    }
}

/// Flattens a timeline: every clip of every track, in order, paired with its
/// track's gain.
pub fn flatten(timeline: &TimelineData) -> (clips: Vec<ClipWithVolume>)
    ensures
        gained_views(clips@) == all_clips(timeline@),
{
    let mut out: Vec<ClipWithVolume> = Vec::new();
    let mut t: usize = 0;
    while t < timeline.tracks.len()
        invariant
            t <= timeline.tracks.len(),
            gained_views(out@) == all_clips(timeline@.take(t as int)),
        decreases timeline.tracks.len() - t,
    {
        let track = &timeline.tracks[t];
        let ghost done = gained_views(out@);
        let ghost wanted = with_volume(track@.clips, track@.volume);
        let mut c: usize = 0;
        while c < track.clips.len()
            invariant
                c <= track.clips.len(),
                wanted == with_volume(track@.clips, track@.volume),
                gained_views(out@) == done + wanted.take(c as int),
            decreases track.clips.len() - c,
        {
            let item = ClipWithVolume { clip: track.clips[c].copy(), track_volume: track.volume };
            let ghost before = out@;
            out.push(item);
            assert(gained_views(out@) =~= gained_views(before).push(item@));
            c += 1;
        }
        assert(timeline@.take(t + 1).drop_last() =~= timeline@.take(t as int));
        t += 1;
    }
    assert(timeline@.take(timeline.tracks.len() as int) =~= timeline@);
    out
}

/// The time at which the last clip ends, for the percentage of progress.
pub fn total_duration_of(clips: &Vec<ClipWithVolume>) -> (total: Fixed)
    ensures
        total@ == total_duration(gained_views(clips@)),
{
    let mut total = Fixed::zero();
    let mut i: usize = 0;
    let ghost views = gained_views(clips@);
    while i < clips.len()
        invariant
            i <= clips.len(),
            views == gained_views(clips@),
            total@ == total_duration(views.take(i as int)),
        decreases clips.len() - i,
    {
        assert(views.take(i + 1).drop_last() =~= views.take(i as int));
        let end = clips[i].clip.start_time.saturating_add(clips[i].clip.duration);
        if end.micros > total.micros {
            total = end;
        }
        i += 1;
    }
    assert(views.take(clips.len() as int) =~= views);
    total
}

} // verus!
