//! Supervising the encoder.
//!
//! The caller launches the command and reads the encoder's events; the
//! supervisor decides. Each thing that happens is handed to `step` with the
//! state the session is in, and `step` answers with the next state and with
//! what to do: tell the progress, keep a line for diagnosis, or end.
//!
//! A session starts as `NotStarted`, runs as `Running`, and ends as
//! `Succeeded` or `Failed`. Nothing leaves an ended session, and nothing but
//! a launch changes one that has not started.

use vstd::prelude::*;
use ffmpeg_sidecar::event::FfmpegEvent;
use crate::error::EncodeError;
use crate::inputs::string_views;
use crate::progress::{percent_micros, progress_sample, ProgressSample};
use crate::session::{EncodeSession, FitMode};
use crate::time_codec::elapsed_of;

verus! {

/// `ffmpeg_sidecar::event::FfmpegEvent`, one thing that the outside crate's
/// reader makes of the encoder's output. The library sees nothing inside it.
#[verifier::external_type_specification]
#[verifier::external_body]
pub struct ExFfmpegEvent(FfmpegEvent);

/// Where a session stands.
#[derive(Clone, Copy, Debug, PartialEq, Eq, Structural)]
pub enum SessionState {
    NotStarted,
    Running,
    Succeeded,
    Failed,
}

/// What the encoder says while it runs.
#[derive(Debug)]
pub enum EncoderEvent {
    /// A report of progress.
    Progress { frame: u32, fps_bits: u32, time: String },
    /// A line of the encoder's log.
    Log(String),
    /// Anything else.
    Other,
}

/// What can happen to a session.
#[derive(Debug)]
pub enum SupervisorEvent {
    /// The encoder was launched.
    Launched,
    /// The encoder could not be launched.
    LaunchFailed(String),
    /// The encoder's events could not be read.
    StreamFailed(String),
    /// The encoder said something.
    Encoder(EncoderEvent),
    /// The encoder's end could not be awaited.
    WaitFailed(String),
    /// The encoder ended, its events read to the last.
    Exited { success: bool, code: Option<i32> },
}

/// What the encoder was run with, for the diagnosis of a failure.
#[derive(Debug)]
pub struct Diagnostics {
    pub image_path: String,
    pub unique_sources: Vec<String>,
    pub fit_mode: FitMode,
    pub video_filter: String,
    pub audio_filter: String,
    pub has_bg_music: bool,
    pub exit_code: Option<i32>,
}

/// What the caller is to do after a step.
#[derive(Debug)]
pub enum Action {
    /// Nothing; go on.
    Continue,
    /// Tell the progress to whoever listens.
    Emit(ProgressSample),
    /// Keep the line for diagnosis.
    Record(String),
    /// End with the path of the video.
    Succeed(String),
    /// End with the error, and with the diagnostics where the encoder ran
    /// and failed.
    Fail(EncodeError, Option<Diagnostics>),
}

/// The state after an event.
pub open spec fn next_state(state: SessionState, event: SupervisorEvent) -> SessionState {
    match (state, event) {
        (SessionState::NotStarted, SupervisorEvent::Launched) => SessionState::Running,
        (SessionState::NotStarted, SupervisorEvent::LaunchFailed(_)) => SessionState::Failed,
        (SessionState::Running, SupervisorEvent::StreamFailed(_)) => SessionState::Failed,
        (SessionState::Running, SupervisorEvent::WaitFailed(_)) => SessionState::Failed,
        (SessionState::Running, SupervisorEvent::Exited { success, code }) => if success {
            SessionState::Succeeded
        } else {
            SessionState::Failed
        },
        _ => state,
    }
}

/// How far a state is on the way from `NotStarted` to an end.
pub open spec fn rank(state: SessionState) -> nat {
    match state {
        SessionState::NotStarted => 0,
        SessionState::Running => 1,
        SessionState::Succeeded => 2,
        SessionState::Failed => 2,
    }
}

/// An ended session stays as it is, whatever happens.
pub proof fn lemma_ended_sessions_stay(state: SessionState, event: SupervisorEvent)
    requires
        state == SessionState::Succeeded || state == SessionState::Failed,
    ensures
        next_state(state, event) == state,
{
}

/// A session never goes back: every event leaves it where it is or moves
/// it on. It succeeds only out of running, and runs only after it was
/// launched.
pub proof fn lemma_sessions_go_forward(state: SessionState, event: SupervisorEvent)
    ensures
        rank(state) <= rank(next_state(state, event)),
        next_state(state, event) == SessionState::Succeeded ==> state == SessionState::Running
            || state == SessionState::Succeeded,
        next_state(state, event) == SessionState::Running ==> state == SessionState::NotStarted
            || state == SessionState::Running,
{
}

/// What the encoder says while it runs never changes the state.
pub proof fn lemma_encoder_events_keep_state(state: SessionState, said: EncoderEvent)
    ensures
        next_state(state, SupervisorEvent::Encoder(said)) == state,
{
}

/// Whether `diagnostics` tells what `session` ran with and how it ended.
pub open spec fn diagnoses(
    diagnostics: Diagnostics,
    session: EncodeSession,
    code: Option<i32>,
) -> bool {
    &&& diagnostics.image_path@ == session.image_path@
    &&& string_views(diagnostics.unique_sources@) == string_views(session.unique_sources@)
    &&& diagnostics.fit_mode == session.fit_mode
    &&& diagnostics.video_filter@ == session.video_filter@
    &&& diagnostics.audio_filter@ == session.audio_filter@
    &&& diagnostics.has_bg_music == session.has_bg_music
    &&& diagnostics.exit_code == code
}

/// Whether `action` is what an event asks for in a state.
pub open spec fn is_action_of(
    action: Action,
    state: SessionState,
    session: EncodeSession,
    event: SupervisorEvent,
) -> bool {
    match (state, event) {
        (SessionState::NotStarted, SupervisorEvent::LaunchFailed(cause)) => {
            action matches Action::Fail(EncodeError::Spawn(text), None) && text@ == cause@
        },
        (SessionState::Running, SupervisorEvent::StreamFailed(cause)) => {
            action matches Action::Fail(EncodeError::Stream(text), None) && text@ == cause@
        },
        (SessionState::Running, SupervisorEvent::WaitFailed(cause)) => {
            action matches Action::Fail(EncodeError::Wait(text), None) && text@ == cause@
        },
        (SessionState::Running, SupervisorEvent::Exited { success, code }) => {
            if success {
                action matches Action::Succeed(path) && path@ == session.output_path@
            } else {
                action matches Action::Fail(EncodeError::EncodingFailed, Some(diagnostics))
                    && diagnoses(diagnostics, session, code)
            }
        },
        (
            SessionState::Running,
            SupervisorEvent::Encoder(EncoderEvent::Progress { frame, fps_bits, time }),
        ) => {
            action matches Action::Emit(sample) && sample.frame == frame && sample.fps_bits
                == fps_bits && sample.time@ == time@ && sample.progress@ == percent_micros(
                elapsed_of(time@),
                session.total_duration@,
            )
        },
        (SessionState::Running, SupervisorEvent::Encoder(EncoderEvent::Log(line))) => {
            action matches Action::Record(text) && text@ == line@
        },
        _ => action is Continue,
    }
}

/// A copy of a list of strings.
pub fn copy_strings(list: &Vec<String>) -> (r: Vec<String>)
    ensures
        string_views(r@) == string_views(list@),
{
    let mut r: Vec<String> = Vec::new();
    let mut i: usize = 0;
    while i < list.len()
        invariant
            i <= list.len(),
            r@.len() == i,
            forall|j: int| 0 <= j < i ==> r@[j]@ == list@[j]@,
        decreases list.len() - i,
    {
        r.push(list[i].clone());
        i += 1;
    }
    r
}

/// What a session ran with, and the code that the encoder ended with.
pub fn diagnostics_of(session: &EncodeSession, code: Option<i32>) -> (r: Diagnostics)
    ensures
        diagnoses(r, *session, code),
{
    Diagnostics {
        image_path: session.image_path.clone(),
        unique_sources: copy_strings(&session.unique_sources),
        fit_mode: session.fit_mode,
        video_filter: session.video_filter.clone(),
        audio_filter: session.audio_filter.clone(),
        has_bg_music: session.has_bg_music,
        exit_code: code,
    }
}

/// Decides on one event: the next state, and what to do.
pub fn step(state: SessionState, session: &EncodeSession, event: SupervisorEvent) -> (r: (
    SessionState,
    Action,
))
    ensures
        r.0 == next_state(state, event),
        is_action_of(r.1, state, *session, event),
{
    match state {
        SessionState::NotStarted => match event {
            SupervisorEvent::Launched => (SessionState::Running, Action::Continue),
            SupervisorEvent::LaunchFailed(cause) => (
                SessionState::Failed,
                Action::Fail(EncodeError::Spawn(cause), None),
            ),
            _ => (state, Action::Continue),
        },
        SessionState::Running => match event {
            SupervisorEvent::StreamFailed(cause) => (
                SessionState::Failed,
                Action::Fail(EncodeError::Stream(cause), None),
            ),
            SupervisorEvent::WaitFailed(cause) => (
                SessionState::Failed,
                Action::Fail(EncodeError::Wait(cause), None),
            ),
            SupervisorEvent::Exited { success, code } => {
                if success {
                    (SessionState::Succeeded, Action::Succeed(session.output_path.clone()))
                } else {
                    (
                        SessionState::Failed,
                        Action::Fail(
                            EncodeError::EncodingFailed,
                            Some(diagnostics_of(session, code)),
                        ),
                    )
                }
            },
            SupervisorEvent::Encoder(said) => match said {
                EncoderEvent::Progress { frame, fps_bits, time } => (
                    state,
                    Action::Emit(progress_sample(frame, fps_bits, time, session.total_duration)),
                ),
                EncoderEvent::Log(line) => (state, Action::Record(line)),
                EncoderEvent::Other => (state, Action::Continue),
            },
            _ => (state, Action::Continue),
        },
        _ => (state, Action::Continue),
    }
}

/// What an `ffmpeg_sidecar::event::FfmpegEvent` says: for its variant
/// `Progress` the report's frame, the bits of its rate and its time; for
/// `Log` the line; for any other variant nothing.
pub uninterp spec fn event_said(event: FfmpegEvent) -> EncoderEvent;

/// Tells the variants of `ffmpeg_sidecar::event::FfmpegEvent` apart:
/// `Progress` with its frame, rate and time, `Log` with its line, and any
/// other. The rate's bits come from `f32::to_bits`.
#[verifier::external_body]
pub(crate) fn encoder_event(event: FfmpegEvent) -> (r: EncoderEvent)
    ensures
        r == event_said(event),
{
    match event {
        FfmpegEvent::Progress(p) => EncoderEvent::Progress {
            frame: p.frame,
            fps_bits: p.fps.to_bits(),
            time: p.time,
        },
        FfmpegEvent::Log(_, line) => EncoderEvent::Log(line),
        _ => EncoderEvent::Other,
    }
}

/// Decides on one event that the encoder's reader hands over: the step on
/// what the event says. Such an event never ends a session, and outside a
/// running session it asks for nothing.
pub fn step_on_encoder(state: SessionState, session: &EncodeSession, event: FfmpegEvent) -> (r:
    (SessionState, Action))
    ensures
        r.0 == state,
        is_action_of(r.1, state, *session, SupervisorEvent::Encoder(event_said(event))),
        state != SessionState::Running ==> r.1 is Continue,
        r.1 is Continue || r.1 is Emit || r.1 is Record,
{
    step(state, session, SupervisorEvent::Encoder(encoder_event(event)))
}

} // verus!
