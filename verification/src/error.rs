//! What can end a session, and the text that tells the caller so.

use vstd::prelude::*;
use vstd::string::StringExecFns;

verus! {

/// Why a session produced no video. Where the cause lies outside, the
/// variant holds the outside text of it.
#[derive(Debug)]
pub enum EncodeError {
    /// The encoder could not be had.
    Download(String),
    /// No track of the timeline holds a clip.
    NoClips,
    /// The list of audio files is empty.
    NoAudioFiles,
    /// The first audio source lies in no directory.
    NoAudioDirectory,
    /// The encoder could not be launched.
    Spawn(String),
    /// The encoder's events could not be read.
    Stream(String),
    /// The encoder's end could not be awaited.
    Wait(String),
    /// The encoder of a timeline ended without success.
    EncodingFailed,
    /// The list of files to join could not be written.
    ConcatList(String),
    /// The encoder that joins files could not be launched.
    ConcatSpawn(String),
    /// The end of the encoder that joins files could not be awaited.
    ConcatWait(String),
    /// The encoder that joins files ended without success.
    ConcatFailed,
    /// The encoder of a list of files, with music, ended without success.
    EncodingFailedWithMusic,
    /// The encoder of a list of files, without music, ended without success.
    EncodingFailedWithoutMusic,
}

/// The text of an error.
pub open spec fn message_text(error: EncodeError) -> Seq<char> {
    match error {
        EncodeError::Download(cause) => "Failed to download FFmpeg: "@ + cause@,
        EncodeError::NoClips => "No audio clips in timeline"@,
        EncodeError::NoAudioFiles => "No audio files provided"@,
        EncodeError::NoAudioDirectory => "Could not determine audio directory"@,
        EncodeError::Spawn(cause) => "Failed to spawn FFmpeg: "@ + cause@,
        EncodeError::Stream(cause) => "Failed to get FFmpeg iterator: "@ + cause@,
        EncodeError::Wait(cause) => "Failed to execute FFmpeg: "@ + cause@,
        EncodeError::EncodingFailed => "FFmpeg encoding failed"@,
        EncodeError::ConcatList(cause) => "Failed to create concat list: "@ + cause@,
        EncodeError::ConcatSpawn(cause) => "Failed to spawn FFmpeg concat: "@ + cause@,
        EncodeError::ConcatWait(cause) => "Failed to concatenate audio: "@ + cause@,
        EncodeError::ConcatFailed => "FFmpeg concatenation failed"@,
        EncodeError::EncodingFailedWithMusic => "FFmpeg encoding failed (with background music)"@,
        EncodeError::EncodingFailedWithoutMusic => "FFmpeg encoding failed (without background music)"@,
    }
}

/// A text followed by a cause.
fn with_cause(text: &str, cause: &String) -> (r: String)
    ensures
        r@ == text@ + cause@,
{
    let mut r = String::from_str(text);
    r.append(cause.as_str());
    r
}

impl EncodeError {
    /// The text that reaches the caller.
    pub fn message(&self) -> (r: String)
        ensures
            r@ == message_text(*self),
    {
        match self {
            EncodeError::Download(cause) => with_cause("Failed to download FFmpeg: ", cause),
            EncodeError::NoClips => String::from_str("No audio clips in timeline"),
            EncodeError::NoAudioFiles => String::from_str("No audio files provided"),
            EncodeError::NoAudioDirectory => String::from_str("Could not determine audio directory"),
            EncodeError::Spawn(cause) => with_cause("Failed to spawn FFmpeg: ", cause),
            EncodeError::Stream(cause) => with_cause("Failed to get FFmpeg iterator: ", cause),
            EncodeError::Wait(cause) => with_cause("Failed to execute FFmpeg: ", cause),
            EncodeError::EncodingFailed => String::from_str("FFmpeg encoding failed"),
            EncodeError::ConcatList(cause) => with_cause("Failed to create concat list: ", cause),
            EncodeError::ConcatSpawn(cause) => with_cause("Failed to spawn FFmpeg concat: ", cause),
            EncodeError::ConcatWait(cause) => with_cause("Failed to concatenate audio: ", cause),
            EncodeError::ConcatFailed => String::from_str("FFmpeg concatenation failed"),
            EncodeError::EncodingFailedWithMusic => String::from_str(
                "FFmpeg encoding failed (with background music)",
            ),
            EncodeError::EncodingFailedWithoutMusic => String::from_str(
                "FFmpeg encoding failed (without background music)",
            ),
        }
    }
}

} // verus!
