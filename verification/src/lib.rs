//! Still-image videos from audio timelines.
//!
//! A timeline of audio clips and one still image become a video by way of an
//! outside encoder. This library settles what the encoder is asked to do and
//! follows it while it runs: it reads the timeline into input slots, compiles
//! the audio filter graph, builds the command, and turns the encoder's
//! reports into progress and into a final result. Launching the encoder and
//! reading what it says are left to the caller.
//!
//! Seconds, gains and percentages are exact decimals with six fractional
//! digits throughout; see [`fixed`].

pub mod color;
pub mod command;
pub mod decimal;
pub mod error;
pub mod filter_graph;
pub mod fixed;
pub mod flat;
pub mod inputs;
pub mod menu;
pub mod paths;
pub mod progress;
pub mod session;
pub mod supervisor;
pub mod text;
pub mod time_codec;
pub mod timeline;
pub mod upload;
