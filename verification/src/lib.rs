//! Verified engine for driving an external media encoder that turns a video
//! into a palette-based animated GIF.
//!
//! The executable work (spawning the encoder, reading its diagnostic stream,
//! touching the filesystem) lives in an unverified driver; this crate holds
//! everything that can be stated and proved: the options model, the filter
//! graph builder, the diagnostic-output parsers, the progress arithmetic and
//! the conversion state machine that supervises one encoder run.

pub mod error;
pub mod ffmpeg;
pub mod filter;
pub mod locate;
pub mod options;
pub mod progress;
pub mod supervise;
pub mod text;
pub mod timecode;
