//! Job-execution and progress-tracking engine for an ffmpeg / yt-dlp front end.
//!
//! The library decides; the caller acts. Text produced by the external tools is
//! handed in as bytes, parsed here, and every decision of the job coordinator is a
//! pure step from state and event to next state and action.

pub mod scan;
pub mod progress;
pub mod probe;
pub mod job;
pub mod laws;
pub mod command;
pub mod popup;
pub mod deps_download;
