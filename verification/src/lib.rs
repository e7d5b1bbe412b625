//! The decisions of an audio pipeline service.
//!
//! The service takes a video URL or an uploaded MP3 file, gets the audio into a
//! temporary file, sends it to a Kafka topic, removes the temporary file and
//! answers the client. This crate holds every decision of that work and none of
//! its input and output: each job is a sequence of steps, a step says what has to
//! be done outside, and the answer to it leads to the next step.

pub mod config;
pub mod download;
pub mod error;
pub mod process;
pub mod response;
pub mod send;
pub mod text;
pub mod upload;
pub mod yt_dlp;
