//! Recording a stream with FFmpeg.

pub mod ffmpeg;
pub mod launch;
pub mod registry;

pub use registry::{Recorder, RecordingExit};
