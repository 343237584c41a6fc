//! Core of a local media-file playback engine.
//!
//! The pipeline demultiplexes a container into per-stream packet queues,
//! decodes packets into frames, synchronizes video to the audio master
//! clock, and presents frames in real time.  This crate holds the verified
//! heart of that pipeline: the byte-accounted packet queue, the bounded
//! frame queue, the extrapolating presentation clock, the audio/video
//! synchronization delay, and the control-state machine (abort, pause,
//! per-stage completion) that every pipeline thread consults.  Device
//! output, container I/O and thread plumbing live outside, and feed their
//! observations into the decision functions defined here.

pub mod clock;
pub mod control;
pub mod decode;
pub mod defines;
pub mod demux;
pub mod error;
pub mod frame;
pub mod packet;
pub mod playback;
pub mod queue;
pub mod setting_ui;
pub mod ui_state;
pub mod utils;
