//! Error taxonomy of the playback pipeline.
//!
//! Setup errors (no stream, no device) are fatal to the whole session and
//! surface before any pipeline stage starts; everything else is recovered
//! per stage, so none of the verified functions panics.

use vstd::prelude::*;

verus! {

#[derive(Clone, Debug, PartialEq, Eq)]
pub enum PlayerError {
    /// A stage failed with a free-form description.
    Error(String),
    /// A failure nothing else describes.
    Unknown,
    /// A path could not be turned into a C string.
    NulError,
    /// A packet queue refused a packet for want of byte budget.
    PacketQueueFull,
    /// A packet queue was drained while a packet was expected.
    PacketQueueEmpty,
    /// No audio output device is available.
    NoAudioDevice,
    /// The audio device refused to report a default stream configuration.
    DefaultAudioStreamConfigError(String),
    /// An output stream could not be created on the audio device.
    CreateAudioStreamError(String),
}

} // verus!
