//! Tunable constants of the playback pipeline.
//!
//! All presentation times in this crate are integer microseconds; the
//! shell that owns the wall clock and the device converts to and from
//! seconds at the boundary.

use vstd::prelude::*;

verus! {

/// Microseconds in one second: the fixed time scale of the crate.
pub const MICROS_PER_SECOND: i64 = 1_000_000;

/// Every presentation time, duration and delay handled by the pipeline is
/// kept inside this bound (about 31 years in microseconds), so that sums
/// of a few of them never overflow an `i64`.
pub const TIME_BOUND_US: i64 = 1_000_000_000_000_000;

/// Byte budget of one packet queue (16 MiB).
pub const PACKET_QUEUE_MAX_BYTES: usize = 16 * 1024 * 1024;

/// Stream index of a packet queue not yet bound to an elementary stream.
pub const UNKNOWN_STREAM_IDX: i32 = -1;

/// Bound of the decoded-audio frame channel.
pub const AUDIO_FRAME_QUEUE_SIZE: usize = 5;

/// Bound of the decoded-video frame channel; kept very small so that at
/// most one frame waits behind the one being shown.
pub const VIDEO_FRAME_QUEUE_SIZE: usize = 1;

/// Shortest sleep of the play loops (50 ms) between empty dequeues.
pub const PLAY_MIN_INTERVAL_US: i64 = 50_000;

/// Sleep of the demux loop (20 ms) while paused or while a packet queue
/// is full, and of the decode loop while its packet queue is starved.
pub const QUEUE_POLL_INTERVAL_US: i64 = 20_000;

/// Sleep of the decode loop (50 ms) while playback is paused.
pub const PAUSE_POLL_INTERVAL_US: i64 = 50_000;

/// After this many consecutive empty dequeues a play loop declares its
/// stage finished.
pub const EMPTY_POLL_LIMIT: u32 = 10;

/// Video may lag audio by up to 0.1 s before the delay is shortened.
pub const VIDEO_SYNC_THRESHOLD_MIN_US: i64 = -100_000;

/// Video may lead audio by up to 0.025 s before the delay is lengthened.
pub const VIDEO_SYNC_THRESHOLD_MAX_US: i64 = 25_000;

/// Volume is carried as an integer in per-mille of full scale.
pub const VOLUME_MAX: u16 = 1000;

} // verus!
