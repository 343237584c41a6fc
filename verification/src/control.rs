//! The shared coordination hub of one playback session.
//!
//! `PlayControl` gathers the abort flag, the pause flag, the per-stage
//! completion flags, volume and mute, and the two presentation clocks.
//! Every pipeline stage decides against this state; the shell owns the
//! locks, channels and the audio device that surround it, and mirrors
//! each state change into them.
//!
//! Audio is the master clock: `update_audio_clock` returns the frame's
//! own duration as the delay, while `update_video_clock` slaves video to
//! audio through the dead-band delay computation in `spec_video_delay`.

use vstd::prelude::*;

use crate::clock::Clock;
use crate::defines::TIME_BOUND_US;
use crate::defines::VIDEO_SYNC_THRESHOLD_MAX_US;
use crate::defines::VIDEO_SYNC_THRESHOLD_MIN_US;
use crate::defines::VOLUME_MAX;
use crate::error::PlayerError;
use crate::frame::VideoFrame;

verus! {

/// A control message sent from the controlling side into the pipeline.
#[derive(Clone, Debug)]
pub enum Command {
    /// Stop the whole session.
    Terminate,
    /// Pause or resume playback.
    Pause(bool),
    /// Mute or unmute the audio device.
    Mute(bool),
    /// Set the volume, in per-mille of full scale.
    Volume(u16),
}

/// A state notification sent from the pipeline outward.
#[derive(Clone, Debug)]
pub enum PlayState {
    Start,
    Playing,
    Terminated,
    Pausing(bool),
    Video(VideoFrame),
    Error(PlayerError),
}

impl Default for PlayState {
    fn default() -> (r: Self)
        ensures
            r is Start,
    {
        PlayState::Start
    }
}

/// Notification equality is by discriminant alone: in particular every
/// `Video(_)` equals every other `Video(_)`, so consecutive video-frame
/// notifications coalesce and only the latest raster matters.
pub open spec fn same_discriminant(a: &PlayState, b: &PlayState) -> bool {
    match (a, b) {
        (PlayState::Start, PlayState::Start) => true,
        (PlayState::Playing, PlayState::Playing) => true,
        (PlayState::Terminated, PlayState::Terminated) => true,
        (PlayState::Pausing(_), PlayState::Pausing(_)) => true,
        (PlayState::Video(_), PlayState::Video(_)) => true,
        (PlayState::Error(_), PlayState::Error(_)) => true,
        _ => false,
    }
}

impl PartialEq for PlayState {
    fn eq(&self, other: &Self) -> (r: bool) {
        match (self, other) {
            (PlayState::Start, PlayState::Start) => true,
            (PlayState::Playing, PlayState::Playing) => true,
            (PlayState::Terminated, PlayState::Terminated) => true,
            (PlayState::Pausing(_), PlayState::Pausing(_)) => true,
            (PlayState::Video(_), PlayState::Video(_)) => true,
            (PlayState::Error(_), PlayState::Error(_)) => true,
            _ => false,
        }
    }
}

impl vstd::std_specs::cmp::PartialEqSpecImpl for PlayState {
    open spec fn obeys_eq_spec() -> bool {
        true
    }

    open spec fn eq_spec(&self, other: &Self) -> bool {
        same_discriminant(self, other)
    }
}

/// The two kinds of elementary stream the pipeline serves.
#[derive(Clone, Copy, Debug, PartialEq, Eq)]
pub enum StreamType {
    Video,
    Audio,
}

/// Shared control state of one playback session.  One instance exists
/// per session and dies with it; a new file gets a fresh instance.
#[derive(Clone, Copy, Debug)]
pub struct PlayControl {
    /// The single termination signal every loop observes.
    pub abort_request: bool,
    /// Playback is paused.
    pub pause: bool,
    /// The demuxer has read the whole container.
    pub demux_finished: bool,
    /// The audio play stage has stopped (or the session has no audio).
    pub audio_finished: bool,
    /// The video play stage has stopped (or the session has no video).
    pub video_finished: bool,
    /// The audio device is muted.
    pub mute: bool,
    /// Volume in per-mille of full scale.
    pub volume: u16,
    /// The session has an audio stream.
    pub has_audio: bool,
    /// The session has a video stream.
    pub has_video: bool,
    /// Master clock, advanced only by the audio play stage.
    pub audio_clock: Clock,
    /// Slave clock, advanced only by the video play stage.
    pub video_clock: Clock,
}

/// The delay the video play stage sleeps after emitting a frame whose
/// display time is `duration`, when the video clock leads the audio
/// clock by `diff` (negative: video lags).  The asymmetric dead band
/// absorbs scheduling jitter; the clamp at zero keeps a lagging stream
/// from feeding back a negative sleep.
pub open spec fn spec_video_delay(duration: int, diff: int) -> int {
    if diff <= VIDEO_SYNC_THRESHOLD_MIN_US {
        if duration + diff >= 0 {
            duration + diff
        } else {
            0
        }
    } else if diff >= VIDEO_SYNC_THRESHOLD_MAX_US {
        duration + VIDEO_SYNC_THRESHOLD_MAX_US
    } else {
        duration
    }
}

impl PlayControl {
    /// Clocks sound, volume in range, and the completion flag of an
    /// absent stage already set, so that session completion never waits
    /// on a stage that does not exist.
    pub open spec fn wf(self) -> bool {
        &&& self.volume <= VOLUME_MAX
        &&& self.audio_clock.wf()
        &&& self.video_clock.wf()
        &&& (!self.has_audio ==> self.audio_finished)
        &&& (!self.has_video ==> self.video_finished)
    }

    /// `self` with the abort flag raised: the state `set_abort_request`
    /// leaves behind.
    pub open spec fn with_abort(self, abort: bool) -> Self {
        PlayControl { abort_request: abort, ..self }
    }

    pub fn new(has_audio: bool, has_video: bool, now: i64) -> (c: PlayControl)
        requires
            0 <= now <= TIME_BOUND_US,
        ensures
            c.wf(),
            c.abort_request == false,
            c.pause == false,
            c.demux_finished == false,
            c.audio_finished == !has_audio,
            c.video_finished == !has_video,
            c.mute == false,
            c.volume == VOLUME_MAX,
            c.has_audio == has_audio,
            c.has_video == has_video,
            c.audio_clock == (Clock { pts: 0, duration: 0, last_update: now }),
            c.video_clock == (Clock { pts: 0, duration: 0, last_update: now }),
    {
        PlayControl {
            abort_request: false,
            pause: false,
            demux_finished: false,
            audio_finished: !has_audio,
            video_finished: !has_video,
            mute: false,
            volume: VOLUME_MAX,
            has_audio,
            has_video,
            audio_clock: Clock::new(now),
            video_clock: Clock::new(now),
        }
    }

    /// Records the mute state; the shell mirrors it into the device.
    pub fn set_mute(&mut self, mute: bool)
        ensures
            *final(self) == (PlayControl { mute, ..*old(self) }),
    {
        self.mute = mute;
    }

    pub fn set_volume(&mut self, volume: u16)
        requires
            volume <= VOLUME_MAX,
        ensures
            *final(self) == (PlayControl { volume, ..*old(self) }),
    {
        self.volume = volume;
    }

    pub fn volume(&self) -> (r: u16)
        ensures
            r == self.volume,
    {
        self.volume
    }

    /// Raises (or clears) the single termination signal.  The shell
    /// stops the audio device alongside.
    pub fn set_abort_request(&mut self, abort_request: bool)
        ensures
            *final(self) == old(self).with_abort(abort_request),
    {
        self.abort_request = abort_request;
    }

    pub fn abort_request(&self) -> (r: bool)
        ensures
            r == self.abort_request,
    {
        self.abort_request
    }

    /// Records the pause state; the shell pauses the device, notifies
    /// waiting threads on resume, and sends `Pausing` outward.
    pub fn set_pause(&mut self, pause: bool)
        ensures
            *final(self) == (PlayControl { pause, ..*old(self) }),
    {
        self.pause = pause;
    }

    pub fn pause(&self) -> (r: bool)
        ensures
            r == self.pause,
    {
        self.pause
    }

    /// A stage may only be un-finished while its stream exists, so the
    /// completion flag of an absent stage stays set for the session's
    /// whole life.
    pub fn set_audio_finished(&mut self, finished: bool)
        requires
            old(self).has_audio || finished,
        ensures
            *final(self) == (PlayControl { audio_finished: finished, ..*old(self) }),
    {
        self.audio_finished = finished;
    }

    pub fn audio_finished(&self) -> (r: bool)
        ensures
            r == self.audio_finished,
    {
        self.audio_finished
    }

    pub fn set_video_finished(&mut self, finished: bool)
        requires
            old(self).has_video || finished,
        ensures
            *final(self) == (PlayControl { video_finished: finished, ..*old(self) }),
    {
        self.video_finished = finished;
    }

    pub fn video_finished(&self) -> (r: bool)
        ensures
            r == self.video_finished,
    {
        self.video_finished
    }

    pub fn set_demux_finished(&mut self, demux_finished: bool)
        ensures
            *final(self) == (PlayControl { demux_finished, ..*old(self) }),
    {
        self.demux_finished = demux_finished;
    }

    pub fn demux_finished(&self) -> (r: bool)
        ensures
            r == self.demux_finished,
    {
        self.demux_finished
    }

    /// Master-clock hand-off: records `(pts, duration)` on the audio
    /// clock and tells the audio stage to sleep for the frame's own
    /// duration — the master is never adjusted.
    pub fn update_audio_clock(&mut self, pts: i64, duration: i64, now: i64) -> (delay: i64)
        requires
            old(self).wf(),
            -TIME_BOUND_US <= pts <= TIME_BOUND_US,
            0 <= duration <= TIME_BOUND_US,
            0 <= now <= TIME_BOUND_US,
        ensures
            final(self).wf(),
            *final(self) == (PlayControl {
                audio_clock: Clock { pts, duration, last_update: now },
                ..*old(self)
            }),
            delay == duration,
    {
        self.audio_clock.update(pts, duration, now);
        duration
    }

    /// Slave-clock hand-off: records `(pts, duration)` on the video
    /// clock, then computes the sync-adjusted delay against the audio
    /// clock as both stand at `now`.
    pub fn update_video_clock(&mut self, pts: i64, duration: i64, now: i64) -> (delay: i64)
        requires
            old(self).wf(),
            -TIME_BOUND_US <= pts <= TIME_BOUND_US,
            0 <= duration <= TIME_BOUND_US,
            0 <= now <= TIME_BOUND_US,
            old(self).audio_clock.last_update <= now,
        ensures
            final(self).wf(),
            *final(self) == (PlayControl {
                video_clock: Clock { pts, duration, last_update: now },
                ..*old(self)
            }),
            delay == spec_video_delay(
                duration as int,
                final(self).video_clock.spec_current(now as int)
                    - final(self).audio_clock.spec_current(now as int),
            ),
    {
        self.video_clock.update(pts, duration, now);
        self.compute_video_delay(now)
    }

    /// The dead-band synchronization computation, reading both clocks
    /// at wall-clock instant `now`.
    pub fn compute_video_delay(&self, now: i64) -> (delay: i64)
        requires
            self.wf(),
            self.audio_clock.last_update <= now <= TIME_BOUND_US,
            self.video_clock.last_update <= now,
        ensures
            delay == spec_video_delay(
                self.video_clock.duration as int,
                self.video_clock.spec_current(now as int) - self.audio_clock.spec_current(
                    now as int,
                ),
            ),
    {
        let audio_clock: i64 = self.audio_clock.current(now);
        let video_clock: i64 = self.video_clock.current(now);
        let duration: i64 = self.video_clock.duration();
        let diff: i64 = video_clock - audio_clock;
        if diff <= VIDEO_SYNC_THRESHOLD_MIN_US {
            if duration + diff >= 0 {
                duration + diff
            } else {
                0
            }
        } else if diff >= VIDEO_SYNC_THRESHOLD_MAX_US {
            duration + VIDEO_SYNC_THRESHOLD_MAX_US
        } else {
            duration
        }
    }

    /// The master clock's extrapolated reading at instant `now`.
    pub fn current_audio_clock(&self, now: i64) -> (r: i64)
        requires
            self.wf(),
            self.audio_clock.last_update <= now <= TIME_BOUND_US,
        ensures
            r == self.audio_clock.spec_current(now as int),
    {
        self.audio_clock.current(now)
    }
}

/// Abort is idempotent: raising the abort flag on a state where it is
/// already raised changes nothing, so a second `Terminate` — or one that
/// arrives after the pipeline already terminated itself — is harmless.
pub proof fn lemma_abort_idempotent(c: PlayControl)
    ensures
        c.with_abort(true).with_abort(true) == c.with_abort(true),
{
}

/// The sync delay never asks for a negative sleep, and inside the dead
/// band the frame's own duration passes through unadjusted.
pub proof fn lemma_video_delay_basics(duration: int, diff: int)
    requires
        0 <= duration,
    ensures
        spec_video_delay(duration, diff) >= 0,
        VIDEO_SYNC_THRESHOLD_MIN_US < diff < VIDEO_SYNC_THRESHOLD_MAX_US ==> spec_video_delay(
            duration,
            diff,
        ) == duration,
{
}

} // verus!
