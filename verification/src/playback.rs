//! Decisions of the audio and video play loops.
//!
//! Both play threads run the same loop shape: observe abort, wait while
//! paused, try to take a frame from the bounded frame channel, play it,
//! and after enough consecutive empty takes declare the stage finished.
//! The channel operations, the device hand-off, the condition-variable
//! wait and the sleeps stay with the shell; the branching is decided and
//! verified here.

use vstd::prelude::*;
use vstd::string::StringExecFns;

use crate::control::PlayControl;
use crate::defines::EMPTY_POLL_LIMIT;
use crate::error::PlayerError;

verus! {

/// What a play loop does in one iteration.
#[derive(Clone, Copy, Debug, PartialEq, Eq)]
pub enum PlayPoll {
    /// Abort was requested: stop immediately.
    Exit,
    /// Paused: block on the pause condition until notified.
    WaitForResume,
    /// A frame is available: hand it to the output and reset the
    /// empty-dequeue count.
    Play,
    /// The empty-dequeue count reached its limit: mark this stage
    /// finished and stop.
    Finished,
    /// Nothing to play yet: sleep one short interval and try again.
    Sleep,
}

/// The play loop's decision, as a function of the control state, frame
/// availability and the consecutive-empty-dequeue count so far.
pub open spec fn spec_play_poll(c: PlayControl, frame_available: bool, empty_count: u32) -> (
    PlayPoll,
    u32,
) {
    if c.abort_request {
        (PlayPoll::Exit, empty_count)
    } else if c.pause {
        (PlayPoll::WaitForResume, empty_count)
    } else if frame_available {
        (PlayPoll::Play, 0u32)
    } else if empty_count + 1 == EMPTY_POLL_LIMIT {
        (PlayPoll::Finished, (empty_count + 1) as u32)
    } else {
        (PlayPoll::Sleep, (empty_count + 1) as u32)
    }
}

/// One decision of a play loop.  `empty_count` counts consecutive empty
/// dequeues; it stays below `EMPTY_POLL_LIMIT` while the loop runs and
/// reaches it exactly when the stage declares itself finished.
pub fn play_poll(ctrl: &PlayControl, frame_available: bool, empty_count: u32) -> (r: (
    PlayPoll,
    u32,
))
    requires
        empty_count < EMPTY_POLL_LIMIT,
    ensures
        r == spec_play_poll(*ctrl, frame_available, empty_count),
        r.1 <= EMPTY_POLL_LIMIT,
{
    if ctrl.abort_request() {
        (PlayPoll::Exit, empty_count)
    } else if ctrl.pause() {
        (PlayPoll::WaitForResume, empty_count)
    } else if frame_available {
        (PlayPoll::Play, 0)
    } else {
        let next: u32 = empty_count + 1;
        if next == EMPTY_POLL_LIMIT {
            (PlayPoll::Finished, next)
        } else {
            (PlayPoll::Sleep, next)
        }
    }
}

/// While playback is paused (and not aborted) a play loop only waits:
/// it pops no frame, emits no `Video(_)` notification and updates no
/// clock, until a resume notification wakes it.
pub proof fn lemma_paused_play_only_waits(c: PlayControl, frame_available: bool, empty_count: u32)
    requires
        c.pause,
        !c.abort_request,
    ensures
        spec_play_poll(c, frame_available, empty_count).0 is WaitForResume,
        spec_play_poll(c, frame_available, empty_count).1 == empty_count,
{
}

/// What the outward state channel reported for a non-blocking send.
#[derive(Clone, Copy, Debug, PartialEq, Eq)]
pub enum SendOutcome {
    /// The notification was delivered.
    Sent,
    /// The channel was momentarily full; the notification is dropped.
    Full,
    /// The consumer is gone.
    Disconnected,
}

/// A full outward channel is not an error — the notification is simply
/// dropped — but a disconnected consumer ends the video play loop.
pub fn video_send_result(outcome: &SendOutcome) -> (r: Result<(), PlayerError>)
    ensures
        r.is_ok() <==> !(*outcome is Disconnected),
        *outcome is Disconnected ==> (r matches Err(e) && e matches PlayerError::Error(m) && m@
            == "play channel disconnected"@),
{
    match outcome {
        SendOutcome::Sent => Ok(()),
        SendOutcome::Full => Ok(()),
        SendOutcome::Disconnected => Err(
            PlayerError::Error(String::from_str("play channel disconnected")),
        ),
    }
}

} // verus!
