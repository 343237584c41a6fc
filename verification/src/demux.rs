//! Decisions of the demux / source-reader loop.
//!
//! The shell thread that owns the container reader runs a loop around
//! these functions: it drains pending commands through `handle_command`,
//! asks `demux_poll` whether to throttle, finish or read, and routes a
//! packet it read to the right stream's queue with `route_packet`.  The
//! reads, sleeps and channel operations themselves stay with the shell;
//! every decision between them is made — and verified — here.

use vstd::prelude::*;

use crate::control::Command;
use crate::control::PlayControl;
use crate::control::StreamType;
use crate::defines::VOLUME_MAX;
use crate::error::PlayerError;

verus! {

/// What the demux loop does next, once pending commands are drained.
#[derive(Clone, Copy, Debug, PartialEq, Eq)]
pub enum DemuxStep {
    /// Paused, or a packet queue is full: sleep briefly and re-loop.
    Throttle,
    /// Every stage is finished and every queue drained: raise abort and
    /// exit — the canonical normal-termination path.
    Finish,
    /// Read one packet from the container.
    Read,
}

/// The demux loop's decision for one iteration, given the control state
/// and the fullness / emptiness of the two packet queues.
pub open spec fn spec_demux_step(
    c: PlayControl,
    audio_full: bool,
    video_full: bool,
    audio_empty: bool,
    video_empty: bool,
) -> DemuxStep {
    if c.pause || audio_full || video_full {
        DemuxStep::Throttle
    } else if c.demux_finished && c.audio_finished && c.video_finished && video_empty
        && audio_empty {
        DemuxStep::Finish
    } else {
        DemuxStep::Read
    }
}

pub fn demux_poll(
    ctrl: &PlayControl,
    audio_full: bool,
    video_full: bool,
    audio_empty: bool,
    video_empty: bool,
) -> (r: DemuxStep)
    ensures
        r == spec_demux_step(*ctrl, audio_full, video_full, audio_empty, video_empty),
{
    if ctrl.pause() || audio_full || video_full {
        DemuxStep::Throttle
    } else if ctrl.demux_finished() && ctrl.audio_finished() && ctrl.video_finished()
        && video_empty && audio_empty {
        DemuxStep::Finish
    } else {
        DemuxStep::Read
    }
}

/// Applies one pending command to the control state.  Returns whether
/// the demux loop must exit (only `Terminate` asks for that).  The shell
/// mirrors the recorded pause / mute / volume state into the device and
/// the notification channel after the call, and performs the device stop
/// that accompanies an abort.
pub fn handle_command(ctrl: &mut PlayControl, cmd: &Command) -> (exit: bool)
    requires
        cmd matches Command::Volume(v) ==> v <= VOLUME_MAX,
    ensures
        match *cmd {
            Command::Terminate => {
                &&& *final(ctrl) == old(ctrl).with_abort(true)
                &&& exit
            },
            Command::Pause(p) => {
                &&& *final(ctrl) == (PlayControl { pause: p, ..*old(ctrl) })
                &&& !exit
            },
            Command::Mute(m) => {
                &&& *final(ctrl) == (PlayControl { mute: m, ..*old(ctrl) })
                &&& !exit
            },
            Command::Volume(v) => {
                &&& *final(ctrl) == (PlayControl { volume: v, ..*old(ctrl) })
                &&& !exit
            },
        },
{
    match cmd {
        Command::Terminate => {
            ctrl.set_abort_request(true);
            true
        },
        Command::Pause(p) => {
            ctrl.set_pause(*p);
            false
        },
        Command::Mute(m) => {
            ctrl.set_mute(*m);
            false
        },
        Command::Volume(v) => {
            ctrl.set_volume(*v);
            false
        },
    }
}

/// Routes a packet by its stream index: the video stream is checked
/// first, then the audio stream; a packet of any other stream is
/// dropped.
pub fn route_packet(stream_index: i32, video_stream_idx: i32, audio_stream_idx: i32) -> (r: Option<
    StreamType,
>)
    ensures
        r == Some(StreamType::Video) <==> stream_index == video_stream_idx,
        r == Some(StreamType::Audio) <==> (stream_index != video_stream_idx && stream_index
            == audio_stream_idx),
        r is None <==> (stream_index != video_stream_idx && stream_index != audio_stream_idx),
{
    if stream_index == video_stream_idx {
        Some(StreamType::Video)
    } else if stream_index == audio_stream_idx {
        Some(StreamType::Audio)
    } else {
        None
    }
}

/// Fail-fast probe check: a session needs at least one usable stream.
pub fn check_streams(has_video: bool, has_audio: bool) -> (r: Result<(), PlayerError>)
    ensures
        r.is_ok() <==> (has_video || has_audio),
        !(has_video || has_audio) ==> r == Err::<(), PlayerError>(PlayerError::Unknown),
{
    if has_video || has_audio {
        Ok(())
    } else {
        Err(PlayerError::Unknown)
    }
}

/// While playback is paused the demuxer reads nothing: its loop only
/// throttles, so no packet moves while the pipeline stands still.
pub proof fn lemma_paused_demux_only_throttles(
    c: PlayControl,
    audio_full: bool,
    video_full: bool,
    audio_empty: bool,
    video_empty: bool,
)
    requires
        c.pause,
    ensures
        spec_demux_step(c, audio_full, video_full, audio_empty, video_empty) is Throttle,
{
}

/// A session with only a video stream terminates on its own: once the
/// container is read out, the video stage has finished and both queues
/// are drained, the demux loop decides `Finish` (raising abort).  The
/// completion flag of the absent audio stage was set at construction and
/// stays set, so completion never waits on it.
pub proof fn lemma_video_only_session_finishes(c: PlayControl)
    requires
        c.wf(),
        !c.has_audio,
        !c.pause,
        c.demux_finished,
        c.video_finished,
    ensures
        spec_demux_step(c, false, false, true, true) is Finish,
{
}

} // verus!
