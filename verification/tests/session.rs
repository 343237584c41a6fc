use playcore::control::{Command, PlayControl};
use playcore::demux::{demux_poll, handle_command, DemuxStep};
use playcore::packet::{Packet, PacketQueue};
use playcore::playback::{play_poll, PlayPoll};

/// A container with only a video stream runs to `Terminated` without
/// ever waiting on the absent audio stage.
#[test]
fn video_only_session_terminates() {
    let mut ctrl = PlayControl::new(false, true, 0);
    let mut video_q = PacketQueue::new(0, 1 << 20);
    let audio_q = PacketQueue::new(-1, 1 << 20);

    // the demuxer reads while there is anything to read
    assert_eq!(
        demux_poll(&ctrl, audio_q.is_full(), video_q.is_full(), audio_q.is_empty(), video_q.is_empty()),
        DemuxStep::Read
    );
    video_q.push(Packet::new(0, vec![1, 2, 3]));
    // container exhausted
    ctrl.set_demux_finished(true);
    // still packets queued: keep looping, not finished yet
    assert_eq!(
        demux_poll(&ctrl, audio_q.is_full(), video_q.is_full(), audio_q.is_empty(), video_q.is_empty()),
        DemuxStep::Read
    );
    // the video stage decodes and plays the last frame, then drains out
    let popped = video_q.pop().unwrap();
    assert_eq!(popped.size(), 3);
    let mut count = 0u32;
    loop {
        let (step, next) = play_poll(&ctrl, false, count);
        match step {
            PlayPoll::Sleep => count = next,
            PlayPoll::Finished => {
                ctrl.set_video_finished(true);
                break;
            }
            _ => panic!("unexpected step"),
        }
    }
    // every present stage finished, every queue empty: Finish
    assert_eq!(
        demux_poll(&ctrl, audio_q.is_full(), video_q.is_full(), audio_q.is_empty(), video_q.is_empty()),
        DemuxStep::Finish
    );
    ctrl.set_abort_request(true);
    // after abort both play loops exit at once; the shell sends Terminated
    assert_eq!(play_poll(&ctrl, true, 0).0, PlayPoll::Exit);
}

/// While paused, nothing moves: the demuxer reads no packet and the
/// play loops emit no frame and never touch the clocks.
#[test]
fn pause_stops_every_stage_until_resume() {
    let mut ctrl = PlayControl::new(true, true, 0);
    assert!(!handle_command(&mut ctrl, &Command::Pause(true)));
    let clocks_before = (ctrl.audio_clock.pts, ctrl.video_clock.pts);
    for _ in 0..5 {
        assert_eq!(demux_poll(&ctrl, false, false, false, false), DemuxStep::Throttle);
        assert_eq!(play_poll(&ctrl, true, 0).0, PlayPoll::WaitForResume);
        assert_eq!(play_poll(&ctrl, false, 3), (PlayPoll::WaitForResume, 3));
    }
    assert_eq!((ctrl.audio_clock.pts, ctrl.video_clock.pts), clocks_before);
    assert!(!handle_command(&mut ctrl, &Command::Pause(false)));
    assert_eq!(play_poll(&ctrl, true, 0).0, PlayPoll::Play);
    assert_eq!(demux_poll(&ctrl, false, false, false, false), DemuxStep::Read);
}

/// Terminate twice — or terminate after the session already ended on
/// its own — and the state is the same as after one Terminate.
#[test]
fn terminate_is_idempotent_end_to_end() {
    let mut ctrl = PlayControl::new(true, true, 0);
    ctrl.set_demux_finished(true);
    ctrl.set_audio_finished(true);
    ctrl.set_video_finished(true);
    // self-termination at end of stream
    assert_eq!(demux_poll(&ctrl, false, false, true, true), DemuxStep::Finish);
    ctrl.set_abort_request(true);
    let after_self = ctrl;
    // a late Terminate changes nothing and panics nowhere
    assert!(handle_command(&mut ctrl, &Command::Terminate));
    assert!(handle_command(&mut ctrl, &Command::Terminate));
    assert_eq!(ctrl.abort_request(), after_self.abort_request());
    assert_eq!(ctrl.pause(), after_self.pause());
    assert_eq!(ctrl.volume(), after_self.volume());
    assert_eq!(play_poll(&ctrl, true, 0).0, PlayPoll::Exit);
}
