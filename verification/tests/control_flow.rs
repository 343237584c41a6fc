use playcore::control::{Command, PlayControl, StreamType};
use playcore::decode::{decode_wait, feed_packet, on_receive, CodecPoll, FeedStep, ReceiveStep, WaitStep};
use playcore::demux::{check_streams, demux_poll, handle_command, route_packet, DemuxStep};
use playcore::error::PlayerError;
use playcore::packet::Packet;
use playcore::playback::{play_poll, video_send_result, PlayPoll, SendOutcome};

#[test]
fn new_session_flags() {
    let c = PlayControl::new(true, true, 0);
    assert!(!c.abort_request());
    assert!(!c.pause());
    assert!(!c.demux_finished());
    assert!(!c.audio_finished());
    assert!(!c.video_finished());
    assert_eq!(c.volume(), 1000);
}

#[test]
fn absent_stage_starts_finished() {
    let c = PlayControl::new(false, true, 0);
    assert!(c.audio_finished());
    assert!(!c.video_finished());
    let c = PlayControl::new(true, false, 0);
    assert!(!c.audio_finished());
    assert!(c.video_finished());
}

#[test]
fn terminate_command_sets_abort_and_exits() {
    let mut c = PlayControl::new(true, true, 0);
    let exit = handle_command(&mut c, &Command::Terminate);
    assert!(exit);
    assert!(c.abort_request());
}

#[test]
fn pause_mute_volume_commands_record_state() {
    let mut c = PlayControl::new(true, true, 0);
    assert!(!handle_command(&mut c, &Command::Pause(true)));
    assert!(c.pause());
    assert!(!handle_command(&mut c, &Command::Mute(true)));
    assert!(c.mute);
    assert!(!handle_command(&mut c, &Command::Volume(250)));
    assert_eq!(c.volume(), 250);
    assert!(!handle_command(&mut c, &Command::Pause(false)));
    assert!(!c.pause());
}

#[test]
fn abort_is_idempotent_across_repeats() {
    let mut c = PlayControl::new(true, true, 0);
    c.set_abort_request(true);
    let once = c;
    c.set_abort_request(true);
    assert_eq!(c.abort_request(), once.abort_request());
    assert_eq!(c.pause(), once.pause());
    assert_eq!(c.demux_finished(), once.demux_finished());
    // a Terminate that arrives after self-termination is equally harmless
    let exit = handle_command(&mut c, &Command::Terminate);
    assert!(exit);
    assert!(c.abort_request());
}

#[test]
fn demux_throttles_while_paused_or_full() {
    let mut c = PlayControl::new(true, true, 0);
    c.set_pause(true);
    assert_eq!(demux_poll(&c, false, false, true, true), DemuxStep::Throttle);
    c.set_pause(false);
    assert_eq!(demux_poll(&c, true, false, true, true), DemuxStep::Throttle);
    assert_eq!(demux_poll(&c, false, true, true, true), DemuxStep::Throttle);
}

#[test]
fn demux_reads_until_everything_finished() {
    let mut c = PlayControl::new(true, true, 0);
    assert_eq!(demux_poll(&c, false, false, true, true), DemuxStep::Read);
    c.set_demux_finished(true);
    assert_eq!(demux_poll(&c, false, false, true, true), DemuxStep::Read);
    c.set_audio_finished(true);
    c.set_video_finished(true);
    assert_eq!(demux_poll(&c, false, false, false, true), DemuxStep::Read);
    assert_eq!(demux_poll(&c, false, false, true, true), DemuxStep::Finish);
}

#[test]
fn packet_routing_prefers_video_then_audio() {
    assert_eq!(route_packet(4, 4, 2), Some(StreamType::Video));
    assert_eq!(route_packet(2, 4, 2), Some(StreamType::Audio));
    assert_eq!(route_packet(9, 4, 2), None);
    // a shared index routes as video: video is checked first
    assert_eq!(route_packet(1, 1, 1), Some(StreamType::Video));
}

#[test]
fn probing_needs_at_least_one_stream() {
    assert!(check_streams(true, false).is_ok());
    assert!(check_streams(false, true).is_ok());
    assert!(check_streams(true, true).is_ok());
    assert_eq!(check_streams(false, false), Err(PlayerError::Unknown));
}

#[test]
fn play_poll_order_of_checks() {
    let mut c = PlayControl::new(true, true, 0);
    c.set_abort_request(true);
    assert_eq!(play_poll(&c, true, 0).0, PlayPoll::Exit);
    c.set_abort_request(false);
    c.set_pause(true);
    assert_eq!(play_poll(&c, true, 3), (PlayPoll::WaitForResume, 3));
    c.set_pause(false);
    assert_eq!(play_poll(&c, true, 3), (PlayPoll::Play, 0));
    assert_eq!(play_poll(&c, false, 3), (PlayPoll::Sleep, 4));
}

#[test]
fn play_poll_declares_finished_after_ten_empty_polls() {
    let c = PlayControl::new(true, true, 0);
    let mut count = 0u32;
    let mut steps = 0;
    loop {
        let (step, next) = play_poll(&c, false, count);
        steps += 1;
        match step {
            PlayPoll::Sleep => count = next,
            PlayPoll::Finished => break,
            _ => panic!("unexpected step"),
        }
    }
    assert_eq!(steps, 10);
}

#[test]
fn decode_wait_is_cancellable() {
    assert_eq!(decode_wait(true, true, true), WaitStep::Stop);
    assert_eq!(decode_wait(false, false, true), WaitStep::Proceed);
    assert_eq!(decode_wait(false, true, false), WaitStep::Proceed);
    assert_eq!(decode_wait(false, true, true), WaitStep::Sleep);
}

#[test]
fn receive_outcomes_map_to_retry_policy() {
    assert_eq!(on_receive(&CodecPoll::Frame), ReceiveStep::Deliver);
    assert_eq!(on_receive(&CodecPoll::NeedsInput), ReceiveStep::FetchPacket);
    assert_eq!(on_receive(&CodecPoll::Flushed), ReceiveStep::EndOfStream);
    assert_eq!(on_receive(&CodecPoll::Failed), ReceiveStep::Fail);
}

#[test]
fn feeding_distinguishes_flush_marker() {
    assert_eq!(feed_packet(&None), FeedStep::Starved);
    assert_eq!(feed_packet(&Some(Packet::new(0, Vec::new()))), FeedStep::Flush);
    assert_eq!(feed_packet(&Some(Packet::new(0, vec![1, 2]))), FeedStep::Send);
}

#[test]
fn only_disconnection_fails_a_video_send() {
    assert!(video_send_result(&SendOutcome::Sent).is_ok());
    assert!(video_send_result(&SendOutcome::Full).is_ok());
    match video_send_result(&SendOutcome::Disconnected) {
        Err(PlayerError::Error(m)) => assert_eq!(m, "play channel disconnected"),
        _ => panic!("expected a disconnection error"),
    }
}
