use playcore::control::PlayState;
use playcore::error::PlayerError;
use playcore::frame::{
    audio_frame_timing, video_frame_duration, video_frame_pts, AudioFrame, PlayFrame, VideoFrame,
};
use playcore::queue::PlayQueue;

#[test]
fn raster_repack_strips_stride_padding() {
    // 2x2 frame, 8 pixel bytes per row, line size 10 (2 bytes padding)
    let mut raw = Vec::new();
    for row in 0..2u8 {
        for b in 0..8u8 {
            raw.push(10 * row + b);
        }
        raw.push(0xEE);
        raw.push(0xEE);
    }
    let f = VideoFrame::new(&raw, 2, 2, 10, 0, 40_000);
    assert_eq!(f.data.len(), 16);
    assert_eq!(&f.data[0..8], &[0, 1, 2, 3, 4, 5, 6, 7]);
    assert_eq!(&f.data[8..16], &[10, 11, 12, 13, 14, 15, 16, 17]);
    assert_eq!(f.width, 2);
    assert_eq!(f.height, 2);
}

#[test]
fn raster_repack_tight_stride_is_identity() {
    let raw: Vec<u8> = (0u8..24).collect();
    let f = VideoFrame::new(&raw, 2, 3, 8, 1_000, 2_000);
    assert_eq!(f.data, raw);
    assert_eq!(f.pts(), 1_000);
    assert_eq!(f.duration(), 2_000);
    assert_eq!(f.mem_size(), 24);
}

#[test]
fn raster_repack_empty_frame() {
    let raw: Vec<u8> = Vec::new();
    let f = VideoFrame::new(&raw, 0, 0, 0, 0, 0);
    assert_eq!(f.data.len(), 0);
}

#[test]
fn audio_timing_from_sample_counts() {
    // 1152 samples at 48 kHz: exactly 24 ms
    let (pts, duration) = audio_frame_timing(480_000, 1152, 48_000);
    assert_eq!(pts, 10_000_000);
    assert_eq!(duration, 24_000);
    // truncating division: 1 sample at 3 Hz
    let (_, d) = audio_frame_timing(0, 1, 3);
    assert_eq!(d, 333_333);
}

#[test]
fn video_timing_from_time_base_and_framerate() {
    // time base 1/90000, timestamp 900000 -> 10 s
    assert_eq!(video_frame_pts(900_000, 1, 90_000), 10_000_000);
    // 25 fps -> 40 ms per frame
    assert_eq!(video_frame_duration(25, 1), 40_000);
    // 30000/1001 fps (NTSC) -> 33366 µs, truncated
    assert_eq!(video_frame_duration(30_000, 1_001), 33_366);
}

#[test]
fn audio_frame_accounts_four_bytes_per_sample() {
    let f = AudioFrame::new(2304, 2, 48_000, 10_000_000, 24_000);
    assert_eq!(f.mem_size(), 9216);
    assert_eq!(f.pts(), 10_000_000);
    assert_eq!(f.duration(), 24_000);
    assert_eq!(f.channels, 2);
    assert_eq!(f.sample_rate, 48_000);
}

#[test]
fn state_equality_is_by_discriminant() {
    let a = PlayState::Video(VideoFrame::default());
    let raw: Vec<u8> = (0u8..16).collect();
    let b = PlayState::Video(VideoFrame::new(&raw, 2, 2, 8, 5, 5));
    // every Video(_) coalesces with every other Video(_)
    assert_eq!(a, b);
    assert_eq!(PlayState::Pausing(true), PlayState::Pausing(false));
    assert_eq!(
        PlayState::Error(PlayerError::Unknown),
        PlayState::Error(PlayerError::NoAudioDevice)
    );
    assert_ne!(PlayState::Start, PlayState::Playing);
    assert_ne!(a, PlayState::Terminated);
    assert!(matches!(PlayState::default(), PlayState::Start));
}

fn af(pts: i64, samples: usize) -> AudioFrame {
    AudioFrame::new(samples, 2, 48_000, pts, 10_000)
}

#[test]
fn play_queue_accounts_and_orders() {
    let mut q: PlayQueue<AudioFrame> = PlayQueue::new(100);
    assert!(q.has_available_space());
    q.push(af(1_000, 10));
    q.push(af(2_000, 15));
    assert_eq!(q.mem_size(), 100);
    assert!(!q.has_available_space());
    let first = q.pop().unwrap();
    assert_eq!(first.pts(), 1_000);
    assert_eq!(q.mem_size(), 60);
    assert!(q.has_available_space());
    let second = q.fetch_frame().unwrap();
    assert_eq!(second.pts(), 2_000);
    assert!(q.is_empty());
    assert!(q.fetch_frame().is_none());
}

#[test]
fn play_queue_insert_keeps_time_order() {
    let mut q: PlayQueue<AudioFrame> = PlayQueue::new(1 << 20);
    q.insert(af(3_000, 1));
    q.insert(af(1_000, 1));
    q.insert(af(2_000, 1));
    q.insert(af(2_000, 2));
    q.insert(af(500, 1));
    let mut seen = Vec::new();
    while let Some(f) = q.pop() {
        seen.push((f.pts(), f.sample_count));
    }
    // among equal timestamps the newcomer lands after the older one
    assert_eq!(seen, vec![(500, 1), (1_000, 1), (2_000, 1), (2_000, 2), (3_000, 1)]);
}
