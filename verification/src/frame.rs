//! Decoded, presentation-ready frames.
//!
//! Both frame kinds carry a presentation timestamp and a duration in
//! microseconds, and report a byte size to the bounded frame queue.  The
//! audio payload (interleaved float samples) lives with the device sink
//! outside the verified core; this crate accounts for it by its sample
//! count.  The video payload is a packed 4-byte-per-pixel raster held
//! here in full, rebuilt row by row from the decoder's strided buffer
//! with bounds-checked copies.

use vstd::prelude::*;

use crate::defines::MICROS_PER_SECOND;
use crate::defines::TIME_BOUND_US;

verus! {

/// Timing of a filtered audio frame.  An audio stream's native time
/// base is one sample, so a sample-counted timestamp maps to µs by
/// `pts * 1e6 / sample_rate`, and a frame of `nb_samples` samples per
/// channel plays for `nb_samples * 1e6 / sample_rate` µs.
pub fn audio_frame_timing(pts: i64, nb_samples: i64, sample_rate: i64) -> (r: (i64, i64))
    requires
        sample_rate >= 1,
        0 <= pts <= i64::MAX / MICROS_PER_SECOND,
        0 <= nb_samples <= i64::MAX / MICROS_PER_SECOND,
    ensures
        r.0 == pts * MICROS_PER_SECOND / (sample_rate as int),
        r.1 == nb_samples * MICROS_PER_SECOND / (sample_rate as int),
        0 <= r.0,
        0 <= r.1,
{
    (pts * MICROS_PER_SECOND / sample_rate, nb_samples * MICROS_PER_SECOND / sample_rate)
}

/// Presentation time of a decoded video frame: its best-effort
/// timestamp counts stream time-base units of `tb_num / tb_den`
/// seconds.
pub fn video_frame_pts(best_effort_timestamp: i64, tb_num: i64, tb_den: i64) -> (r: i64)
    requires
        tb_num >= 0,
        tb_den >= 1,
        0 <= best_effort_timestamp,
        best_effort_timestamp * tb_num <= i64::MAX / MICROS_PER_SECOND,
    ensures
        r == best_effort_timestamp * tb_num * MICROS_PER_SECOND / (tb_den as int),
        0 <= r,
{
    best_effort_timestamp * tb_num * MICROS_PER_SECOND / tb_den
}

/// Display time of one video frame: the reciprocal of the stream's
/// frame rate `fr_num / fr_den` frames per second, in µs.
pub fn video_frame_duration(fr_num: i64, fr_den: i64) -> (r: i64)
    requires
        fr_num >= 1,
        0 <= fr_den <= i64::MAX / MICROS_PER_SECOND,
    ensures
        r == fr_den * MICROS_PER_SECOND / (fr_num as int),
        0 <= r,
{
    fr_den * MICROS_PER_SECOND / fr_num
}

/// What the frame queues need of any frame: timing for ordering and
/// delay computation, and a byte size for accounting.
pub trait PlayFrame {
    /// Soundness of the accounting fields (sizes fit, times bounded).
    spec fn inv(&self) -> bool;

    spec fn spec_pts(&self) -> i64;

    spec fn spec_duration(&self) -> i64;

    spec fn spec_mem_size(&self) -> nat;

    /// Presentation time in µs relative to stream start.
    fn pts(&self) -> (r: i64)
        requires
            self.inv(),
        ensures
            r == self.spec_pts(),
    ;

    /// Time in µs this frame should stay on the output.
    fn duration(&self) -> (r: i64)
        requires
            self.inv(),
        ensures
            r == self.spec_duration(),
    ;

    /// Bytes this frame occupies in a bounded queue.
    fn mem_size(&self) -> (r: usize)
        requires
            self.inv(),
        ensures
            r == self.spec_mem_size(),
    ;
}

/// One run of interleaved float samples, ready for the device sink.  The
/// samples themselves are owned by the unverified sink; the core tracks
/// their count, layout and timing.
#[derive(Clone, Copy, Debug)]
pub struct AudioFrame {
    /// How many interleaved samples (4 bytes each) the sink holds.
    pub sample_count: usize,
    pub channels: u16,
    pub sample_rate: u32,
    /// Presentation time, µs.
    pub pts: i64,
    /// Play time of the run, µs.
    pub duration: i64,
}

impl AudioFrame {
    pub fn new(sample_count: usize, channels: u16, sample_rate: u32, pts: i64, duration: i64) -> (f:
        AudioFrame)
        requires
            sample_count * 4 <= usize::MAX,
            -TIME_BOUND_US <= pts <= TIME_BOUND_US,
            0 <= duration <= TIME_BOUND_US,
        ensures
            f.inv(),
            f.sample_count == sample_count,
            f.channels == channels,
            f.sample_rate == sample_rate,
            f.pts == pts,
            f.duration == duration,
    {
        AudioFrame { sample_count, channels, sample_rate, pts, duration }
    }
}

impl PlayFrame for AudioFrame {
    open spec fn inv(&self) -> bool {
        &&& self.sample_count * 4 <= usize::MAX
        &&& -TIME_BOUND_US <= self.pts <= TIME_BOUND_US
        &&& 0 <= self.duration <= TIME_BOUND_US
    }

    open spec fn spec_pts(&self) -> i64 {
        self.pts
    }

    open spec fn spec_duration(&self) -> i64 {
        self.duration
    }

    /// Four bytes per interleaved sample.
    open spec fn spec_mem_size(&self) -> nat {
        (self.sample_count * 4) as nat
    }

    fn pts(&self) -> i64 {
        self.pts
    }

    fn duration(&self) -> i64 {
        self.duration
    }

    fn mem_size(&self) -> usize {
        self.sample_count * 4
    }
}

/// One raster image in a packed 4-byte-per-pixel format, row-major,
/// exactly `width * 4` bytes per row.
#[derive(Clone, Debug, Default)]
pub struct VideoFrame {
    pub data: Vec<u8>,
    pub width: usize,
    pub height: usize,
    /// Presentation time, µs.
    pub pts: i64,
    /// Display time of the frame, µs.
    pub duration: i64,
}

/// The first `rows` rows of a strided raster, repacked tightly: row `r`
/// contributes the first `row_bytes` bytes of its `line_size`-byte line.
pub open spec fn repacked_rows(raw: Seq<u8>, row_bytes: int, line_size: int, rows: int) -> Seq<u8>
    decreases rows,
{
    if rows <= 0 {
        Seq::<u8>::empty()
    } else {
        repacked_rows(raw, row_bytes, line_size, rows - 1) + raw.subrange(
            (rows - 1) * line_size,
            (rows - 1) * line_size + row_bytes,
        )
    }
}

pub proof fn lemma_repacked_rows_len(raw: Seq<u8>, row_bytes: int, line_size: int, rows: int)
    requires
        0 <= row_bytes <= line_size,
        0 <= rows,
        rows * line_size <= raw.len(),
    ensures
        repacked_rows(raw, row_bytes, line_size, rows).len() == rows * row_bytes,
    decreases rows,
{
    if rows > 0 {
        assert((rows - 1) * line_size <= rows * line_size && 0 <= (rows - 1) * line_size
            && (rows - 1) * line_size + row_bytes <= rows * line_size) by (nonlinear_arith)
            requires
                0 <= row_bytes <= line_size,
                1 <= rows,
        ;
        lemma_repacked_rows_len(raw, row_bytes, line_size, rows - 1);
        assert(repacked_rows(raw, row_bytes, line_size, rows) == repacked_rows(
            raw,
            row_bytes,
            line_size,
            rows - 1,
        ) + raw.subrange((rows - 1) * line_size, (rows - 1) * line_size + row_bytes));
        assert(raw.subrange((rows - 1) * line_size, (rows - 1) * line_size + row_bytes).len()
            == row_bytes);
        assert((rows - 1) * row_bytes + row_bytes == rows * row_bytes) by (nonlinear_arith);
        assert(repacked_rows(raw, row_bytes, line_size, rows).len() == rows * row_bytes);
    } else {
        assert(rows == 0);
        assert(repacked_rows(raw, row_bytes, line_size, rows).len() == 0);
        assert(rows * row_bytes == 0);
    }
}

/// Each byte of the repacked raster is the matching byte of its source
/// row: index `row * row_bytes + c` comes from `row * line_size + c`.
pub proof fn lemma_repacked_rows_index(
    raw: Seq<u8>,
    row_bytes: int,
    line_size: int,
    rows: int,
    row: int,
    c: int,
)
    requires
        0 <= row_bytes <= line_size,
        0 <= rows,
        rows * line_size <= raw.len(),
        0 <= row < rows,
        0 <= c < row_bytes,
    ensures
        repacked_rows(raw, row_bytes, line_size, rows)[row * row_bytes + c] == raw[row * line_size
            + c],
    decreases rows,
{
    assert((rows - 1) * line_size <= rows * line_size && 0 <= (rows - 1) * line_size && (rows - 1)
        * line_size + row_bytes <= rows * line_size) by (nonlinear_arith)
        requires
            0 <= row_bytes <= line_size,
            1 <= rows,
    ;
    lemma_repacked_rows_len(raw, row_bytes, line_size, rows - 1);
    if row == rows - 1 {
        assert(0 <= row * row_bytes + c - (rows - 1) * row_bytes < row_bytes) by (nonlinear_arith)
            requires
                row == rows - 1,
                0 <= c < row_bytes,
        ;
        assert(row * row_bytes + c - (rows - 1) * row_bytes == c) by (nonlinear_arith)
            requires
                row == rows - 1,
        ;
    } else {
        assert(0 <= row * row_bytes + c < (rows - 1) * row_bytes) by (nonlinear_arith)
            requires
                0 <= row < rows - 1,
                0 <= c < row_bytes,
        ;
        lemma_repacked_rows_index(raw, row_bytes, line_size, rows - 1, row, c);
    }
}

impl VideoFrame {
    /// Repacks the decoder's strided raster (rows of `line_size` bytes,
    /// of which the first `width * 4` are pixels) into a tight row-major
    /// buffer.  Every byte of the result is pinned to its source byte by
    /// `repacked_rows`; `lemma_repacked_rows_index` reads that promise
    /// pointwise.
    pub fn new(
        raw_data: &[u8],
        width: usize,
        height: usize,
        line_size: usize,
        pts: i64,
        duration: i64,
    ) -> (f: VideoFrame)
        requires
            width * 4 <= line_size,
            height * line_size <= raw_data@.len(),
            width * height * 4 <= usize::MAX,
            -TIME_BOUND_US <= pts <= TIME_BOUND_US,
            0 <= duration <= TIME_BOUND_US,
        ensures
            f.inv(),
            f.width == width,
            f.height == height,
            f.pts == pts,
            f.duration == duration,
            f.data@.len() == width * height * 4,
            f.data@ == repacked_rows(
                raw_data@,
                width * 4 as int,
                line_size as int,
                height as int,
            ),
    {
        let raw_len: usize = raw_data.len();
        let row_bytes: usize = width * 4;
        let mut data: Vec<u8> = Vec::new();
        let mut row: usize = 0;
        while row < height
            invariant
                row <= height,
                width * 4 == row_bytes,
                row_bytes <= line_size,
                raw_len == raw_data@.len(),
                height * line_size <= raw_data@.len(),
                data@ == repacked_rows(raw_data@, row_bytes as int, line_size as int, row as int),
            decreases height - row,
        {
            proof {
                assert(row * line_size + line_size <= height * (line_size as int) && 0 <= row
                    * line_size && row * line_size + row_bytes <= row * line_size + line_size)
                    by (nonlinear_arith)
                    requires
                        row < height,
                        0 <= row_bytes <= line_size,
                ;
            }
            let row_start: usize = row * line_size;
            let mut c: usize = 0;
            while c < row_bytes
                invariant
                    c <= row_bytes,
                    row < height,
                    width * 4 == row_bytes,
                    row_bytes <= line_size,
                    raw_len == raw_data@.len(),
                    height * line_size <= raw_data@.len(),
                    row_start == row * line_size,
                    row_start + line_size <= height * (line_size as int),
                    data@ == repacked_rows(raw_data@, row_bytes as int, line_size as int, row as int)
                        + raw_data@.subrange(row_start as int, row_start + c),
                decreases row_bytes - c,
            {
                let b: u8 = raw_data[row_start + c];
                data.push(b);
                proof {
                    assert(raw_data@.subrange(row_start as int, row_start + c + 1)
                        =~= raw_data@.subrange(row_start as int, row_start + c).push(b));
                }
                c = c + 1;
            }
            row = row + 1;
            proof {
                assert(data@ =~= repacked_rows(
                    raw_data@,
                    row_bytes as int,
                    line_size as int,
                    row as int,
                ));
            }
        }
        proof {
            lemma_repacked_rows_len(raw_data@, row_bytes as int, line_size as int, height as int);
            assert(height * row_bytes == width * height * 4) by (nonlinear_arith)
                requires
                    row_bytes == width * 4,
            ;
        }
        VideoFrame { data, width, height, pts, duration }
    }
}

impl PlayFrame for VideoFrame {
    open spec fn inv(&self) -> bool {
        &&& self.data@.len() == self.width * self.height * 4
        &&& -TIME_BOUND_US <= self.pts <= TIME_BOUND_US
        &&& 0 <= self.duration <= TIME_BOUND_US
    }

    open spec fn spec_pts(&self) -> i64 {
        self.pts
    }

    open spec fn spec_duration(&self) -> i64 {
        self.duration
    }

    /// The raster bytes themselves.
    open spec fn spec_mem_size(&self) -> nat {
        self.data@.len()
    }

    fn pts(&self) -> i64 {
        self.pts
    }

    fn duration(&self) -> i64 {
        self.duration
    }

    fn mem_size(&self) -> usize {
        self.data.len()
    }
}

} // verus!
