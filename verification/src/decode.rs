//! The shared decode retry policy.
//!
//! Both the audio and the video decode loop follow the same pull-based
//! policy around their codec: try to receive a frame first (so the last
//! frame is never lost), then — if the codec wants input — wait
//! cancellably for a packet, feed it, and try again.  The codec calls
//! and the sleeps stay with the shell; the branching between them is
//! decided here.

use vstd::prelude::*;

use crate::packet::Packet;

verus! {

/// What the codec reported when asked for a decoded frame.
#[derive(Clone, Copy, Debug, PartialEq, Eq)]
pub enum CodecPoll {
    /// A decoded frame is ready.
    Frame,
    /// The codec needs more input before it can produce a frame.
    NeedsInput,
    /// The codec has been flushed: the stream is exhausted.
    Flushed,
    /// Any other codec failure.
    Failed,
}

/// What the decode loop does with the codec's report.
#[derive(Clone, Copy, Debug, PartialEq, Eq)]
pub enum ReceiveStep {
    /// Hand the decoded frame to the caller.
    Deliver,
    /// Go pull a packet from the queue and feed it.
    FetchPacket,
    /// Report end of stream (`None`): a terminal signal, not an error.
    EndOfStream,
    /// Surface a decode error; the caller ends this stream's pipeline.
    Fail,
}

pub fn on_receive(outcome: &CodecPoll) -> (r: ReceiveStep)
    ensures
        r is Deliver <==> *outcome is Frame,
        r is FetchPacket <==> *outcome is NeedsInput,
        r is EndOfStream <==> *outcome is Flushed,
        r is Fail <==> *outcome is Failed,
{
    match outcome {
        CodecPoll::Frame => ReceiveStep::Deliver,
        CodecPoll::NeedsInput => ReceiveStep::FetchPacket,
        CodecPoll::Flushed => ReceiveStep::EndOfStream,
        CodecPoll::Failed => ReceiveStep::Fail,
    }
}

/// One round of the cancellable wait for input.
#[derive(Clone, Copy, Debug, PartialEq, Eq)]
pub enum WaitStep {
    /// Abort was requested: give up decoding, report end of stream.
    Stop,
    /// Go on: either playback runs, or a packet is waiting.
    Proceed,
    /// Paused with an empty queue: sleep briefly and check again.
    Sleep,
}

/// The wait is cancellable: abort wins over everything, and the loop
/// only keeps sleeping while playback is paused and the packet queue has
/// nothing to offer.
pub fn decode_wait(abort: bool, pause: bool, queue_empty: bool) -> (r: WaitStep)
    ensures
        r is Stop <==> abort,
        r is Proceed <==> (!abort && (!pause || !queue_empty)),
        r is Sleep <==> (!abort && pause && queue_empty),
{
    if abort {
        WaitStep::Stop
    } else if !pause || !queue_empty {
        WaitStep::Proceed
    } else {
        WaitStep::Sleep
    }
}

/// What to do with the packet the queue handed back.
#[derive(Clone, Copy, Debug, PartialEq, Eq)]
pub enum FeedStep {
    /// An empty-payload packet is the flush marker: flush the codec's
    /// internal buffers and continue.
    Flush,
    /// Send the packet to the codec.
    Send,
    /// The queue was empty: back off briefly, then retry.
    Starved,
}

pub fn feed_packet(pkt: &Option<Packet>) -> (r: FeedStep)
    ensures
        r is Flush <==> (pkt matches Some(p) && p.spec_is_flush()),
        r is Send <==> (pkt matches Some(p) && !p.spec_is_flush()),
        r is Starved <==> pkt is None,
{
    match pkt {
        Some(p) => {
            if p.is_flush_marker() {
                FeedStep::Flush
            } else {
                FeedStep::Send
            }
        },
        None => FeedStep::Starved,
    }
}

} // verus!
