//! Decisions of the file playback thread.
//!
//! The thread loops: it checks for a stop request and for pause, decodes a
//! packet, hands the samples on, and ends at end of stream or on a decode
//! error. The thread does the waiting, decoding and writing; this module
//! decides, from what the thread observed, what it does next.

use vstd::prelude::*;

verus! {

/// How decoding one packet went.
#[derive(Debug, Clone, Copy, PartialEq, Eq, Structural)]
pub enum PacketOutcome {
    /// A packet of samples was decoded.
    Samples,
    /// The stream ended.
    EndOfStream,
    /// Decoding failed.
    Failed,
}

/// What the playback thread observed.
#[derive(Debug, Clone, Copy, PartialEq, Eq, Structural)]
pub enum PlaybackEvent {
    /// Start of an iteration: whether stop was requested and whether paused.
    Poll { stop_requested: bool, paused: bool },
    /// Result of the decode the previous action asked for.
    Decoded(PacketOutcome),
}

/// What the playback thread does next.
#[derive(Debug, Clone, Copy, PartialEq, Eq, Structural)]
pub enum PlaybackAction {
    /// Decode the next packet.
    Decode,
    /// Sleep for the pause poll interval, then poll again.
    WaitWhilePaused,
    /// Mix down, resample and write the decoded samples, then poll again.
    Forward,
    /// Leave the loop and mark playback finished.
    Finish,
}

/// Decision table of the playback loop: a stop request ends playback before
/// anything else, pause waits, otherwise a packet is decoded; decoded samples
/// are forwarded, while end of stream and decode errors end playback.
pub open spec fn spec_playback_next(event: PlaybackEvent) -> PlaybackAction {
    match event {
        PlaybackEvent::Poll { stop_requested, paused } => if stop_requested {
            PlaybackAction::Finish
        } else if paused {
            PlaybackAction::WaitWhilePaused
        } else {
            PlaybackAction::Decode
        },
        PlaybackEvent::Decoded(outcome) => match outcome {
            PacketOutcome::Samples => PlaybackAction::Forward,
            _ => PlaybackAction::Finish,
        },
    }
}

/// Next action of the playback thread after `event`.
pub fn playback_next(event: PlaybackEvent) -> (action: PlaybackAction)
    ensures
        action == spec_playback_next(event),
{
    match event {
        PlaybackEvent::Poll { stop_requested, paused } => {
            if stop_requested {
                PlaybackAction::Finish
            } else if paused {
                PlaybackAction::WaitWhilePaused
            } else {
                PlaybackAction::Decode
            }
        },
        PlaybackEvent::Decoded(outcome) => match outcome {
            PacketOutcome::Samples => PlaybackAction::Forward,
            PacketOutcome::EndOfStream => PlaybackAction::Finish,
            PacketOutcome::Failed => PlaybackAction::Finish,
        },
    }
}

/// A stop request always wins, paused or not; nothing but a stop request
/// ends a paused playback.
pub proof fn law_stop_wins(paused: bool)
    ensures
        spec_playback_next(PlaybackEvent::Poll { stop_requested: true, paused })
            == PlaybackAction::Finish,
        spec_playback_next(PlaybackEvent::Poll { stop_requested: false, paused: true })
            == PlaybackAction::WaitWhilePaused,
{
}

/// Decoding is asked for only when running and not paused, and every
/// decoded packet either is forwarded or ends playback.
pub proof fn law_decode_only_when_running(event: PlaybackEvent)
    ensures
        spec_playback_next(event) == PlaybackAction::Decode ==> event == (PlaybackEvent::Poll {
            stop_requested: false,
            paused: false,
        }),
        event is Decoded ==> (spec_playback_next(event) == PlaybackAction::Forward
            || spec_playback_next(event) == PlaybackAction::Finish),
{
}

} // verus!
