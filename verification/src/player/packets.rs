//! Decisions of the decoder's packet loop.
//!
//! To produce the next block of samples the decoder reads packets from the
//! container and decodes those of its audio track. The reading and decoding
//! are done by the caller; this module decides, after each of them, whether
//! to decode, skip to the next packet, hand the samples out, report the end
//! of the stream, or fail.

use vstd::prelude::*;

verus! {

/// How reading the next packet from the container went.
#[derive(Debug, Clone, Copy, PartialEq, Eq, Structural)]
pub enum PacketRead {
    /// A packet was read; whether it belongs to the audio track.
    Packet { audio_track: bool },
    /// The container ended (an unexpected end of file).
    EndOfFile,
    /// The container asks for a reset, which ends playback too.
    ResetRequired,
    /// Any other read error.
    Failed,
}

/// How decoding a packet of the audio track went.
#[derive(Debug, Clone, Copy, PartialEq, Eq, Structural)]
pub enum PacketDecode {
    /// Samples were decoded.
    Decoded,
    /// The packet is corrupt; it can be skipped.
    Corrupt,
    /// Any other decode error.
    Failed,
}

/// What the decoder observed.
#[derive(Debug, Clone, Copy, PartialEq, Eq, Structural)]
pub enum DecoderEvent {
    Read(PacketRead),
    Decode(PacketDecode),
}

/// What the decoder does next.
#[derive(Debug, Clone, Copy, PartialEq, Eq, Structural)]
pub enum DecoderStep {
    /// Decode the packet just read.
    DecodePacket,
    /// Drop this packet and read the next one.
    ReadNext,
    /// Hand out the decoded samples (`Ok(true)`).
    Deliver,
    /// The stream is over (`Ok(false)`).
    EndOfStream,
    /// Reading failed: report a decoder error.
    ReadError,
    /// Decoding failed: report a decoder error.
    DecodeError,
}

/// Decision table of the packet loop: packets of other tracks (such as
/// cover art) and corrupt packets are skipped; the end of the file and a
/// reset request end the stream; other errors are reported.
pub open spec fn spec_decoder_next(event: DecoderEvent) -> DecoderStep {
    match event {
        DecoderEvent::Read(read) => match read {
            PacketRead::Packet { audio_track } => if audio_track {
                DecoderStep::DecodePacket
            } else {
                DecoderStep::ReadNext
            },
            PacketRead::EndOfFile => DecoderStep::EndOfStream,
            PacketRead::ResetRequired => DecoderStep::EndOfStream,
            PacketRead::Failed => DecoderStep::ReadError,
        },
        DecoderEvent::Decode(decode) => match decode {
            PacketDecode::Decoded => DecoderStep::Deliver,
            PacketDecode::Corrupt => DecoderStep::ReadNext,
            PacketDecode::Failed => DecoderStep::DecodeError,
        },
    }
}

/// Next step of the decoder after `event`.
pub fn decoder_next(event: DecoderEvent) -> (step: DecoderStep)
    ensures
        step == spec_decoder_next(event),
{
    match event {
        DecoderEvent::Read(read) => match read {
            PacketRead::Packet { audio_track } => {
                if audio_track {
                    DecoderStep::DecodePacket
                } else {
                    DecoderStep::ReadNext
                }
            },
            PacketRead::EndOfFile => DecoderStep::EndOfStream,
            PacketRead::ResetRequired => DecoderStep::EndOfStream,
            PacketRead::Failed => DecoderStep::ReadError,
        },
        DecoderEvent::Decode(decode) => match decode {
            PacketDecode::Decoded => DecoderStep::Deliver,
            PacketDecode::Corrupt => DecoderStep::ReadNext,
            PacketDecode::Failed => DecoderStep::DecodeError,
        },
    }
}

/// Only packets of the audio track are decoded, only decoded packets are
/// handed out, and a corrupt packet never ends playback.
pub proof fn law_only_audio_packets_are_decoded(event: DecoderEvent)
    ensures
        spec_decoder_next(event) == DecoderStep::DecodePacket ==> event == DecoderEvent::Read(
            PacketRead::Packet { audio_track: true },
        ),
        spec_decoder_next(event) == DecoderStep::Deliver ==> event == DecoderEvent::Decode(
            PacketDecode::Decoded,
        ),
        spec_decoder_next(DecoderEvent::Decode(PacketDecode::Corrupt)) == DecoderStep::ReadNext,
{
}

} // verus!
