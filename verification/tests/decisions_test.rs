use lumawave::player::{
    decoder_next, first_audio_track, playback_next, stream_format, DecoderEvent, DecoderStep, PacketDecode, PacketOutcome, PacketRead,
    PlaybackAction, PlaybackEvent,
};
use lumawave::spectrum::{keeps_running, plan_tick, FrameDelivery, TickPlan};

#[test]
fn ahead_of_schedule_sleeps_until_the_tick() {
    assert_eq!(
        plan_tick(1_000, 400, 250),
        TickPlan { sleep_nanos: 600, next_tick: 1_250 }
    );
}

#[test]
fn behind_schedule_realigns_without_a_burst() {
    assert_eq!(
        plan_tick(1_000, 5_000, 250),
        TickPlan { sleep_nanos: 0, next_tick: 5_250 }
    );
    assert_eq!(
        plan_tick(1_000, 1_000, 250),
        TickPlan { sleep_nanos: 0, next_tick: 1_250 }
    );
}

#[test]
fn ticks_after_a_stall_are_one_period_apart() {
    let period = 25_000_000;
    let mut tick = period;
    let mut now = 0u64;
    let mut ticks = Vec::new();
    for stall in [0u64, 200_000_000, 0, 0] {
        now += stall;
        let plan = plan_tick(tick, now, period);
        now += plan.sleep_nanos;
        ticks.push(now);
        tick = plan.next_tick;
    }
    assert_eq!(ticks[2] - ticks[1], period);
    assert_eq!(ticks[3] - ticks[2], period);
}

#[test]
fn only_a_vanished_consumer_stops_the_analyser() {
    assert!(keeps_running(FrameDelivery::Delivered));
    assert!(keeps_running(FrameDelivery::QueueFull));
    assert!(!keeps_running(FrameDelivery::ReceiverGone));
}

#[test]
fn playback_decisions() {
    let poll = |stop_requested, paused| PlaybackEvent::Poll { stop_requested, paused };
    assert_eq!(playback_next(poll(true, false)), PlaybackAction::Finish);
    assert_eq!(playback_next(poll(true, true)), PlaybackAction::Finish);
    assert_eq!(playback_next(poll(false, true)), PlaybackAction::WaitWhilePaused);
    assert_eq!(playback_next(poll(false, false)), PlaybackAction::Decode);
    assert_eq!(
        playback_next(PlaybackEvent::Decoded(PacketOutcome::Samples)),
        PlaybackAction::Forward
    );
    assert_eq!(
        playback_next(PlaybackEvent::Decoded(PacketOutcome::EndOfStream)),
        PlaybackAction::Finish
    );
    assert_eq!(
        playback_next(PlaybackEvent::Decoded(PacketOutcome::Failed)),
        PlaybackAction::Finish
    );
}

#[test]
fn decoder_skips_foreign_and_corrupt_packets() {
    let read = |r| decoder_next(DecoderEvent::Read(r));
    let decode = |d| decoder_next(DecoderEvent::Decode(d));
    assert_eq!(read(PacketRead::Packet { audio_track: true }), DecoderStep::DecodePacket);
    assert_eq!(read(PacketRead::Packet { audio_track: false }), DecoderStep::ReadNext);
    assert_eq!(read(PacketRead::EndOfFile), DecoderStep::EndOfStream);
    assert_eq!(read(PacketRead::ResetRequired), DecoderStep::EndOfStream);
    assert_eq!(read(PacketRead::Failed), DecoderStep::ReadError);
    assert_eq!(decode(PacketDecode::Decoded), DecoderStep::Deliver);
    assert_eq!(decode(PacketDecode::Corrupt), DecoderStep::ReadNext);
    assert_eq!(decode(PacketDecode::Failed), DecoderStep::DecodeError);
}

#[test]
fn first_track_with_a_known_codec_is_played() {
    assert_eq!(first_audio_track(&vec![false, true, true]), Some(1));
    assert_eq!(first_audio_track(&vec![true]), Some(0));
    assert_eq!(first_audio_track(&vec![false, false]), None);
    assert_eq!(first_audio_track(&vec![]), None);
}

#[test]
fn unset_stream_format_defaults_to_cd_stereo() {
    assert_eq!(stream_format(None, None), (44100, 2));
    assert_eq!(stream_format(Some(48000), Some(1)), (48000, 1));
    assert_eq!(stream_format(Some(22050), None), (22050, 2));
}
