//! Timing and shutdown decisions of the spectrum analysis thread.
//!
//! The thread runs at a fixed frame rate: after each frame it sleeps until
//! the next tick; when it has fallen behind it does not try to catch up with
//! a burst of frames but realigns its ticks to the present. Frames go to the
//! consumer through a bounded queue: a full queue drops the frame, a
//! consumer that has gone away ends the thread.

use vstd::prelude::*;

verus! {

/// Larger of two instants.
pub open spec fn later(a: int, b: int) -> int {
    if a > b {
        a
    } else {
        b
    }
}

/// How long to sleep and when the tick after that falls, all in nanoseconds
/// on one monotonic clock.
#[derive(Debug, Clone, Copy, PartialEq, Eq, Structural)]
pub struct TickPlan {
    pub sleep_nanos: u64,
    pub next_tick: u64,
}

/// Plans the wait after a frame: sleep until `next_tick` when it is still
/// ahead of `now`; when it is not, sleep not at all and count the next tick
/// from `now`. Either way the tick after is one `period` later.
pub fn plan_tick(next_tick: u64, now: u64, period: u64) -> (plan: TickPlan)
    requires
        later(next_tick as int, now as int) + period <= u64::MAX,
    ensures
        plan.sleep_nanos == later(next_tick as int, now as int) - now,
        plan.next_tick == later(next_tick as int, now as int) + period,
{
    if next_tick > now {
        TickPlan { sleep_nanos: next_tick - now, next_tick: next_tick + period }
    } else {
        TickPlan { sleep_nanos: 0, next_tick: now + period }
    }
}

/// Ticks never come in bursts: the next tick is always more than the
/// present and at least one period after the previous tick; the thread
/// sleeps exactly when it is ahead of schedule, and never past its tick.
pub proof fn law_no_catch_up_burst(next_tick: int, now: int, period: int)
    requires
        period > 0,
    ensures
        later(next_tick, now) + period > now,
        later(next_tick, now) + period >= next_tick + period,
        (later(next_tick, now) - now == 0) == (now >= next_tick),
        now + (later(next_tick, now) - now) <= later(next_tick, now),
{
}

/// How handing a frame to the consumer went.
#[derive(Debug, Clone, Copy, PartialEq, Eq, Structural)]
pub enum FrameDelivery {
    /// The frame was queued.
    Delivered,
    /// The queue stayed full for a whole period; the frame was dropped.
    QueueFull,
    /// The consumer is gone (the application is shutting down).
    ReceiverGone,
}

/// Whether the analysis thread keeps running after handing over a frame:
/// only a vanished consumer ends it; a full queue just drops the frame.
pub fn keeps_running(delivery: FrameDelivery) -> (running: bool)
    ensures
        running == (delivery != FrameDelivery::ReceiverGone),
{
    match delivery {
        FrameDelivery::Delivered => true,
        FrameDelivery::QueueFull => true,
        FrameDelivery::ReceiverGone => false,
    }
}

} // verus!
