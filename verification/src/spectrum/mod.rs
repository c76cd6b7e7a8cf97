//! Spectrum analysis: the analysis thread's timing and shutdown decisions.

pub mod schedule;

pub use schedule::{keeps_running, plan_tick, FrameDelivery, TickPlan};
