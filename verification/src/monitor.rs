//! The decisions of a GPIO edge monitor, one per pin slot.
//!
//! A monitor waits until a subscription hands it its pin and the edge to
//! watch; it then arms (switches the pin to input and acknowledges), and
//! from then on publishes one event per detected edge, numbered from a
//! counter shared by all monitors, until it is told to stop, when it hands
//! the pin back and waits again. The waiting, the pin and the publishing
//! are the caller's; this module decides what each of them means.

use vstd::prelude::*;
use crate::peripherals::{GpioEdge, GpioEvent, GpioState};

verus! {

/// Where a monitor stands.
#[derive(Debug, Clone, Copy, PartialEq, Eq, Structural)]
pub enum MonitorState {
    /// No pin: waiting for a subscription.
    Idle,
    /// Holding its pin and watching for `edge`.
    Armed { edge: GpioEdge },
}

/// What happened to a monitor.
#[derive(Debug, Clone, Copy, PartialEq, Eq, Structural)]
pub enum MonitorInput {
    /// A subscription handed over the pin, to be watched for `edge`.
    Start { edge: GpioEdge },
    /// The watched edge occurred; the pin then read `high`, at
    /// `timestamp_us` microseconds since boot.
    EdgeDetected { high: bool, timestamp_us: u64 },
    /// Monitoring of this pin was cancelled.
    Stop,
}

/// What the caller must do after a step.
#[derive(Debug, Clone, Copy, PartialEq, Eq, Structural)]
pub enum MonitorAction {
    /// Switch the pin to input and acknowledge that the monitor is armed.
    Arm,
    /// Publish `event` under sequence number `seq`.
    Publish { seq: u16, event: GpioEvent },
    /// Hand the pin back to the firmware.
    ReturnPin,
    /// Nothing: the input does not apply in this state.
    Ignore,
}

/// The outcome of one step: the monitor's next state, the shared event
/// counter after the step, and the action to perform.
#[derive(Debug, Clone, Copy, PartialEq, Eq, Structural)]
pub struct MonitorStep {
    /// The monitor's next state.
    pub state: MonitorState,
    /// The shared sequence counter after the step.
    pub next_seq: u16,
    /// What the caller must do.
    pub action: MonitorAction,
}

/// The sequence number that follows `seq`, wrapping at 2^16.
pub open spec fn spec_next_seq(seq: u16) -> u16 {
    ((seq + 1) % 0x1_0000) as u16
}

/// One step of the monitor of pin `slot`, with the shared counter at `seq`.
pub open spec fn spec_monitor_step(slot: u8, state: MonitorState, seq: u16, input: MonitorInput) -> MonitorStep {
    match (state, input) {
        (MonitorState::Idle, MonitorInput::Start { edge }) => MonitorStep {
            state: MonitorState::Armed { edge },
            next_seq: seq,
            action: MonitorAction::Arm,
        },
        (MonitorState::Armed { edge }, MonitorInput::EdgeDetected { high, timestamp_us }) => MonitorStep {
            state,
            next_seq: spec_next_seq(seq),
            action: MonitorAction::Publish {
                seq,
                event: GpioEvent {
                    pin: slot,
                    edge,
                    state: GpioState::spec_from_bool(high),
                    timestamp_us,
                },
            },
        },
        (MonitorState::Armed { .. }, MonitorInput::Stop) => MonitorStep {
            state: MonitorState::Idle,
            next_seq: seq,
            action: MonitorAction::ReturnPin,
        },
        _ => MonitorStep { state, next_seq: seq, action: MonitorAction::Ignore },
    }
}

/// Decides one step of the monitor of pin `slot`.
pub fn monitor_step(slot: u8, state: MonitorState, seq: u16, input: MonitorInput) -> (res: MonitorStep)
    ensures
        res == spec_monitor_step(slot, state, seq, input),
{
    match (state, input) {
        (MonitorState::Idle, MonitorInput::Start { edge }) => MonitorStep {
            state: MonitorState::Armed { edge },
            next_seq: seq,
            action: MonitorAction::Arm,
        },
        (MonitorState::Armed { edge }, MonitorInput::EdgeDetected { high, timestamp_us }) => {
            let next: u16 = if seq == 0xffff {
                0
            } else {
                seq + 1
            };
            MonitorStep {
                state,
                next_seq: next,
                action: MonitorAction::Publish {
                    seq,
                    event: GpioEvent {
                        pin: slot,
                        edge,
                        state: GpioState::from_bool(high),
                        timestamp_us,
                    },
                },
            }
        },
        (MonitorState::Armed { .. }, MonitorInput::Stop) => MonitorStep {
            state: MonitorState::Idle,
            next_seq: seq,
            action: MonitorAction::ReturnPin,
        },
        _ => MonitorStep { state, next_seq: seq, action: MonitorAction::Ignore },
    }
}

/// An armed monitor publishes every detected edge as an event of its own
/// pin and armed edge, under the current counter, and stays armed; the
/// counter then moves on by one, modulo 2^16.
pub proof fn lemma_armed_monitor_publishes(slot: u8, edge: GpioEdge, seq: u16, high: bool, timestamp_us: u64)
    ensures
        ({
            let step = spec_monitor_step(
                slot,
                MonitorState::Armed { edge },
                seq,
                MonitorInput::EdgeDetected { high, timestamp_us },
            );
            &&& step.state == MonitorState::Armed { edge }
            &&& step.action matches MonitorAction::Publish { seq: s, event: e }
                && s == seq && e.pin == slot && e.edge == edge && e.state.spec_is_high() == high
            &&& step.next_seq as int == (seq as int + 1) % 0x1_0000
        }),
{
}

/// Subscribing and then stopping leaves the monitor idle again with the
/// pin handed back, and the counter untouched; a stop or an edge reaches
/// an idle monitor to no effect.
pub proof fn lemma_start_stop_round_trip(slot: u8, edge: GpioEdge, seq: u16, input: MonitorInput)
    ensures
        ({
            let armed = spec_monitor_step(slot, MonitorState::Idle, seq, MonitorInput::Start { edge });
            let stopped = spec_monitor_step(slot, armed.state, armed.next_seq, MonitorInput::Stop);
            &&& armed.action == MonitorAction::Arm
            &&& stopped.state == MonitorState::Idle
            &&& stopped.action == MonitorAction::ReturnPin
            &&& stopped.next_seq == seq
        }),
        !(input is Start) ==> spec_monitor_step(slot, MonitorState::Idle, seq, input) == (MonitorStep {
            state: MonitorState::Idle,
            next_seq: seq,
            action: MonitorAction::Ignore,
        }),
{
}

} // verus!
