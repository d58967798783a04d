//! Wire-protocol records and error kinds for GPIO, UART, PWM, ADC and
//! 1-Wire.

use vstd::prelude::*;
use crate::text::text_of;

verus! {

// ---------------------------------------------------------------- GPIO

/// Error from GPIO operations, propagated from firmware.
#[derive(Debug, Clone, Copy, PartialEq, Eq, Structural)]
pub enum GpioError {
    /// The requested pin number is invalid.
    InvalidPin,
    /// An unspecified error occurred in the firmware.
    Other,
    /// The pin is configured in a direction that does not support the operation.
    WrongDirection,
    /// The pin is monitored for events and cannot be used for regular operations.
    PinMonitored,
    /// The pin is not monitored, so it cannot be unsubscribed.
    PinNotMonitored,
}

impl GpioError {
    /// The human-readable description of each kind.
    pub open spec fn spec_message(self) -> Seq<char> {
        match self {
            GpioError::InvalidPin => "invalid GPIO pin number"@,
            GpioError::Other => "GPIO error"@,
            GpioError::WrongDirection => "GPIO pin configured in wrong direction"@,
            GpioError::PinMonitored => "GPIO pin is being monitored for events"@,
            GpioError::PinNotMonitored => "GPIO pin is not monitored"@,
        }
    }

    /// Human-readable description of the error.
    pub fn message(&self) -> (res: String)
        ensures
            res@ == self.spec_message(),
    {
        match self {
            GpioError::InvalidPin => text_of("invalid GPIO pin number"),
            GpioError::Other => text_of("GPIO error"),
            GpioError::WrongDirection => text_of("GPIO pin configured in wrong direction"),
            GpioError::PinMonitored => text_of("GPIO pin is being monitored for events"),
            GpioError::PinNotMonitored => text_of("GPIO pin is not monitored"),
        }
    }
}

/// Logic level of a GPIO pin.
#[derive(Debug, Clone, Copy, PartialEq, Eq, Hash, Structural)]
pub enum GpioState {
    /// Logic low.
    Low,
    /// Logic high.
    High,
}

impl GpioState {
    /// Wire index of each variant.
    pub open spec fn spec_index(self) -> u8 {
        match self {
            GpioState::Low => 0,
            GpioState::High => 1,
        }
    }

    /// Wire index of the variant.
    pub fn index(&self) -> (r: u8)
        ensures
            r == self.spec_index(),
    {
        match self {
            GpioState::Low => 0,
            GpioState::High => 1,
        }
    }

    /// `High` for `true`, `Low` for `false`.
    pub open spec fn spec_from_bool(value: bool) -> GpioState {
        if value {
            GpioState::High
        } else {
            GpioState::Low
        }
    }

    /// `true` exactly for `High`.
    pub open spec fn spec_is_high(self) -> bool {
        self == GpioState::High
    }

    /// The level for a boolean: `true` is high.
    pub fn from_bool(value: bool) -> (r: GpioState)
        ensures
            r == Self::spec_from_bool(value),
    {
        if value {
            GpioState::High
        } else {
            GpioState::Low
        }
    }

    /// Whether the level is high.
    pub fn is_high(&self) -> (r: bool)
        ensures
            r == self.spec_is_high(),
    {
        match self {
            GpioState::High => true,
            GpioState::Low => false,
        }
    }
}

impl From<bool> for GpioState {
    fn from(value: bool) -> (r: GpioState) {
        GpioState::from_bool(value)
    }
}

impl vstd::std_specs::convert::FromSpecImpl<bool> for GpioState {
    open spec fn obeys_from_spec() -> bool {
        true
    }

    open spec fn from_spec(value: bool) -> GpioState {
        GpioState::spec_from_bool(value)
    }
}

impl From<GpioState> for bool {
    fn from(state: GpioState) -> (r: bool) {
        state.is_high()
    }
}

impl vstd::std_specs::convert::FromSpecImpl<GpioState> for bool {
    open spec fn obeys_from_spec() -> bool {
        true
    }

    open spec fn from_spec(state: GpioState) -> bool {
        state.spec_is_high()
    }
}

/// Converting a boolean to a level and back gives the boolean again, and
/// converting a level to a boolean and back gives the level again.
pub proof fn lemma_gpio_state_bool_inverse(b: bool, s: GpioState)
    ensures
        GpioState::spec_from_bool(b).spec_is_high() == b,
        GpioState::spec_from_bool(s.spec_is_high()) == s,
{
}

/// Request to read the current level of a GPIO pin.
#[derive(Debug, Clone, Copy, PartialEq, Eq, Structural)]
pub struct GpioGetRequest {
    /// GPIO pin index.
    pub pin: u8,
}

/// Request to set a GPIO pin to a specific level.
#[derive(Debug, Clone, Copy, PartialEq, Eq, Structural)]
pub struct GpioPutRequest {
    /// GPIO pin index.
    pub pin: u8,
    /// Desired output level.
    pub state: GpioState,
}

/// Request to wait for a GPIO pin to reach a state or edge.
#[derive(Debug, Clone, Copy, PartialEq, Eq, Structural)]
pub struct GpioWaitRequest {
    /// GPIO pin index.
    pub pin: u8,
}

/// GPIO pin direction.
#[derive(Debug, Clone, Copy, PartialEq, Eq, Hash, Structural)]
pub enum GpioDirection {
    /// Digital input.
    Input,
    /// Digital output.
    Output,
}

impl GpioDirection {
    /// Wire index of each variant.
    pub open spec fn spec_index(self) -> u8 {
        match self {
            GpioDirection::Input => 0,
            GpioDirection::Output => 1,
        }
    }

    /// The variant with a given wire index, if any.
    pub open spec fn spec_from_index(i: u8) -> Option<GpioDirection> {
        if i == 0 {
            Some(GpioDirection::Input)
        } else if i == 1 {
            Some(GpioDirection::Output)
        } else {
            None
        }
    }

    /// Wire index of the variant.
    pub fn index(&self) -> (r: u8)
        ensures
            r == self.spec_index(),
    {
        match self {
            GpioDirection::Input => 0,
            GpioDirection::Output => 1,
        }
    }

    /// Variant for a wire index; `None` outside `0..=1`.
    pub fn from_index(i: u8) -> (r: Option<GpioDirection>)
        ensures
            r == Self::spec_from_index(i),
    {
        if i == 0 {
            Some(GpioDirection::Input)
        } else if i == 1 {
            Some(GpioDirection::Output)
        } else {
            None
        }
    }
}

/// GPIO internal pull resistor configuration.
#[derive(Debug, Clone, Copy, PartialEq, Eq, Hash, Structural)]
pub enum GpioPull {
    /// No internal pull resistor.
    NoPull,
    /// Internal pull-up resistor.
    Up,
    /// Internal pull-down resistor.
    Down,
}

impl GpioPull {
    /// Wire index of each variant.
    pub open spec fn spec_index(self) -> u8 {
        match self {
            GpioPull::NoPull => 0,
            GpioPull::Up => 1,
            GpioPull::Down => 2,
        }
    }

    /// The variant with a given wire index, if any.
    pub open spec fn spec_from_index(i: u8) -> Option<GpioPull> {
        if i == 0 {
            Some(GpioPull::NoPull)
        } else if i == 1 {
            Some(GpioPull::Up)
        } else if i == 2 {
            Some(GpioPull::Down)
        } else {
            None
        }
    }

    /// Wire index of the variant.
    pub fn index(&self) -> (r: u8)
        ensures
            r == self.spec_index(),
    {
        match self {
            GpioPull::NoPull => 0,
            GpioPull::Up => 1,
            GpioPull::Down => 2,
        }
    }

    /// Variant for a wire index; `None` outside `0..=2`.
    pub fn from_index(i: u8) -> (r: Option<GpioPull>)
        ensures
            r == Self::spec_from_index(i),
    {
        if i == 0 {
            Some(GpioPull::NoPull)
        } else if i == 1 {
            Some(GpioPull::Up)
        } else if i == 2 {
            Some(GpioPull::Down)
        } else {
            None
        }
    }
}

/// Request to configure a GPIO pin's direction and pull resistor.
#[derive(Debug, Clone, Copy, PartialEq, Eq, Structural)]
pub struct GpioSetConfigurationRequest {
    /// GPIO pin index.
    pub pin: u8,
    /// Desired pin direction.
    pub direction: GpioDirection,
    /// Internal pull resistor setting.
    pub pull: GpioPull,
}

/// Edge type for GPIO event monitoring.
#[derive(Debug, Clone, Copy, PartialEq, Eq, Hash, Structural)]
pub enum GpioEdge {
    /// Low-to-high transitions.
    Rising,
    /// High-to-low transitions.
    Falling,
    /// Any transition.
    Any,
}

impl GpioEdge {
    /// Wire index of each variant.
    pub open spec fn spec_index(self) -> u8 {
        match self {
            GpioEdge::Rising => 0,
            GpioEdge::Falling => 1,
            GpioEdge::Any => 2,
        }
    }

    /// The variant with a given wire index, if any.
    pub open spec fn spec_from_index(i: u8) -> Option<GpioEdge> {
        if i == 0 {
            Some(GpioEdge::Rising)
        } else if i == 1 {
            Some(GpioEdge::Falling)
        } else if i == 2 {
            Some(GpioEdge::Any)
        } else {
            None
        }
    }

    /// The lower-case name of each edge kind.
    pub open spec fn spec_message(self) -> Seq<char> {
        match self {
            GpioEdge::Rising => "rising"@,
            GpioEdge::Falling => "falling"@,
            GpioEdge::Any => "any"@,
        }
    }

    /// Wire index of the variant.
    pub fn index(&self) -> (r: u8)
        ensures
            r == self.spec_index(),
    {
        match self {
            GpioEdge::Rising => 0,
            GpioEdge::Falling => 1,
            GpioEdge::Any => 2,
        }
    }

    /// Variant for a wire index; `None` outside `0..=2`.
    pub fn from_index(i: u8) -> (r: Option<GpioEdge>)
        ensures
            r == Self::spec_from_index(i),
    {
        if i == 0 {
            Some(GpioEdge::Rising)
        } else if i == 1 {
            Some(GpioEdge::Falling)
        } else if i == 2 {
            Some(GpioEdge::Any)
        } else {
            None
        }
    }

    /// Lower-case name of the edge kind.
    pub fn message(&self) -> (res: String)
        ensures
            res@ == self.spec_message(),
    {
        match self {
            GpioEdge::Rising => text_of("rising"),
            GpioEdge::Falling => text_of("falling"),
            GpioEdge::Any => text_of("any"),
        }
    }
}

/// A GPIO event notification published by the firmware.
#[derive(Debug, Clone, Copy, PartialEq, Eq, Structural)]
pub struct GpioEvent {
    /// GPIO pin index that triggered the event.
    pub pin: u8,
    /// The edge type that was detected.
    pub edge: GpioEdge,
    /// Pin level sampled immediately after the event.
    pub state: GpioState,
    /// Monotonic timestamp in microseconds since firmware boot.
    pub timestamp_us: u64,
}

/// Request to subscribe a GPIO pin to edge-event monitoring.
#[derive(Debug, Clone, Copy, PartialEq, Eq, Structural)]
pub struct GpioSubscribeRequest {
    /// GPIO pin index.
    pub pin: u8,
    /// Which edges to monitor.
    pub edge: GpioEdge,
}

/// Request to unsubscribe a GPIO pin from edge-event monitoring.
#[derive(Debug, Clone, Copy, PartialEq, Eq, Structural)]
pub struct GpioUnsubscribeRequest {
    /// GPIO pin index.
    pub pin: u8,
}

/// The wire index of every configuration enum decodes back to the same
/// variant, and an index decodes only to the variant that has it.
pub proof fn lemma_wire_index_round_trip(
    f: crate::wire::I2cFrequency,
    d: GpioDirection,
    p: GpioPull,
    e: GpioEdge,
    c: crate::adc::AdcChannel,
    i: u8,
)
    ensures
        crate::wire::I2cFrequency::spec_from_index(f.spec_index()) == Some(f),
        GpioDirection::spec_from_index(d.spec_index()) == Some(d),
        GpioPull::spec_from_index(p.spec_index()) == Some(p),
        GpioEdge::spec_from_index(e.spec_index()) == Some(e),
        crate::adc::AdcChannel::spec_from_index(c.spec_index()) == Some(c),
        crate::wire::I2cFrequency::spec_from_index(i) matches Some(x) ==> x.spec_index() == i,
        GpioDirection::spec_from_index(i) matches Some(x) ==> x.spec_index() == i,
        GpioPull::spec_from_index(i) matches Some(x) ==> x.spec_index() == i,
        GpioEdge::spec_from_index(i) matches Some(x) ==> x.spec_index() == i,
        crate::adc::AdcChannel::spec_from_index(i) matches Some(x) ==> x.spec_index() == i,
{
}

} // verus!
