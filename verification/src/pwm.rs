//! PWM records and error kinds.

use vstd::prelude::*;
use crate::text::text_of;

verus! {

/// Error from PWM operations, propagated from firmware.
#[derive(Debug, Clone, Copy, PartialEq, Eq, Structural)]
pub enum PwmError {
    /// The channel index exceeds the available PWM channels.
    InvalidChannel,
    /// The duty cycle exceeds the maximum for the current configuration.
    InvalidDutyCycle,
    /// The requested configuration is invalid.
    InvalidConfiguration,
    /// An unspecified error occurred in the firmware.
    Other,
}

impl PwmError {
    /// The human-readable description of each kind.
    pub open spec fn spec_message(self) -> Seq<char> {
        match self {
            PwmError::InvalidChannel => "invalid PWM channel"@,
            PwmError::InvalidDutyCycle => "duty cycle exceeds maximum"@,
            PwmError::InvalidConfiguration => "invalid PWM configuration"@,
            PwmError::Other => "PWM error"@,
        }
    }

    /// Human-readable description of the error.
    pub fn message(&self) -> (res: String)
        ensures
            res@ == self.spec_message(),
    {
        match self {
            PwmError::InvalidChannel => text_of("invalid PWM channel"),
            PwmError::InvalidDutyCycle => text_of("duty cycle exceeds maximum"),
            PwmError::InvalidConfiguration => text_of("invalid PWM configuration"),
            PwmError::Other => text_of("PWM error"),
        }
    }
}

/// Request to set the duty cycle of a PWM channel.
#[derive(Debug, Clone, Copy, PartialEq, Eq, Structural)]
pub struct PwmSetDutyCycleRequest {
    /// PWM channel index.
    pub channel: u8,
    /// Raw duty cycle value (0 to top).
    pub duty: u16,
}

/// Request to query the current duty cycle of a PWM channel.
#[derive(Debug, Clone, Copy, PartialEq, Eq, Structural)]
pub struct PwmGetDutyCycleRequest {
    /// PWM channel index.
    pub channel: u8,
}

/// A PWM channel's current duty cycle.
#[derive(Debug, Clone, Copy, PartialEq, Eq, Structural)]
pub struct PwmDutyCycleInfo {
    /// Maximum duty cycle value (the slice's `top`).
    pub max_duty: u16,
    /// Current duty cycle value (raw compare register).
    pub current_duty: u16,
}

/// Request to enable a PWM channel's slice.
#[derive(Debug, Clone, Copy, PartialEq, Eq, Structural)]
pub struct PwmEnableRequest {
    /// PWM channel index; its parent slice is enabled.
    pub channel: u8,
}

/// Request to disable a PWM channel's slice.
#[derive(Debug, Clone, Copy, PartialEq, Eq, Structural)]
pub struct PwmDisableRequest {
    /// PWM channel index; its parent slice is disabled.
    pub channel: u8,
}

/// Request to reconfigure the PWM slice behind a channel.
#[derive(Debug, Clone, Copy, PartialEq, Eq, Structural)]
pub struct PwmSetConfigurationRequest {
    /// PWM channel index; identifies the target slice.
    pub channel: u8,
    /// Desired output frequency in Hz.
    pub frequency_hz: u32,
    /// Enable phase-correct mode.
    pub phase_correct: bool,
}

/// Request to query the configuration of a PWM channel's slice.
#[derive(Debug, Clone, Copy, PartialEq, Eq, Structural)]
pub struct PwmGetConfigurationRequest {
    /// PWM channel index.
    pub channel: u8,
}

/// Current PWM slice configuration as reported by the firmware.
#[derive(Debug, Clone, Copy, PartialEq, Eq, Structural)]
pub struct PwmConfigurationInfo {
    /// Actual output frequency in Hz.
    pub frequency_hz: u32,
    /// Whether phase-correct mode is active.
    pub phase_correct: bool,
    /// Whether the slice is enabled.
    pub enabled: bool,
}

} // verus!
