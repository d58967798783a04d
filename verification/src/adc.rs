//! ADC records and error kinds.

use vstd::prelude::*;
use crate::text::text_of;

verus! {

/// ADC channel selector: `Adc0`..`Adc3` read GPIO26..GPIO29.
#[derive(Debug, Clone, Copy, PartialEq, Eq, Structural)]
pub enum AdcChannel {
    /// ADC channel 0, GPIO26.
    Adc0,
    /// ADC channel 1, GPIO27.
    Adc1,
    /// ADC channel 2, GPIO28.
    Adc2,
    /// ADC channel 3, GPIO29.
    Adc3,
}

impl AdcChannel {
    /// Wire index of each variant.
    pub open spec fn spec_index(self) -> u8 {
        match self {
            AdcChannel::Adc0 => 0,
            AdcChannel::Adc1 => 1,
            AdcChannel::Adc2 => 2,
            AdcChannel::Adc3 => 3,
        }
    }

    /// The channel with a given number, if any.
    pub open spec fn spec_from_index(i: u8) -> Option<AdcChannel> {
        if i == 0 {
            Some(AdcChannel::Adc0)
        } else if i == 1 {
            Some(AdcChannel::Adc1)
        } else if i == 2 {
            Some(AdcChannel::Adc2)
        } else if i == 3 {
            Some(AdcChannel::Adc3)
        } else {
            None
        }
    }

    /// The label of each channel, with its pin.
    pub open spec fn spec_message(self) -> Seq<char> {
        match self {
            AdcChannel::Adc0 => "ADC0 (GPIO26)"@,
            AdcChannel::Adc1 => "ADC1 (GPIO27)"@,
            AdcChannel::Adc2 => "ADC2 (GPIO28)"@,
            AdcChannel::Adc3 => "ADC3 (GPIO29)"@,
        }
    }

    /// Wire index of the channel.
    pub fn index(&self) -> (r: u8)
        ensures
            r == self.spec_index(),
    {
        match self {
            AdcChannel::Adc0 => 0,
            AdcChannel::Adc1 => 1,
            AdcChannel::Adc2 => 2,
            AdcChannel::Adc3 => 3,
        }
    }

    /// Channel for a number; `None` outside `0..=3`.
    pub fn from_index(i: u8) -> (r: Option<AdcChannel>)
        ensures
            r == Self::spec_from_index(i),
    {
        if i == 0 {
            Some(AdcChannel::Adc0)
        } else if i == 1 {
            Some(AdcChannel::Adc1)
        } else if i == 2 {
            Some(AdcChannel::Adc2)
        } else if i == 3 {
            Some(AdcChannel::Adc3)
        } else {
            None
        }
    }

    /// Label of the channel, with its pin.
    pub fn message(&self) -> (res: String)
        ensures
            res@ == self.spec_message(),
    {
        match self {
            AdcChannel::Adc0 => text_of("ADC0 (GPIO26)"),
            AdcChannel::Adc1 => text_of("ADC1 (GPIO27)"),
            AdcChannel::Adc2 => text_of("ADC2 (GPIO28)"),
            AdcChannel::Adc3 => text_of("ADC3 (GPIO29)"),
        }
    }
}

/// Error from ADC operations, propagated from firmware.
#[derive(Debug, Clone, Copy, PartialEq, Eq, Structural)]
pub enum AdcError {
    /// The ADC hardware signaled a conversion error.
    ConversionFailed,
    /// Catch-all for unexpected ADC errors.
    Other,
    /// The peripheral is not available on this hardware revision.
    Unsupported,
}

impl AdcError {
    /// The human-readable description of each kind.
    pub open spec fn spec_message(self) -> Seq<char> {
        match self {
            AdcError::ConversionFailed => "ADC conversion failed"@,
            AdcError::Other => "ADC error"@,
            AdcError::Unsupported => "ADC not supported on this hardware"@,
        }
    }

    /// Human-readable description of the error.
    pub fn message(&self) -> (res: String)
        ensures
            res@ == self.spec_message(),
    {
        match self {
            AdcError::ConversionFailed => text_of("ADC conversion failed"),
            AdcError::Other => text_of("ADC error"),
            AdcError::Unsupported => text_of("ADC not supported on this hardware"),
        }
    }
}

/// Request to perform a single-shot ADC read on a channel.
#[derive(Debug, Clone, Copy, PartialEq, Eq, Structural)]
pub struct AdcReadRequest {
    /// Which ADC channel to sample.
    pub channel: AdcChannel,
}

/// Current ADC configuration as reported by the firmware.
#[derive(Debug, Clone, Copy, PartialEq, Eq, Structural)]
pub struct AdcConfigurationInfo {
    /// ADC resolution in bits.
    pub resolution_bits: u8,
    /// Nominal ADC reference voltage in millivolts.
    pub nominal_reference_mv: u16,
    /// Number of external ADC channels.
    pub num_gpio_channels: u8,
}

/// Approximate input voltage, in millivolts, of a raw reading:
/// `raw * 3300 / 4096`, rounded down.
pub open spec fn spec_millivolts(raw: u16) -> nat {
    (raw as nat) * 3300 / 4096
}

/// Convert a raw 12-bit ADC reading to millivolts against the nominal
/// 3300 mV reference.
pub fn raw_to_millivolts(raw: u16) -> (mv: u32)
    ensures
        mv == spec_millivolts(raw),
{
    (raw as u32) * 3300 / 4096
}

/// The millivolts of a raw reading are the reading scaled by the 3300 mV
/// reference over the 4096 steps of a 12-bit converter, rounded down: the
/// largest `mv` with `mv * 4096 <= raw * 3300`.
pub proof fn lemma_millivolts_scale(raw: u16)
    ensures
        spec_millivolts(raw) * 4096 <= (raw as nat) * 3300,
        (raw as nat) * 3300 < (spec_millivolts(raw) + 1) * 4096,
{
    let x = (raw as nat) * 3300;
    let q = spec_millivolts(raw);
    assert(q == x / 4096);
    assert(q * 4096 <= x && x < (q + 1) * 4096) by (nonlinear_arith)
        requires
            q == x / 4096,
    ;
}

} // verus!
