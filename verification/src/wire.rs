//! Wire-protocol types shared by the host and the firmware: constants,
//! request and response records, and the error kinds of each peripheral.
//!
//! Every enum here is encoded on the wire by its variant index; the
//! `index` / `from_index` pairs state that mapping and its inverse.

use vstd::prelude::*;
use crate::text::text_of;

verus! {

/// USB Vendor ID (Microsoft Corporation).
pub const MICROSOFT_VID: u16 = 0x045e;

/// USB Product ID assigned to Pico de Gallo.
pub const PICO_DE_GALLO_PID: u16 = 0x067d;

/// Maximum number of bytes the firmware handles in one transaction.
pub const MAX_TRANSFER_SIZE: usize = 4096;

/// Number of PWM output channels exposed by the firmware.
pub const NUM_PWM_CHANNELS: usize = 4;

/// Number of external (GPIO-based) ADC channels.
pub const NUM_ADC_GPIO_CHANNELS: usize = 4;

/// ADC resolution in bits.
pub const ADC_RESOLUTION_BITS: u8 = 12;

/// Nominal ADC reference voltage in millivolts.
pub const ADC_NOMINAL_REFERENCE_MV: u16 = 3300;

/// Maximum number of operations in one batch request.
pub const MAX_BATCH_OPS: usize = 64;

/// Schema (wire protocol) version, major part.
pub const SCHEMA_VERSION_MAJOR: u16 = 0;

/// Schema (wire protocol) version, minor part.
pub const SCHEMA_VERSION_MINOR: u16 = 4;

/// Schema (wire protocol) version, patch part.
pub const SCHEMA_VERSION_PATCH: u32 = 0;

// ----------------------------------------------------------------- I2C

/// Error from I2C operations, propagated from firmware.
#[derive(Debug, Clone, Copy, PartialEq, Eq, Structural)]
pub enum I2cError {
    /// Bus error (unexpected condition on the I2C bus).
    Bus,
    /// No acknowledge received from the target device.
    NoAcknowledge,
    /// Arbitration lost to another controller on the bus.
    ArbitrationLoss,
    /// Data overrun.
    Overrun,
    /// Request exceeds the firmware buffer limit.
    BufferTooLong,
    /// I2C address is outside the valid 7-bit range.
    AddressOutOfRange,
    /// An unspecified error occurred in the firmware.
    Other,
}

impl I2cError {
    /// The human-readable description of each kind.
    pub open spec fn spec_message(self) -> Seq<char> {
        match self {
            I2cError::Bus => "I2C bus error"@,
            I2cError::NoAcknowledge => "no acknowledge from target"@,
            I2cError::ArbitrationLoss => "I2C arbitration loss"@,
            I2cError::Overrun => "I2C data overrun"@,
            I2cError::BufferTooLong => "buffer exceeds firmware limit"@,
            I2cError::AddressOutOfRange => "I2C address out of range"@,
            I2cError::Other => "I2C error"@,
        }
    }

    /// Human-readable description of the error.
    pub fn message(&self) -> (res: String)
        ensures
            res@ == self.spec_message(),
    {
        match self {
            I2cError::Bus => text_of("I2C bus error"),
            I2cError::NoAcknowledge => text_of("no acknowledge from target"),
            I2cError::ArbitrationLoss => text_of("I2C arbitration loss"),
            I2cError::Overrun => text_of("I2C data overrun"),
            I2cError::BufferTooLong => text_of("buffer exceeds firmware limit"),
            I2cError::AddressOutOfRange => text_of("I2C address out of range"),
            I2cError::Other => text_of("I2C error"),
        }
    }
}

/// Request to write bytes to an I2C device, then read back.
#[derive(Debug, Clone, PartialEq)]
pub struct I2cWriteReadRequest {
    /// 7-bit I2C slave address.
    pub address: u8,
    /// Bytes to write (typically a register address).
    pub contents: Vec<u8>,
    /// Number of bytes to read back.
    pub count: u16,
}

/// Request to read bytes from an I2C device.
#[derive(Debug, Clone, Copy, PartialEq, Eq, Structural)]
pub struct I2cReadRequest {
    /// 7-bit I2C slave address.
    pub address: u8,
    /// Number of bytes to read.
    pub count: u16,
}

/// Request to write bytes to an I2C device.
#[derive(Debug, Clone, PartialEq)]
pub struct I2cWriteRequest {
    /// 7-bit I2C slave address.
    pub address: u8,
    /// Bytes to write.
    pub contents: Vec<u8>,
}

/// Request to scan the I2C bus for responding devices.
#[derive(Debug, Clone, Copy, PartialEq, Eq, Structural)]
pub struct I2cScanRequest {
    /// When `true`, also probe reserved addresses.
    pub include_reserved: bool,
}

/// I2C bus clock frequency.
#[derive(Debug, Clone, Copy, PartialEq, Eq, Structural)]
pub enum I2cFrequency {
    /// Standard mode, 100 kHz.
    Standard,
    /// Fast mode, 400 kHz.
    Fast,
    /// Fast+ mode, 1 MHz.
    FastPlus,
}

impl I2cFrequency {
    /// Wire index of each variant.
    pub open spec fn spec_index(self) -> u8 {
        match self {
            I2cFrequency::Standard => 0,
            I2cFrequency::Fast => 1,
            I2cFrequency::FastPlus => 2,
        }
    }

    /// The variant with a given wire index, if any.
    pub open spec fn spec_from_index(i: u8) -> Option<I2cFrequency> {
        if i == 0 {
            Some(I2cFrequency::Standard)
        } else if i == 1 {
            Some(I2cFrequency::Fast)
        } else if i == 2 {
            Some(I2cFrequency::FastPlus)
        } else {
            None
        }
    }

    /// Wire index of the variant.
    pub fn index(&self) -> (r: u8)
        ensures
            r == self.spec_index(),
    {
        match self {
            I2cFrequency::Standard => 0,
            I2cFrequency::Fast => 1,
            I2cFrequency::FastPlus => 2,
        }
    }

    /// Variant for a wire index; `None` outside `0..=2`.
    pub fn from_index(i: u8) -> (r: Option<I2cFrequency>)
        ensures
            r == Self::spec_from_index(i),
    {
        if i == 0 {
            Some(I2cFrequency::Standard)
        } else if i == 1 {
            Some(I2cFrequency::Fast)
        } else if i == 2 {
            Some(I2cFrequency::FastPlus)
        } else {
            None
        }
    }

    /// Bus clock of each mode, in hertz.
    pub open spec fn spec_hz(self) -> u32 {
        match self {
            I2cFrequency::Standard => 100_000,
            I2cFrequency::Fast => 400_000,
            I2cFrequency::FastPlus => 1_000_000,
        }
    }
}

/// Request to reconfigure I2C bus parameters.
#[derive(Debug, Clone, Copy, PartialEq, Eq, Structural)]
pub struct I2cSetConfigurationRequest {
    /// I2C bus clock frequency.
    pub frequency: I2cFrequency,
}

// ----------------------------------------------------------------- SPI

/// Error from SPI operations, propagated from firmware.
#[derive(Debug, Clone, Copy, PartialEq, Eq, Structural)]
pub enum SpiError {
    /// Request exceeds the firmware buffer limit.
    BufferTooLong,
    /// An unspecified error occurred in the firmware.
    Other,
}

impl SpiError {
    /// The human-readable description of each kind.
    pub open spec fn spec_message(self) -> Seq<char> {
        match self {
            SpiError::BufferTooLong => "buffer exceeds firmware limit"@,
            SpiError::Other => "SPI error"@,
        }
    }

    /// Human-readable description of the error.
    pub fn message(&self) -> (res: String)
        ensures
            res@ == self.spec_message(),
    {
        match self {
            SpiError::BufferTooLong => text_of("buffer exceeds firmware limit"),
            SpiError::Other => text_of("SPI error"),
        }
    }
}

/// Request to read bytes from the SPI bus.
#[derive(Debug, Clone, Copy, PartialEq, Eq, Structural)]
pub struct SpiReadRequest {
    /// Number of bytes to read.
    pub count: u16,
}

/// Request to write bytes to the SPI bus.
#[derive(Debug, Clone, PartialEq)]
pub struct SpiWriteRequest {
    /// Bytes to write.
    pub contents: Vec<u8>,
}

/// Request for a full-duplex SPI transfer.
#[derive(Debug, Clone, PartialEq)]
pub struct SpiTransferRequest {
    /// Bytes to transmit; as many bytes are received.
    pub contents: Vec<u8>,
}

/// SPI clock phase setting.
#[derive(Debug, Clone, Copy, PartialEq, Eq, Hash, Structural)]
pub enum SpiPhase {
    /// Data captured on the leading clock edge (CPHA=0).
    CaptureOnFirstTransition,
    /// Data captured on the trailing clock edge (CPHA=1).
    CaptureOnSecondTransition,
}

impl SpiPhase {
    /// Wire index of each variant.
    pub open spec fn spec_index(self) -> u8 {
        match self {
            SpiPhase::CaptureOnFirstTransition => 0,
            SpiPhase::CaptureOnSecondTransition => 1,
        }
    }

    /// Wire index of the variant.
    pub fn index(&self) -> (r: u8)
        ensures
            r == self.spec_index(),
    {
        match self {
            SpiPhase::CaptureOnFirstTransition => 0,
            SpiPhase::CaptureOnSecondTransition => 1,
        }
    }
}

/// SPI clock polarity setting.
#[derive(Debug, Clone, Copy, PartialEq, Eq, Hash, Structural)]
pub enum SpiPolarity {
    /// Clock idles low (CPOL=0).
    IdleLow,
    /// Clock idles high (CPOL=1).
    IdleHigh,
}

impl SpiPolarity {
    /// Wire index of each variant.
    pub open spec fn spec_index(self) -> u8 {
        match self {
            SpiPolarity::IdleLow => 0,
            SpiPolarity::IdleHigh => 1,
        }
    }

    /// Wire index of the variant.
    pub fn index(&self) -> (r: u8)
        ensures
            r == self.spec_index(),
    {
        match self {
            SpiPolarity::IdleLow => 0,
            SpiPolarity::IdleHigh => 1,
        }
    }
}

/// Request to reconfigure SPI bus parameters.
#[derive(Debug, Clone, Copy, PartialEq, Eq, Structural)]
pub struct SpiSetConfigurationRequest {
    /// SPI bus clock frequency in Hz.
    pub spi_frequency: u32,
    /// SPI clock phase.
    pub spi_phase: SpiPhase,
    /// SPI clock polarity.
    pub spi_polarity: SpiPolarity,
}

/// Current SPI bus configuration as reported by the firmware.
#[derive(Debug, Clone, Copy, PartialEq, Eq, Structural)]
pub struct SpiConfigurationInfo {
    /// SPI bus clock frequency in Hz.
    pub spi_frequency: u32,
    /// SPI clock phase.
    pub spi_phase: SpiPhase,
    /// SPI clock polarity.
    pub spi_polarity: SpiPolarity,
}

} // verus!
