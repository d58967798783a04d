//! UART records and error kinds.

use vstd::prelude::*;
use crate::text::text_of;

verus! {

/// Error from UART operations, propagated from firmware.
#[derive(Debug, Clone, Copy, PartialEq, Eq, Structural)]
pub enum UartError {
    /// Request exceeds the firmware buffer limit.
    BufferTooLong,
    /// Receiver FIFO overrun.
    Overrun,
    /// A break condition was detected on the RX line.
    Break,
    /// Parity mismatch.
    Parity,
    /// The received character did not have a valid stop bit.
    Framing,
    /// The requested baud rate is invalid.
    InvalidBaudRate,
    /// An unspecified error occurred in the firmware.
    Other,
    /// The peripheral is not available on this hardware revision.
    Unsupported,
}

impl UartError {
    /// The human-readable description of each kind.
    pub open spec fn spec_message(self) -> Seq<char> {
        match self {
            UartError::BufferTooLong => "buffer exceeds firmware limit"@,
            UartError::Overrun => "UART receiver overrun"@,
            UartError::Break => "UART break condition"@,
            UartError::Parity => "UART parity error"@,
            UartError::Framing => "UART framing error"@,
            UartError::InvalidBaudRate => "invalid baud rate"@,
            UartError::Other => "UART error"@,
            UartError::Unsupported => "UART not supported on this hardware"@,
        }
    }

    /// Human-readable description of the error.
    pub fn message(&self) -> (res: String)
        ensures
            res@ == self.spec_message(),
    {
        match self {
            UartError::BufferTooLong => text_of("buffer exceeds firmware limit"),
            UartError::Overrun => text_of("UART receiver overrun"),
            UartError::Break => text_of("UART break condition"),
            UartError::Parity => text_of("UART parity error"),
            UartError::Framing => text_of("UART framing error"),
            UartError::InvalidBaudRate => text_of("invalid baud rate"),
            UartError::Other => text_of("UART error"),
            UartError::Unsupported => text_of("UART not supported on this hardware"),
        }
    }
}

/// Request to read bytes from the UART bus.
#[derive(Debug, Clone, Copy, PartialEq, Eq, Structural)]
pub struct UartReadRequest {
    /// Maximum number of bytes to read.
    pub count: u16,
    /// Maximum time to wait for data, in milliseconds.
    pub timeout_ms: u32,
}

/// Request to write bytes to the UART bus.
#[derive(Debug, Clone, PartialEq)]
pub struct UartWriteRequest {
    /// Bytes to write.
    pub contents: Vec<u8>,
}

/// Request to reconfigure UART bus parameters.
#[derive(Debug, Clone, Copy, PartialEq, Eq, Structural)]
pub struct UartSetConfigurationRequest {
    /// Baud rate in bits per second.
    pub baud_rate: u32,
}

/// Current UART bus configuration as reported by the firmware.
#[derive(Debug, Clone, Copy, PartialEq, Eq, Structural)]
pub struct UartConfigurationInfo {
    /// Baud rate in bits per second.
    pub baud_rate: u32,
}

} // verus!
