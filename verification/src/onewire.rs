//! 1-Wire records and error kinds.

use vstd::prelude::*;
use crate::text::text_of;

verus! {

/// Error from 1-Wire operations, propagated from firmware.
#[derive(Debug, Clone, Copy, PartialEq, Eq, Structural)]
pub enum OneWireError {
    /// No device responded to reset.
    NoPresence,
    /// Bus communication error.
    BusError,
    /// Requested transfer exceeds the transfer limit.
    BufferTooLong,
    /// Catch-all for unexpected 1-Wire errors.
    Other,
    /// The peripheral is not available on this hardware revision.
    Unsupported,
}

impl OneWireError {
    /// Wire index of each variant.
    pub open spec fn spec_index(self) -> u8 {
        match self {
            OneWireError::NoPresence => 0,
            OneWireError::BusError => 1,
            OneWireError::BufferTooLong => 2,
            OneWireError::Other => 3,
            OneWireError::Unsupported => 4,
        }
    }

    /// The human-readable description of each kind.
    pub open spec fn spec_message(self) -> Seq<char> {
        match self {
            OneWireError::NoPresence => "no device present on 1-Wire bus"@,
            OneWireError::BusError => "1-Wire bus error"@,
            OneWireError::BufferTooLong => "buffer exceeds firmware limit"@,
            OneWireError::Other => "1-Wire error"@,
            OneWireError::Unsupported => "1-Wire not supported on this hardware"@,
        }
    }

    /// Wire index of the variant.
    pub fn index(&self) -> (r: u8)
        ensures
            r == self.spec_index(),
    {
        match self {
            OneWireError::NoPresence => 0,
            OneWireError::BusError => 1,
            OneWireError::BufferTooLong => 2,
            OneWireError::Other => 3,
            OneWireError::Unsupported => 4,
        }
    }

    /// Human-readable description of the error.
    pub fn message(&self) -> (res: String)
        ensures
            res@ == self.spec_message(),
    {
        match self {
            OneWireError::NoPresence => text_of("no device present on 1-Wire bus"),
            OneWireError::BusError => text_of("1-Wire bus error"),
            OneWireError::BufferTooLong => text_of("buffer exceeds firmware limit"),
            OneWireError::Other => text_of("1-Wire error"),
            OneWireError::Unsupported => text_of("1-Wire not supported on this hardware"),
        }
    }
}

/// Request to read bytes from the 1-Wire bus.
#[derive(Debug, Clone, Copy, PartialEq, Eq, Structural)]
pub struct OneWireReadRequest {
    /// Number of bytes to read.
    pub len: u16,
}

/// Request to write bytes to the 1-Wire bus.
#[derive(Debug, Clone, PartialEq)]
pub struct OneWireWriteRequest {
    /// Bytes to write to the bus.
    pub data: Vec<u8>,
}

/// Request to write bytes to the 1-Wire bus with a strong pullup after.
#[derive(Debug, Clone, PartialEq)]
pub struct OneWireWritePullupRequest {
    /// Bytes to write to the bus.
    pub data: Vec<u8>,
    /// Milliseconds to hold the strong pullup after writing.
    pub pullup_duration_ms: u16,
}

/// Family code of a 64-bit ROM ID: its least significant byte.
pub open spec fn spec_family_code(rom_id: u64) -> u8 {
    (rom_id % 256) as u8
}

/// The family code of a ROM ID (its low byte).
pub fn family_code(rom_id: u64) -> (f: u8)
    ensures
        f == spec_family_code(rom_id),
{
    (rom_id % 256) as u8
}

/// The family code of a ROM ID is its least significant byte.
pub proof fn lemma_family_code_is_low_byte(rom_id: u64)
    ensures
        spec_family_code(rom_id) as u64 == rom_id & 0xff,
{
    let f = spec_family_code(rom_id);
    assert(f == (rom_id % 256) as u8);
    assert((rom_id % 256) as u8 as u64 == rom_id & 0xff) by (bit_vector);
}

} // verus!
