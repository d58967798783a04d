//! Errors of the host client and its compatibility check.
//!
//! A request either fails in transport (the USB link, a timeout, a bad
//! frame) or reaches the firmware, which may answer with an endpoint
//! error. The compatibility check decides from the firmware's
//! `device/info` reply whether this host can talk to it.

use vstd::prelude::*;
use crate::text::{push_decimal, push_str, spec_decimal};
use crate::device::DeviceInfo;
use crate::wire::{I2cError, SpiError, SCHEMA_VERSION_MINOR};
use crate::peripherals::GpioError;
use crate::uart::UartError;
use crate::pwm::PwmError;
use crate::adc::AdcError;
use crate::onewire::OneWireError;
use crate::batch::{I2cBatchError, SpiBatchError};

verus! {

/// A transport-level failure.
#[derive(Debug, Clone)]
pub struct CommsError {
    /// Whether the link to the device was closed (rather than a timeout,
    /// a bad response or a frame that failed to decode).
    pub closed: bool,
    /// How the failure reads in a diagnostic.
    pub description: String,
}

/// An endpoint error that can describe itself in words.
pub trait EndpointError {
    /// The words of the description.
    spec fn spec_describe(&self) -> Seq<char>;

    /// Human-readable description of the error.
    fn describe(&self) -> (res: String)
        ensures
            res@ == self.spec_describe(),
    ;
}

impl<'a> EndpointError for &'a str {
    open spec fn spec_describe(&self) -> Seq<char> {
        (*self)@
    }

    fn describe(&self) -> (res: String) {
        crate::text::text_of(*self)
    }
}

impl EndpointError for I2cError {
    open spec fn spec_describe(&self) -> Seq<char> {
        self.spec_message()
    }

    fn describe(&self) -> (res: String) {
        self.message()
    }
}

impl EndpointError for SpiError {
    open spec fn spec_describe(&self) -> Seq<char> {
        self.spec_message()
    }

    fn describe(&self) -> (res: String) {
        self.message()
    }
}

impl EndpointError for GpioError {
    open spec fn spec_describe(&self) -> Seq<char> {
        self.spec_message()
    }

    fn describe(&self) -> (res: String) {
        self.message()
    }
}

impl EndpointError for UartError {
    open spec fn spec_describe(&self) -> Seq<char> {
        self.spec_message()
    }

    fn describe(&self) -> (res: String) {
        self.message()
    }
}

impl EndpointError for PwmError {
    open spec fn spec_describe(&self) -> Seq<char> {
        self.spec_message()
    }

    fn describe(&self) -> (res: String) {
        self.message()
    }
}

impl EndpointError for AdcError {
    open spec fn spec_describe(&self) -> Seq<char> {
        self.spec_message()
    }

    fn describe(&self) -> (res: String) {
        self.message()
    }
}

impl EndpointError for OneWireError {
    open spec fn spec_describe(&self) -> Seq<char> {
        self.spec_message()
    }

    fn describe(&self) -> (res: String) {
        self.message()
    }
}

impl EndpointError for I2cBatchError {
    open spec fn spec_describe(&self) -> Seq<char> {
        self.spec_message()
    }

    fn describe(&self) -> (res: String) {
        self.message()
    }
}

impl EndpointError for SpiBatchError {
    open spec fn spec_describe(&self) -> Seq<char> {
        self.spec_message()
    }

    fn describe(&self) -> (res: String) {
        self.message()
    }
}

/// Error of a client operation, parameterized by the endpoint's error.
#[derive(Debug, Clone)]
pub enum PicoDeGalloError<E> {
    /// A transport-level communication error.
    Comms(CommsError),
    /// The firmware processed the request but returned an error.
    Endpoint(E),
}

impl<E: EndpointError> PicoDeGalloError<E> {
    /// `communication error: <transport>` or `endpoint error: <endpoint>`.
    pub open spec fn spec_message(&self) -> Seq<char> {
        match self {
            PicoDeGalloError::Comms(c) => "communication error: "@ + c.description@,
            PicoDeGalloError::Endpoint(e) => "endpoint error: "@ + e.spec_describe(),
        }
    }

    /// Human-readable description of the error.
    pub fn message(&self) -> (res: String)
        ensures
            res@ == self.spec_message(),
    {
        let mut s = String::new();
        match self {
            PicoDeGalloError::Comms(c) => {
                push_str(&mut s, "communication error: ");
                push_str(&mut s, c.description.as_str());
            },
            PicoDeGalloError::Endpoint(e) => {
                push_str(&mut s, "endpoint error: ");
                let d = e.describe();
                push_str(&mut s, d.as_str());
            },
        }
        assert(s@ =~= self.spec_message());
        s
    }
}

/// Why the connected firmware cannot be used with this host.
#[derive(Debug, Clone)]
pub enum ValidateError {
    /// Could not communicate with the device.
    Comms(CommsError),
    /// The firmware does not support the `device/info` endpoint.
    LegacyFirmware,
    /// The schema (wire protocol) minor version does not match.
    SchemaMismatch {
        /// Schema minor version expected by this host library.
        expected_minor: u16,
        /// Schema minor version reported by the firmware.
        actual_minor: u16,
    },
}

impl ValidateError {
    /// The description of each kind.
    pub open spec fn spec_message(&self) -> Seq<char> {
        match self {
            ValidateError::Comms(c) => "communication error: "@ + c.description@,
            ValidateError::LegacyFirmware => "firmware does not support the device/info endpoint \u{2014} upgrade firmware"@,
            ValidateError::SchemaMismatch { expected_minor, actual_minor } => "schema version mismatch: host expects 0."@
                + spec_decimal(*expected_minor as nat) + ".x but firmware reports 0."@
                + spec_decimal(*actual_minor as nat) + ".x \u{2014} upgrade both together"@,
        }
    }

    /// Human-readable description of the error.
    pub fn message(&self) -> (res: String)
        ensures
            res@ == self.spec_message(),
    {
        let mut s = String::new();
        match self {
            ValidateError::Comms(c) => {
                push_str(&mut s, "communication error: ");
                push_str(&mut s, c.description.as_str());
            },
            ValidateError::LegacyFirmware => {
                push_str(
                    &mut s,
                    "firmware does not support the device/info endpoint \u{2014} upgrade firmware",
                );
            },
            ValidateError::SchemaMismatch { expected_minor, actual_minor } => {
                push_str(&mut s, "schema version mismatch: host expects 0.");
                push_decimal(&mut s, *expected_minor as u64);
                push_str(&mut s, ".x but firmware reports 0.");
                push_decimal(&mut s, *actual_minor as u64);
                push_str(&mut s, ".x \u{2014} upgrade both together");
            },
        }
        assert(s@ =~= self.spec_message());
        s
    }
}

/// What the compatibility check concludes from the `device/info` reply.
pub open spec fn spec_validate(reply: Result<DeviceInfo, CommsError>) -> Result<DeviceInfo, ValidateError> {
    match reply {
        Err(c) => if c.closed {
            Err(ValidateError::Comms(c))
        } else {
            Err(ValidateError::LegacyFirmware)
        },
        Ok(info) => if info.schema_minor != SCHEMA_VERSION_MINOR {
            Err(
                ValidateError::SchemaMismatch {
                    expected_minor: SCHEMA_VERSION_MINOR,
                    actual_minor: info.schema_minor,
                },
            )
        } else {
            Ok(info)
        },
    }
}

/// Checks the firmware's `device/info` reply: a closed link is a
/// communication error, any other failure means the firmware predates the
/// endpoint, and a reply whose schema minor version differs from this
/// host's is a mismatch (before 1.0 a minor bump breaks the wire format).
pub fn validate_device_info(reply: Result<DeviceInfo, CommsError>) -> (res: Result<DeviceInfo, ValidateError>)
    ensures
        res == spec_validate(reply),
{
    match reply {
        Err(c) => if c.closed {
            Err(ValidateError::Comms(c))
        } else {
            Err(ValidateError::LegacyFirmware)
        },
        Ok(info) => if info.schema_minor != SCHEMA_VERSION_MINOR {
            Err(
                ValidateError::SchemaMismatch {
                    expected_minor: SCHEMA_VERSION_MINOR,
                    actual_minor: info.schema_minor,
                },
            )
        } else {
            Ok(info)
        },
    }
}

/// A device accepted by the compatibility check speaks this host's schema
/// minor version, and a mismatch reports both versions.
pub proof fn lemma_validate_accepts_only_matching_schema(reply: Result<DeviceInfo, CommsError>)
    ensures
        spec_validate(reply) matches Ok(info) ==> reply == Ok::<DeviceInfo, CommsError>(info)
            && info.schema_minor == SCHEMA_VERSION_MINOR,
        spec_validate(reply) matches Err(ValidateError::SchemaMismatch { expected_minor, actual_minor })
            ==> reply matches Ok(info) && expected_minor == SCHEMA_VERSION_MINOR && actual_minor
            == info.schema_minor && actual_minor != expected_minor,
{
}

} // verus!
