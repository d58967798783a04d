use pico_de_gallo::client::{validate_device_info, CommsError, PicoDeGalloError, ValidateError};
use pico_de_gallo::device::{Capabilities, DeviceInfo};
use pico_de_gallo::wire::I2cError;

fn info(schema_minor: u16) -> DeviceInfo {
    DeviceInfo {
        fw_major: 0,
        fw_minor: 9,
        fw_patch: 1,
        schema_major: 0,
        schema_minor,
        schema_patch: 0,
        hw_version: 1,
        capabilities: Capabilities(0x7f),
    }
}

#[test]
fn endpoint_error_wraps_inner() {
    let err: PicoDeGalloError<&str> = PicoDeGalloError::Endpoint("endpoint failed");
    match err {
        PicoDeGalloError::Endpoint(e) => assert_eq!(e, "endpoint failed"),
        PicoDeGalloError::Comms(_) => panic!("expected Endpoint, got Comms"),
    }
}

#[test]
fn map_err_converts_ok() {
    let result: Result<u32, &str> = Ok(42);
    let mapped: Result<u32, PicoDeGalloError<&str>> = result.map_err(PicoDeGalloError::Endpoint);
    assert_eq!(mapped.unwrap(), 42);
}

#[test]
fn map_err_converts_err() {
    let result: Result<(), I2cError> = Err(I2cError::NoAcknowledge);
    let mapped = result.map_err(PicoDeGalloError::Endpoint);
    match mapped {
        Err(PicoDeGalloError::Endpoint(I2cError::NoAcknowledge)) => {}
        _ => panic!("expected Endpoint(I2cError::NoAcknowledge)"),
    }
}

#[test]
fn error_display_endpoint() {
    let err: PicoDeGalloError<&str> = PicoDeGalloError::Endpoint("sensor timeout");
    let msg = err.message();
    assert!(msg.contains("endpoint error"));
    assert!(msg.contains("sensor timeout"));
}

#[test]
fn error_display_comms() {
    let err: PicoDeGalloError<&str> =
        PicoDeGalloError::Comms(CommsError { closed: true, description: "Closed".to_string() });
    let msg = err.message();
    assert!(msg.contains("communication error"));
    assert_eq!(msg, "communication error: Closed");
}

#[test]
fn error_display_typed_endpoint() {
    let err: PicoDeGalloError<I2cError> = PicoDeGalloError::Endpoint(I2cError::Bus);
    assert_eq!(err.message(), "endpoint error: I2C bus error");
}

#[test]
fn validate_accepts_matching_schema() {
    let got = validate_device_info(Ok(info(4))).unwrap();
    assert_eq!(got, info(4));
}

#[test]
fn validate_reports_schema_mismatch() {
    match validate_device_info(Ok(info(3))) {
        Err(ValidateError::SchemaMismatch { expected_minor, actual_minor }) => {
            assert_eq!((expected_minor, actual_minor), (4, 3));
        }
        other => panic!("expected a schema mismatch, got {other:?}"),
    }
}

#[test]
fn validate_distinguishes_closed_link_from_legacy_firmware() {
    let closed = CommsError { closed: true, description: "Closed".to_string() };
    assert!(matches!(validate_device_info(Err(closed)), Err(ValidateError::Comms(_))));
    let other = CommsError { closed: false, description: "BadResponse".to_string() };
    assert!(matches!(validate_device_info(Err(other)), Err(ValidateError::LegacyFirmware)));
}

#[test]
fn validate_error_messages() {
    assert_eq!(
        ValidateError::SchemaMismatch { expected_minor: 4, actual_minor: 12 }.message(),
        "schema version mismatch: host expects 0.4.x but firmware reports 0.12.x \u{2014} upgrade both together"
    );
    assert_eq!(
        ValidateError::LegacyFirmware.message(),
        "firmware does not support the device/info endpoint \u{2014} upgrade firmware"
    );
}
