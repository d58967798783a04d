use std::collections::HashSet;

use pico_de_gallo::adc::AdcError;
use pico_de_gallo::batch::{I2cBatchError, SpiBatchError};
use pico_de_gallo::client::{CommsError, PicoDeGalloError, ValidateError};
use pico_de_gallo::device::{Capabilities, DeviceInfo};
use pico_de_gallo::ffi::{
    check_batch_arguments, check_buffer_arguments, check_read_length, spi_transfer_error_to_status, device_info_outcome, i2c_batch_outcome, scan_copy,
    spi_batch_outcome, spi_config_to_c, spi_mode_from_c, translate_i2c_batch_ops, translate_spi_batch_ops,
    uart_read_copy, GalloI2cBatchOp, GalloSpiBatchOp, RomSearch,
};
use pico_de_gallo::batch::{I2cBatchOp, SpiBatchOp};
use pico_de_gallo::onewire::OneWireError;
use pico_de_gallo::peripherals::GpioError;
use pico_de_gallo::status::{
    adc_error_to_status, gpio_error_to_status, i2c_error_to_status, onewire_error_to_status,
    pwm_error_to_status, spi_error_to_status, uart_error_to_status, Status,
};
use pico_de_gallo::pwm::PwmError;
use pico_de_gallo::uart::UartError;
use pico_de_gallo::wire::{
    I2cError, I2cFrequency, SpiConfigurationInfo, SpiError, SpiPhase, SpiPolarity, MAX_BATCH_OPS,
};

#[test]
fn ok_is_zero() {
    assert_eq!(Status::Success.code(), 0);
}

#[test]
fn all_errors_are_negative() {
    let error_codes = [
        Status::I2cReadFailed.code(),
        Status::I2cWriteFailed.code(),
        Status::InvalidResponse.code(),
        Status::Uninitialized.code(),
        Status::InvalidArgument.code(),
        Status::PingFailed.code(),
        Status::SpiReadFailed.code(),
        Status::SpiWriteFailed.code(),
        Status::SpiFlushFailed.code(),
        Status::GpioGetFailed.code(),
        Status::GpioPutFailed.code(),
        Status::GpioWaitFailed.code(),
        Status::SetConfigFailed.code(),
        Status::VersionFailed.code(),
        Status::I2cWriteReadFailed.code(),
        Status::I2cSetConfigFailed.code(),
        Status::SpiSetConfigFailed.code(),
        Status::I2cNack.code(),
        Status::I2cBusError.code(),
        Status::I2cArbitrationLoss.code(),
        Status::I2cOverrun.code(),
        Status::BufferTooLong.code(),
        Status::I2cAddressOutOfRange.code(),
        Status::GpioInvalidPin.code(),
        Status::CommsFailed.code(),
        Status::I2cScanFailed.code(),
        Status::GpioSetConfigFailed.code(),
        Status::GpioWrongDirection.code(),
        Status::I2cGetConfigFailed.code(),
        Status::SpiGetConfigFailed.code(),
        Status::UartReadFailed.code(),
        Status::UartWriteFailed.code(),
        Status::UartFlushFailed.code(),
        Status::UartOverrun.code(),
        Status::UartBreak.code(),
        Status::UartParity.code(),
        Status::UartFraming.code(),
        Status::UartInvalidBaudRate.code(),
        Status::UartSetConfigFailed.code(),
        Status::UartGetConfigFailed.code(),
        Status::PwmSetDutyCycleFailed.code(),
        Status::PwmGetDutyCycleFailed.code(),
        Status::PwmEnableFailed.code(),
        Status::PwmDisableFailed.code(),
        Status::PwmSetConfigFailed.code(),
        Status::PwmGetConfigFailed.code(),
        Status::PwmInvalidChannel.code(),
        Status::PwmInvalidDutyCycle.code(),
        Status::PwmInvalidConfiguration.code(),
        Status::AdcReadFailed.code(),
        Status::AdcGetConfigFailed.code(),
        Status::AdcConversionFailed.code(),
        Status::GpioPinMonitored.code(),
        Status::GpioPinNotMonitored.code(),
        Status::GpioSubscribeFailed.code(),
        Status::GpioUnsubscribeFailed.code(),
        Status::OneWireNoPresence.code(),
        Status::OneWireBusError.code(),
        Status::OneWireReadFailed.code(),
        Status::OneWireWriteFailed.code(),
        Status::OneWireSearchFailed.code(),
        Status::DeviceInfoFailed.code(),
        Status::SchemaMismatch.code(),
        Status::LegacyFirmware.code(),
        Status::Unsupported.code(),
        Status::I2cBatchFailed.code(),
        Status::SpiBatchFailed.code(),
        Status::SpiTransferFailed.code(),
        Status::SystemResetSubscriptionsFailed.code(),
    ];
    for code in error_codes {
        assert!(code < 0, "error code {code} should be negative");
    }
}

#[test]
fn status_codes_are_distinct() {
    let codes = [
        Status::Success.code(),
        Status::I2cReadFailed.code(),
        Status::I2cWriteFailed.code(),
        Status::InvalidResponse.code(),
        Status::Uninitialized.code(),
        Status::InvalidArgument.code(),
        Status::PingFailed.code(),
        Status::SpiReadFailed.code(),
        Status::SpiWriteFailed.code(),
        Status::SpiFlushFailed.code(),
        Status::GpioGetFailed.code(),
        Status::GpioPutFailed.code(),
        Status::GpioWaitFailed.code(),
        Status::SetConfigFailed.code(),
        Status::VersionFailed.code(),
        Status::I2cWriteReadFailed.code(),
        Status::I2cSetConfigFailed.code(),
        Status::SpiSetConfigFailed.code(),
        Status::I2cNack.code(),
        Status::I2cBusError.code(),
        Status::I2cArbitrationLoss.code(),
        Status::I2cOverrun.code(),
        Status::BufferTooLong.code(),
        Status::I2cAddressOutOfRange.code(),
        Status::GpioInvalidPin.code(),
        Status::CommsFailed.code(),
        Status::I2cScanFailed.code(),
        Status::GpioSetConfigFailed.code(),
        Status::GpioWrongDirection.code(),
        Status::I2cGetConfigFailed.code(),
        Status::SpiGetConfigFailed.code(),
        Status::UartReadFailed.code(),
        Status::UartWriteFailed.code(),
        Status::UartFlushFailed.code(),
        Status::UartOverrun.code(),
        Status::UartBreak.code(),
        Status::UartParity.code(),
        Status::UartFraming.code(),
        Status::UartInvalidBaudRate.code(),
        Status::UartSetConfigFailed.code(),
        Status::UartGetConfigFailed.code(),
        Status::PwmSetDutyCycleFailed.code(),
        Status::PwmGetDutyCycleFailed.code(),
        Status::PwmEnableFailed.code(),
        Status::PwmDisableFailed.code(),
        Status::PwmSetConfigFailed.code(),
        Status::PwmGetConfigFailed.code(),
        Status::PwmInvalidChannel.code(),
        Status::PwmInvalidDutyCycle.code(),
        Status::PwmInvalidConfiguration.code(),
        Status::AdcReadFailed.code(),
        Status::AdcGetConfigFailed.code(),
        Status::AdcConversionFailed.code(),
        Status::GpioPinMonitored.code(),
        Status::GpioPinNotMonitored.code(),
        Status::GpioSubscribeFailed.code(),
        Status::GpioUnsubscribeFailed.code(),
        Status::OneWireNoPresence.code(),
        Status::OneWireBusError.code(),
        Status::OneWireReadFailed.code(),
        Status::OneWireWriteFailed.code(),
        Status::OneWireSearchFailed.code(),
        Status::DeviceInfoFailed.code(),
        Status::SchemaMismatch.code(),
        Status::LegacyFirmware.code(),
        Status::Unsupported.code(),
        Status::I2cBatchFailed.code(),
        Status::SpiBatchFailed.code(),
        Status::SpiTransferFailed.code(),
        Status::SystemResetSubscriptionsFailed.code(),
    ];
    let unique: HashSet<i32> = codes.iter().copied().collect();
    assert_eq!(codes.len(), unique.len(), "duplicate status codes found");
}

#[test]
fn uart_error_to_status_maps_all_variants() {
    assert_eq!(uart_error_to_status(&PicoDeGalloError::Endpoint(UartError::BufferTooLong)), Status::BufferTooLong);
    assert_eq!(uart_error_to_status(&PicoDeGalloError::Endpoint(UartError::Overrun)), Status::UartOverrun);
    assert_eq!(uart_error_to_status(&PicoDeGalloError::Endpoint(UartError::Break)), Status::UartBreak);
    assert_eq!(uart_error_to_status(&PicoDeGalloError::Endpoint(UartError::Parity)), Status::UartParity);
    assert_eq!(uart_error_to_status(&PicoDeGalloError::Endpoint(UartError::Framing)), Status::UartFraming);
    assert_eq!(
        uart_error_to_status(&PicoDeGalloError::Endpoint(UartError::InvalidBaudRate)),
        Status::UartInvalidBaudRate
    );
    assert_eq!(uart_error_to_status(&PicoDeGalloError::Endpoint(UartError::Other)), Status::UartReadFailed);
    assert_eq!(uart_error_to_status(&PicoDeGalloError::Endpoint(UartError::Unsupported)), Status::Unsupported);
}

#[test]
fn adc_error_mapping() {
    assert_eq!(
        adc_error_to_status(&PicoDeGalloError::Endpoint(AdcError::ConversionFailed)),
        Status::AdcConversionFailed
    );
    assert_eq!(adc_error_to_status(&PicoDeGalloError::Endpoint(AdcError::Other)), Status::AdcReadFailed);
    assert_eq!(adc_error_to_status(&PicoDeGalloError::Endpoint(AdcError::Unsupported)), Status::Unsupported);
}

#[test]
fn gpio_error_to_status_maps_pin_monitored() {
    assert_eq!(gpio_error_to_status(&PicoDeGalloError::Endpoint(GpioError::PinMonitored)), Status::GpioPinMonitored);
}

#[test]
fn gpio_error_to_status_maps_pin_not_monitored() {
    assert_eq!(
        gpio_error_to_status(&PicoDeGalloError::Endpoint(GpioError::PinNotMonitored)),
        Status::GpioPinNotMonitored
    );
}

#[test]
fn gpio_subscribe_status_codes_are_stable() {
    assert_eq!(Status::GpioPinMonitored.code(), -53);
    assert_eq!(Status::GpioPinNotMonitored.code(), -54);
    assert_eq!(Status::GpioSubscribeFailed.code(), -55);
    assert_eq!(Status::GpioUnsubscribeFailed.code(), -56);
}

#[test]
fn onewire_error_mapping() {
    assert_eq!(onewire_error_to_status(&PicoDeGalloError::Endpoint(OneWireError::NoPresence)), Status::OneWireNoPresence);
    assert_eq!(onewire_error_to_status(&PicoDeGalloError::Endpoint(OneWireError::BusError)), Status::OneWireBusError);
    assert_eq!(onewire_error_to_status(&PicoDeGalloError::Endpoint(OneWireError::BufferTooLong)), Status::BufferTooLong);
    assert_eq!(onewire_error_to_status(&PicoDeGalloError::Endpoint(OneWireError::Other)), Status::OneWireReadFailed);
    assert_eq!(onewire_error_to_status(&PicoDeGalloError::Endpoint(OneWireError::Unsupported)), Status::Unsupported);
}

#[test]
fn onewire_status_codes_are_stable() {
    assert_eq!(Status::OneWireNoPresence.code(), -57);
    assert_eq!(Status::OneWireBusError.code(), -58);
    assert_eq!(Status::OneWireReadFailed.code(), -59);
    assert_eq!(Status::OneWireWriteFailed.code(), -60);
    assert_eq!(Status::OneWireSearchFailed.code(), -61);
    assert_eq!(Status::DeviceInfoFailed.code(), -62);
    assert_eq!(Status::SchemaMismatch.code(), -63);
    assert_eq!(Status::LegacyFirmware.code(), -64);
    assert_eq!(Status::Unsupported.code(), -65);
    assert_eq!(Status::I2cBatchFailed.code(), -66);
    assert_eq!(Status::SpiBatchFailed.code(), -67);
    assert_eq!(Status::SpiTransferFailed.code(), -68);
    assert_eq!(Status::SystemResetSubscriptionsFailed.code(), -69);
}

fn closed() -> CommsError {
    CommsError { closed: true, description: "Closed".to_string() }
}

#[test]
fn i2c_and_spi_error_statuses() {
    assert_eq!(i2c_error_to_status(&PicoDeGalloError::Endpoint(I2cError::NoAcknowledge)), Status::I2cNack);
    assert_eq!(i2c_error_to_status(&PicoDeGalloError::Endpoint(I2cError::Other)), Status::I2cReadFailed);
    assert_eq!(i2c_error_to_status(&PicoDeGalloError::Comms(closed())), Status::CommsFailed);
    assert_eq!(spi_error_to_status(&PicoDeGalloError::Endpoint(SpiError::Other)), Status::SpiReadFailed);
    assert_eq!(pwm_error_to_status(&PicoDeGalloError::Endpoint(PwmError::Other)), Status::PwmSetDutyCycleFailed);
    assert_eq!(pwm_error_to_status(&PicoDeGalloError::Comms(closed())), Status::CommsFailed);
}

#[test]
fn batch_argument_checks_in_order() {
    assert_eq!(check_batch_arguments(true, true, true, 100, true, 4), Some(Status::Uninitialized));
    assert_eq!(check_batch_arguments(false, true, false, 0, false, 0), Some(Status::InvalidArgument));
    assert_eq!(check_batch_arguments(false, false, true, 1, false, 0), Some(Status::InvalidArgument));
    assert_eq!(check_batch_arguments(false, false, true, 0, false, 0), None);
    assert_eq!(check_batch_arguments(false, false, false, 65, false, 0), Some(Status::InvalidArgument));
    assert_eq!(check_batch_arguments(false, false, false, 64, false, 0), None);
    assert_eq!(check_batch_arguments(false, false, false, 1, true, 8), Some(Status::InvalidArgument));
    assert_eq!(check_batch_arguments(false, false, false, 1, true, 0), None);
}

#[test]
fn translate_batch_ops_by_tag() {
    let raw = [
        GalloI2cBatchOp { tag: 1, read_len: 0, data: Some(vec![0x00, 0x10]), data_len: 2 },
        GalloI2cBatchOp { tag: 0, read_len: 16, data: None, data_len: 0 },
        GalloI2cBatchOp { tag: 1, read_len: 0, data: None, data_len: 0 },
    ];
    let ops = translate_i2c_batch_ops(&raw).unwrap();
    assert_eq!(
        ops,
        vec![
            I2cBatchOp::Write { data: vec![0x00, 0x10] },
            I2cBatchOp::Read { len: 16 },
            I2cBatchOp::Write { data: vec![] }
        ]
    );
    let bad_tag = [GalloI2cBatchOp { tag: 2, read_len: 0, data: None, data_len: 0 }];
    assert_eq!(translate_i2c_batch_ops(&bad_tag), Err(Status::InvalidArgument));
    let null_data = [GalloI2cBatchOp { tag: 1, read_len: 0, data: None, data_len: 3 }];
    assert_eq!(translate_i2c_batch_ops(&null_data), Err(Status::InvalidArgument));

    let raw = [
        GalloSpiBatchOp { tag: 2, read_len: 0, data: Some(vec![0xFF]), data_len: 1, delay_ns: 0 },
        GalloSpiBatchOp { tag: 3, read_len: 0, data: None, data_len: 0, delay_ns: 500 },
    ];
    let ops = translate_spi_batch_ops(&raw).unwrap();
    assert_eq!(ops, vec![SpiBatchOp::Transfer { data: vec![0xFF] }, SpiBatchOp::DelayNs { ns: 500 }]);
    let bad_tag = [GalloSpiBatchOp { tag: 4, read_len: 0, data: None, data_len: 0, delay_ns: 0 }];
    assert_eq!(translate_spi_batch_ops(&bad_tag), Err(Status::InvalidArgument));
}

#[test]
fn batch_outcomes() {
    let ok = i2c_batch_outcome(Ok(vec![1, 2, 3]), 4);
    assert_eq!((ok.status, ok.out_len, ok.failed_op, ok.data), (Status::Success, 3, None, vec![1, 2, 3]));
    let too_long = i2c_batch_outcome(Ok(vec![1, 2, 3]), 2);
    assert_eq!((too_long.status, too_long.out_len, too_long.data), (Status::BufferTooLong, 3, vec![]));
    let failed = i2c_batch_outcome(
        Err(PicoDeGalloError::Endpoint(I2cBatchError { failed_op: 2, kind: I2cError::NoAcknowledge })),
        16,
    );
    assert_eq!((failed.status, failed.out_len, failed.failed_op), (Status::I2cNack, 0, Some(2)));
    let comms = spi_batch_outcome(Err(PicoDeGalloError::Comms(closed())), 16);
    assert_eq!((comms.status, comms.out_len, comms.failed_op), (Status::CommsFailed, 0, None));
    let spi_failed = spi_batch_outcome(
        Err(PicoDeGalloError::Endpoint(SpiBatchError { failed_op: 1, kind: SpiError::BufferTooLong })),
        16,
    );
    assert_eq!((spi_failed.status, spi_failed.failed_op), (Status::BufferTooLong, Some(1)));
}

#[test]
fn read_length_and_copies() {
    assert_eq!(check_read_length(vec![1, 2], 2), Ok(vec![1, 2]));
    assert_eq!(check_read_length(vec![1, 2], 3), Err(Status::InvalidResponse));
    assert_eq!(scan_copy(&[0x10, 0x20, 0x30], 2), vec![0x10, 0x20]);
    assert_eq!(scan_copy(&[0x10], 8), vec![0x10]);
    assert_eq!(uart_read_copy(&[1, 2, 3, 4], 3), vec![1, 2, 3]);
}

#[test]
fn spi_mode_conversions() {
    let info = SpiConfigurationInfo {
        spi_frequency: 1_000_000,
        spi_phase: SpiPhase::CaptureOnSecondTransition,
        spi_polarity: SpiPolarity::IdleLow,
    };
    assert_eq!(spi_config_to_c(&info), (1_000_000, true, false));
    assert_eq!(spi_mode_from_c(false, true), (SpiPhase::CaptureOnFirstTransition, SpiPolarity::IdleHigh));
}

#[test]
fn device_info_outcomes() {
    let info = DeviceInfo {
        fw_major: 1,
        fw_minor: 2,
        fw_patch: 3,
        schema_major: 0,
        schema_minor: 4,
        schema_patch: 0,
        hw_version: 2,
        capabilities: Capabilities(0b101),
    };
    let (status, out) = device_info_outcome(&Ok(info));
    assert_eq!(status, Status::Success);
    assert_eq!(out.unwrap().capabilities, 0b101);
    let (status, out) = device_info_outcome(&Err(ValidateError::LegacyFirmware));
    assert_eq!((status, out.is_none()), (Status::LegacyFirmware, true));
    let (status, _) =
        device_info_outcome(&Err(ValidateError::SchemaMismatch { expected_minor: 4, actual_minor: 3 }));
    assert_eq!(status, Status::SchemaMismatch);
    let (status, _) = device_info_outcome(&Err(ValidateError::Comms(closed())));
    assert_eq!(status, Status::DeviceInfoFailed);
}

#[test]
fn rom_search_collects_until_done_or_full() {
    let mut s = RomSearch::new(2);
    assert!(s.wants_more());
    s.record(Ok(Some(0x28)));
    assert!(s.wants_more());
    s.record(Ok(Some(0x10)));
    assert!(!s.wants_more());
    assert_eq!(s.finished, Some(Status::Success));
    assert_eq!(s.count(), 2);
    assert_eq!(s.ids, vec![0x28, 0x10]);

    let mut empty = RomSearch::new(4);
    empty.record(Ok(None));
    assert_eq!((empty.finished, empty.count()), (Some(Status::Success), 0));

    let mut failing = RomSearch::new(4);
    failing.record(Ok(Some(1)));
    failing.record(Err(PicoDeGalloError::Endpoint(OneWireError::BusError)));
    assert_eq!(failing.finished, Some(Status::OneWireBusError));

    let mut no_room = RomSearch::new(0);
    no_room.record(Ok(Some(7)));
    assert_eq!((no_room.finished, no_room.count()), (Some(Status::Success), 0));
    assert!(no_room.ids.is_empty());

    let mut one_slot = RomSearch::new(1);
    one_slot.record(Ok(Some(9)));
    assert!(!one_slot.wants_more());
    assert_eq!(one_slot.ids, vec![9]);
}

#[test]
fn buffer_argument_checks() {
    assert_eq!(check_buffer_arguments(true, true, 70000), Some(Status::Uninitialized));
    assert_eq!(check_buffer_arguments(false, true, 4), Some(Status::InvalidArgument));
    assert_eq!(check_buffer_arguments(false, false, 65536), Some(Status::InvalidArgument));
    assert_eq!(check_buffer_arguments(false, false, 65535), None);
    assert_eq!(check_buffer_arguments(false, false, 0), None);
}

#[test]
fn spi_transfer_status_mapping() {
    assert_eq!(
        spi_transfer_error_to_status(&PicoDeGalloError::Endpoint(SpiError::Other)),
        Status::SpiTransferFailed
    );
    assert_eq!(
        spi_transfer_error_to_status(&PicoDeGalloError::Endpoint(SpiError::BufferTooLong)),
        Status::BufferTooLong
    );
    let comms = PicoDeGalloError::<SpiError>::Comms(CommsError { closed: true, description: String::new() });
    assert_eq!(spi_transfer_error_to_status(&comms), Status::CommsFailed);
    assert_eq!(Status::SpiTransferFailed.code(), -68);
}

// The argument checks of the C calls: a null context, null buffers and
// oversized lengths, decided before the device is touched.

#[test]
fn i2c_read_null_device_returns_uninitialized() {
    assert_eq!(check_buffer_arguments(true, false, 4), Some(Status::Uninitialized));
}

#[test]
fn i2c_write_null_device_returns_uninitialized() {
    assert_eq!(check_buffer_arguments(true, false, 4), Some(Status::Uninitialized));
}

#[test]
fn spi_transfer_null_device_returns_uninitialized() {
    assert_eq!(check_buffer_arguments(true, false, 4), Some(Status::Uninitialized));
}

#[test]
fn i2c_read_null_buffer_returns_invalid_argument() {
    // The context is null too: its check comes first.
    assert_eq!(check_buffer_arguments(true, true, 4), Some(Status::Uninitialized));
    assert_eq!(check_buffer_arguments(false, true, 4), Some(Status::InvalidArgument));
}

#[test]
fn spi_read_null_buffer_returns_invalid_argument() {
    assert_eq!(check_buffer_arguments(true, true, 4), Some(Status::Uninitialized));
    assert_eq!(check_buffer_arguments(false, true, 4), Some(Status::InvalidArgument));
}

#[test]
fn spi_transfer_null_write_buf_returns_invalid_argument() {
    let (write_null, read_null) = (true, false);
    assert_eq!(check_buffer_arguments(false, write_null || read_null, 4), Some(Status::InvalidArgument));
}

#[test]
fn spi_transfer_null_read_buf_returns_invalid_argument() {
    let (write_null, read_null) = (false, true);
    assert_eq!(check_buffer_arguments(false, write_null || read_null, 4), Some(Status::InvalidArgument));
}

#[test]
fn spi_transfer_oversized_returns_invalid_argument() {
    assert_eq!(check_buffer_arguments(false, false, u16::MAX as usize + 1), Some(Status::InvalidArgument));
}

#[test]
fn spi_batch_null_device_returns_uninitialized() {
    assert_eq!(check_batch_arguments(true, false, true, 0, true, 0), Some(Status::Uninitialized));
}

#[test]
fn spi_batch_null_out_len_returns_invalid_argument() {
    assert_eq!(check_batch_arguments(false, true, true, 0, true, 0), Some(Status::InvalidArgument));
}

#[test]
fn spi_batch_null_ops_with_nonzero_count_returns_invalid_argument() {
    assert_eq!(check_batch_arguments(false, false, true, 1, true, 0), Some(Status::InvalidArgument));
}

#[test]
fn spi_batch_too_many_ops_returns_invalid_argument() {
    assert_eq!(
        check_batch_arguments(false, false, false, MAX_BATCH_OPS + 1, true, 0),
        Some(Status::InvalidArgument)
    );
}

#[test]
fn i2c_batch_null_device_returns_uninitialized() {
    assert_eq!(check_batch_arguments(true, false, true, 0, true, 0), Some(Status::Uninitialized));
}

#[test]
fn i2c_batch_null_out_len_returns_invalid_argument() {
    assert_eq!(check_batch_arguments(false, true, true, 0, true, 0), Some(Status::InvalidArgument));
}

#[test]
fn i2c_batch_null_ops_with_nonzero_count_returns_invalid_argument() {
    assert_eq!(check_batch_arguments(false, false, true, 1, true, 0), Some(Status::InvalidArgument));
}

#[test]
fn i2c_batch_too_many_ops_returns_invalid_argument() {
    assert_eq!(
        check_batch_arguments(false, false, false, MAX_BATCH_OPS + 1, true, 0),
        Some(Status::InvalidArgument)
    );
}

#[test]
fn i2c_set_config_invalid_frequency_returns_invalid_argument() {
    assert_eq!(I2cFrequency::from_index(99), None);
    assert_eq!(I2cFrequency::from_index(2), Some(I2cFrequency::FastPlus));
}
