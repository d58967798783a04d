use pico_de_gallo::adc::AdcError;
use pico_de_gallo::client::{CommsError, PicoDeGalloError};
use pico_de_gallo::hal::{
    max_duty_or_default, transfer_copy, AdcHalError, I2cHalError, I2cHalErrorKind, PwmHalError, SpiHalError,
    SpiStage, SpiTransaction, UartHalError, UartHalErrorKind,
};
use pico_de_gallo::pwm::{PwmDutyCycleInfo, PwmError};
use pico_de_gallo::uart::UartError;
use pico_de_gallo::wire::{I2cError, SpiError};

#[test]
fn uart_hal_error_display() {
    let err = UartHalError::Uart(UartError::Framing);
    assert_eq!(err.message(), "UART framing error");

    let err = UartHalError::Comms("timeout".into());
    assert_eq!(err.message(), "communication error: timeout");
}

#[test]
fn uart_hal_error_from_endpoint() {
    let e: UartHalError = PicoDeGalloError::Endpoint(UartError::Break).into();
    assert!(matches!(e, UartHalError::Uart(UartError::Break)));
}

#[test]
fn uart_hal_error_from_comms() {
    let e = UartHalError::Comms("USB disconnected".into());
    assert!(matches!(e, UartHalError::Comms(_)));
}

#[test]
fn pwm_hal_error_display_endpoint() {
    let err = PwmHalError::Pwm(PwmError::InvalidChannel);
    assert_eq!(err.message(), "invalid PWM channel");
}

#[test]
fn pwm_hal_error_display_comms() {
    let err = PwmHalError::Comms("USB gone".into());
    assert_eq!(err.message(), "communication error: USB gone");
}

#[test]
fn adc_hal_error_display_conversion_failed() {
    let err = AdcHalError::Adc(AdcError::ConversionFailed);
    assert_eq!(err.message(), "ADC conversion failed");
}

#[test]
fn adc_hal_error_display_comms() {
    let err = AdcHalError::Comms("timeout".into());
    assert_eq!(err.message(), "communication error: timeout");
}

#[test]
fn adc_hal_error_from_endpoint() {
    let e: PicoDeGalloError<AdcError> = PicoDeGalloError::Endpoint(AdcError::Other);
    let hal_err = AdcHalError::from(e);
    match hal_err {
        AdcHalError::Adc(AdcError::Other) => {}
        other => panic!("expected Adc(Other), got {other:?}"),
    }
}

#[test]
fn i2c_error_kind_nack() {
    let err = I2cHalError::I2c(I2cError::NoAcknowledge);
    assert_eq!(err.kind(), I2cHalErrorKind::NoAcknowledge);
}

#[test]
fn i2c_error_kind_bus() {
    let err = I2cHalError::I2c(I2cError::Bus);
    assert_eq!(err.kind(), I2cHalErrorKind::Bus);
}

#[test]
fn i2c_error_kind_arbitration_loss() {
    let err = I2cHalError::I2c(I2cError::ArbitrationLoss);
    assert_eq!(err.kind(), I2cHalErrorKind::ArbitrationLoss);
}

#[test]
fn i2c_error_kind_overrun() {
    let err = I2cHalError::I2c(I2cError::Overrun);
    assert_eq!(err.kind(), I2cHalErrorKind::Overrun);
}

#[test]
fn i2c_error_kind_other_for_comms() {
    let err = I2cHalError::Comms("USB disconnected".into());
    assert_eq!(err.kind(), I2cHalErrorKind::Other);
}

#[test]
fn uart_error_kind_invalid_baud_rate() {
    let err = UartHalError::Uart(UartError::InvalidBaudRate);
    assert_eq!(err.kind(), UartHalErrorKind::InvalidInput);
}

#[test]
fn uart_error_kind_overrun() {
    let err = UartHalError::Uart(UartError::Overrun);
    assert_eq!(err.kind(), UartHalErrorKind::Other);
}

#[test]
fn uart_error_kind_comms() {
    let err = UartHalError::Comms("USB disconnected".into());
    assert_eq!(err.kind(), UartHalErrorKind::Other);
}

#[test]
fn comms_error_keeps_its_words() {
    let c = CommsError { closed: false, description: "BadResponse".to_string() };
    let e: SpiHalError = PicoDeGalloError::<SpiError>::Comms(c).into();
    assert!(matches!(e, SpiHalError::Comms(ref m) if m == "BadResponse"));
    assert_eq!(e.message(), "communication error: BadResponse");
}

#[test]
fn max_duty_falls_back_to_u16_max() {
    assert_eq!(max_duty_or_default(Ok(PwmDutyCycleInfo { current_duty: 5, max_duty: 999 })), 999);
    assert_eq!(max_duty_or_default(Err(PicoDeGalloError::Endpoint(PwmError::InvalidChannel))), u16::MAX);
}

#[test]
fn transfer_copies_the_common_prefix() {
    let mut read = vec![0u8; 4];
    transfer_copy(&mut read, &[1, 2]);
    assert_eq!(read, vec![1, 2, 0, 0]);
    let mut short = vec![9u8; 2];
    transfer_copy(&mut short, &[1, 2, 3]);
    assert_eq!(short, vec![1, 2]);
}

#[test]
fn spi_transaction_operation_error_beats_flush_error() {
    let mut t = SpiTransaction::new(2);
    t.cs_asserted(None);
    assert_eq!(t.stage, SpiStage::Op(0));
    t.op_done(Err(SpiHalError::Spi(SpiError::BufferTooLong)));
    assert_eq!(t.stage, SpiStage::Flush);
    t.flushed(Err(SpiHalError::Spi(SpiError::Other)));
    assert_eq!(t.stage, SpiStage::DeassertCs);
    t.cs_deasserted();
    assert_eq!(t.stage, SpiStage::Done);
    assert!(matches!(t.outcome, Some(Err(SpiHalError::Spi(SpiError::BufferTooLong)))));
}

#[test]
fn spi_transaction_reports_flush_error_when_ops_succeed() {
    let mut t = SpiTransaction::new(1);
    t.cs_asserted(None);
    t.op_done(Ok(()));
    assert_eq!(t.stage, SpiStage::Flush);
    t.flushed(Err(SpiHalError::Spi(SpiError::Other)));
    t.cs_deasserted();
    assert!(matches!(t.outcome, Some(Err(SpiHalError::Spi(SpiError::Other)))));
}

#[test]
fn spi_transaction_failed_assert_ends_at_once() {
    let mut t = SpiTransaction::new(3);
    t.cs_asserted(Some("Comms(Closed)".to_string()));
    assert_eq!(t.stage, SpiStage::Done);
    assert!(matches!(t.outcome, Some(Err(SpiHalError::Comms(ref m))) if m == "CS assert failed: Comms(Closed)"));
}

#[test]
fn spi_transaction_without_operations_flushes() {
    let mut t = SpiTransaction::new(0);
    t.cs_asserted(None);
    assert_eq!(t.stage, SpiStage::Flush);
    t.flushed(Ok(()));
    t.cs_deasserted();
    assert!(matches!(t.outcome, Some(Ok(()))));
}
