//! Status codes of the C interface and the mapping of every client error
//! onto them.
//!
//! `Success` is zero; every error is a distinct negative number, stable across
//! releases so that C callers can `switch` on it.

use vstd::prelude::*;
use crate::client::PicoDeGalloError;
use crate::wire::{I2cError, SpiError};
use crate::peripherals::GpioError;
use crate::uart::UartError;
use crate::pwm::PwmError;
use crate::adc::AdcError;
use crate::onewire::OneWireError;

verus! {

/// Status code returned by every function of the C interface.
#[derive(Debug, Clone, Copy, PartialEq, Eq, Structural)]
pub enum Status {
    /// Operation successful
    Success,
    /// I2c Read failed
    I2cReadFailed,
    /// I2c Write failed
    I2cWriteFailed,
    /// Firmware produced an invalid response
    InvalidResponse,
    /// Library was not initialized
    Uninitialized,
    /// Caller passed an invalid argument
    InvalidArgument,
    /// Ping failed
    PingFailed,
    /// Spi Read failed
    SpiReadFailed,
    /// Spi Write failed
    SpiWriteFailed,
    /// Spi Flush failed
    SpiFlushFailed,
    /// Gpio get failed
    GpioGetFailed,
    /// Gpio put failed
    GpioPutFailed,
    /// Gpio wait failed
    GpioWaitFailed,
    /// Set config failed
    SetConfigFailed,
    /// Version failed
    VersionFailed,
    /// I2c Write Read failed
    I2cWriteReadFailed,
    /// I2c Set config failed
    I2cSetConfigFailed,
    /// Spi Set config failed
    SpiSetConfigFailed,
    /// I2C target did not acknowledge
    I2cNack,
    /// I2C bus error
    I2cBusError,
    /// I2C arbitration loss
    I2cArbitrationLoss,
    /// I2C data overrun
    I2cOverrun,
    /// Buffer exceeds firmware transfer limit
    BufferTooLong,
    /// I2C address out of range
    I2cAddressOutOfRange,
    /// GPIO pin number is invalid
    GpioInvalidPin,
    /// USB communication failure
    CommsFailed,
    /// I2C bus scan failed
    I2cScanFailed,
    /// GPIO set config failed
    GpioSetConfigFailed,
    /// GPIO pin configured in wrong direction for the requested operation
    GpioWrongDirection,
    /// I2C get-config query failed
    I2cGetConfigFailed,
    /// SPI get-config query failed
    SpiGetConfigFailed,
    /// UART read failed
    UartReadFailed,
    /// UART write failed
    UartWriteFailed,
    /// UART flush failed
    UartFlushFailed,
    /// UART receiver overrun
    UartOverrun,
    /// UART break condition detected
    UartBreak,
    /// UART parity error
    UartParity,
    /// UART framing error
    UartFraming,
    /// Invalid baud rate
    UartInvalidBaudRate,
    /// UART set-config failed
    UartSetConfigFailed,
    /// UART get-config query failed
    UartGetConfigFailed,
    /// PWM set-duty-cycle failed
    PwmSetDutyCycleFailed,
    /// PWM get-duty-cycle query failed
    PwmGetDutyCycleFailed,
    /// PWM enable failed
    PwmEnableFailed,
    /// PWM disable failed
    PwmDisableFailed,
    /// PWM set-config failed
    PwmSetConfigFailed,
    /// PWM get-config query failed
    PwmGetConfigFailed,
    /// Invalid PWM channel
    PwmInvalidChannel,
    /// Invalid PWM duty cycle
    PwmInvalidDutyCycle,
    /// Invalid PWM configuration
    PwmInvalidConfiguration,
    /// ADC read failed
    AdcReadFailed,
    /// ADC get-config query failed
    AdcGetConfigFailed,
    /// ADC conversion error
    AdcConversionFailed,
    /// GPIO pin is currently being monitored (subscribed)
    GpioPinMonitored,
    /// GPIO pin is not being monitored (not subscribed)
    GpioPinNotMonitored,
    /// GPIO subscribe failed
    GpioSubscribeFailed,
    /// GPIO unsubscribe failed
    GpioUnsubscribeFailed,
    /// 1-Wire: no device responded to reset
    OneWireNoPresence,
    /// 1-Wire: bus communication error
    OneWireBusError,
    /// 1-Wire: read operation failed
    OneWireReadFailed,
    /// 1-Wire: write operation failed
    OneWireWriteFailed,
    /// 1-Wire: ROM search failed
    OneWireSearchFailed,
    /// Device info query failed
    DeviceInfoFailed,
    /// Schema version mismatch between host and firmware
    SchemaMismatch,
    /// Firmware does not support the device/info endpoint
    LegacyFirmware,
    /// Peripheral is not supported on this hardware revision
    Unsupported,
    /// I2C batch transaction failed
    I2cBatchFailed,
    /// SPI batch transaction failed
    SpiBatchFailed,
    /// SPI full-duplex transfer failed
    SpiTransferFailed,
    /// Resetting server-side subscriptions failed
    SystemResetSubscriptionsFailed,
}

impl Status {
    /// The stable numeric code of each status.
    pub open spec fn spec_code(self) -> i32 {
        match self {
            Status::Success => 0i32,
            Status::I2cReadFailed => -1i32,
            Status::I2cWriteFailed => -2i32,
            Status::InvalidResponse => -3i32,
            Status::Uninitialized => -4i32,
            Status::InvalidArgument => -5i32,
            Status::PingFailed => -6i32,
            Status::SpiReadFailed => -7i32,
            Status::SpiWriteFailed => -8i32,
            Status::SpiFlushFailed => -9i32,
            Status::GpioGetFailed => -10i32,
            Status::GpioPutFailed => -11i32,
            Status::GpioWaitFailed => -12i32,
            Status::SetConfigFailed => -13i32,
            Status::VersionFailed => -14i32,
            Status::I2cWriteReadFailed => -15i32,
            Status::I2cSetConfigFailed => -16i32,
            Status::SpiSetConfigFailed => -17i32,
            Status::I2cNack => -18i32,
            Status::I2cBusError => -19i32,
            Status::I2cArbitrationLoss => -20i32,
            Status::I2cOverrun => -21i32,
            Status::BufferTooLong => -22i32,
            Status::I2cAddressOutOfRange => -23i32,
            Status::GpioInvalidPin => -24i32,
            Status::CommsFailed => -25i32,
            Status::I2cScanFailed => -26i32,
            Status::GpioSetConfigFailed => -27i32,
            Status::GpioWrongDirection => -28i32,
            Status::I2cGetConfigFailed => -29i32,
            Status::SpiGetConfigFailed => -30i32,
            Status::UartReadFailed => -31i32,
            Status::UartWriteFailed => -32i32,
            Status::UartFlushFailed => -33i32,
            Status::UartOverrun => -34i32,
            Status::UartBreak => -35i32,
            Status::UartParity => -36i32,
            Status::UartFraming => -37i32,
            Status::UartInvalidBaudRate => -38i32,
            Status::UartSetConfigFailed => -39i32,
            Status::UartGetConfigFailed => -40i32,
            Status::PwmSetDutyCycleFailed => -41i32,
            Status::PwmGetDutyCycleFailed => -42i32,
            Status::PwmEnableFailed => -43i32,
            Status::PwmDisableFailed => -44i32,
            Status::PwmSetConfigFailed => -45i32,
            Status::PwmGetConfigFailed => -46i32,
            Status::PwmInvalidChannel => -47i32,
            Status::PwmInvalidDutyCycle => -48i32,
            Status::PwmInvalidConfiguration => -49i32,
            Status::AdcReadFailed => -50i32,
            Status::AdcGetConfigFailed => -51i32,
            Status::AdcConversionFailed => -52i32,
            Status::GpioPinMonitored => -53i32,
            Status::GpioPinNotMonitored => -54i32,
            Status::GpioSubscribeFailed => -55i32,
            Status::GpioUnsubscribeFailed => -56i32,
            Status::OneWireNoPresence => -57i32,
            Status::OneWireBusError => -58i32,
            Status::OneWireReadFailed => -59i32,
            Status::OneWireWriteFailed => -60i32,
            Status::OneWireSearchFailed => -61i32,
            Status::DeviceInfoFailed => -62i32,
            Status::SchemaMismatch => -63i32,
            Status::LegacyFirmware => -64i32,
            Status::Unsupported => -65i32,
            Status::I2cBatchFailed => -66i32,
            Status::SpiBatchFailed => -67i32,
            Status::SpiTransferFailed => -68i32,
            Status::SystemResetSubscriptionsFailed => -69i32,
        }
    }

    /// The numeric code of this status, as the C interface returns it.
    pub fn code(&self) -> (res: i32)
        ensures
            res == self.spec_code(),
    {
        match self {
            Status::Success => 0,
            Status::I2cReadFailed => -1,
            Status::I2cWriteFailed => -2,
            Status::InvalidResponse => -3,
            Status::Uninitialized => -4,
            Status::InvalidArgument => -5,
            Status::PingFailed => -6,
            Status::SpiReadFailed => -7,
            Status::SpiWriteFailed => -8,
            Status::SpiFlushFailed => -9,
            Status::GpioGetFailed => -10,
            Status::GpioPutFailed => -11,
            Status::GpioWaitFailed => -12,
            Status::SetConfigFailed => -13,
            Status::VersionFailed => -14,
            Status::I2cWriteReadFailed => -15,
            Status::I2cSetConfigFailed => -16,
            Status::SpiSetConfigFailed => -17,
            Status::I2cNack => -18,
            Status::I2cBusError => -19,
            Status::I2cArbitrationLoss => -20,
            Status::I2cOverrun => -21,
            Status::BufferTooLong => -22,
            Status::I2cAddressOutOfRange => -23,
            Status::GpioInvalidPin => -24,
            Status::CommsFailed => -25,
            Status::I2cScanFailed => -26,
            Status::GpioSetConfigFailed => -27,
            Status::GpioWrongDirection => -28,
            Status::I2cGetConfigFailed => -29,
            Status::SpiGetConfigFailed => -30,
            Status::UartReadFailed => -31,
            Status::UartWriteFailed => -32,
            Status::UartFlushFailed => -33,
            Status::UartOverrun => -34,
            Status::UartBreak => -35,
            Status::UartParity => -36,
            Status::UartFraming => -37,
            Status::UartInvalidBaudRate => -38,
            Status::UartSetConfigFailed => -39,
            Status::UartGetConfigFailed => -40,
            Status::PwmSetDutyCycleFailed => -41,
            Status::PwmGetDutyCycleFailed => -42,
            Status::PwmEnableFailed => -43,
            Status::PwmDisableFailed => -44,
            Status::PwmSetConfigFailed => -45,
            Status::PwmGetConfigFailed => -46,
            Status::PwmInvalidChannel => -47,
            Status::PwmInvalidDutyCycle => -48,
            Status::PwmInvalidConfiguration => -49,
            Status::AdcReadFailed => -50,
            Status::AdcGetConfigFailed => -51,
            Status::AdcConversionFailed => -52,
            Status::GpioPinMonitored => -53,
            Status::GpioPinNotMonitored => -54,
            Status::GpioSubscribeFailed => -55,
            Status::GpioUnsubscribeFailed => -56,
            Status::OneWireNoPresence => -57,
            Status::OneWireBusError => -58,
            Status::OneWireReadFailed => -59,
            Status::OneWireWriteFailed => -60,
            Status::OneWireSearchFailed => -61,
            Status::DeviceInfoFailed => -62,
            Status::SchemaMismatch => -63,
            Status::LegacyFirmware => -64,
            Status::Unsupported => -65,
            Status::I2cBatchFailed => -66,
            Status::SpiBatchFailed => -67,
            Status::SpiTransferFailed => -68,
            Status::SystemResetSubscriptionsFailed => -69,
        }
    }
}

/// The status that carries a code, if any.
pub open spec fn spec_status_of_code(code: i32) -> Option<Status> {
    if code == 0 {
        Some(Status::Success)
    } else if code == -1 {
        Some(Status::I2cReadFailed)
    } else if code == -2 {
        Some(Status::I2cWriteFailed)
    } else if code == -3 {
        Some(Status::InvalidResponse)
    } else if code == -4 {
        Some(Status::Uninitialized)
    } else if code == -5 {
        Some(Status::InvalidArgument)
    } else if code == -6 {
        Some(Status::PingFailed)
    } else if code == -7 {
        Some(Status::SpiReadFailed)
    } else if code == -8 {
        Some(Status::SpiWriteFailed)
    } else if code == -9 {
        Some(Status::SpiFlushFailed)
    } else if code == -10 {
        Some(Status::GpioGetFailed)
    } else if code == -11 {
        Some(Status::GpioPutFailed)
    } else if code == -12 {
        Some(Status::GpioWaitFailed)
    } else if code == -13 {
        Some(Status::SetConfigFailed)
    } else if code == -14 {
        Some(Status::VersionFailed)
    } else if code == -15 {
        Some(Status::I2cWriteReadFailed)
    } else if code == -16 {
        Some(Status::I2cSetConfigFailed)
    } else if code == -17 {
        Some(Status::SpiSetConfigFailed)
    } else if code == -18 {
        Some(Status::I2cNack)
    } else if code == -19 {
        Some(Status::I2cBusError)
    } else if code == -20 {
        Some(Status::I2cArbitrationLoss)
    } else if code == -21 {
        Some(Status::I2cOverrun)
    } else if code == -22 {
        Some(Status::BufferTooLong)
    } else if code == -23 {
        Some(Status::I2cAddressOutOfRange)
    } else if code == -24 {
        Some(Status::GpioInvalidPin)
    } else if code == -25 {
        Some(Status::CommsFailed)
    } else if code == -26 {
        Some(Status::I2cScanFailed)
    } else if code == -27 {
        Some(Status::GpioSetConfigFailed)
    } else if code == -28 {
        Some(Status::GpioWrongDirection)
    } else if code == -29 {
        Some(Status::I2cGetConfigFailed)
    } else if code == -30 {
        Some(Status::SpiGetConfigFailed)
    } else if code == -31 {
        Some(Status::UartReadFailed)
    } else if code == -32 {
        Some(Status::UartWriteFailed)
    } else if code == -33 {
        Some(Status::UartFlushFailed)
    } else if code == -34 {
        Some(Status::UartOverrun)
    } else if code == -35 {
        Some(Status::UartBreak)
    } else if code == -36 {
        Some(Status::UartParity)
    } else if code == -37 {
        Some(Status::UartFraming)
    } else if code == -38 {
        Some(Status::UartInvalidBaudRate)
    } else if code == -39 {
        Some(Status::UartSetConfigFailed)
    } else if code == -40 {
        Some(Status::UartGetConfigFailed)
    } else if code == -41 {
        Some(Status::PwmSetDutyCycleFailed)
    } else if code == -42 {
        Some(Status::PwmGetDutyCycleFailed)
    } else if code == -43 {
        Some(Status::PwmEnableFailed)
    } else if code == -44 {
        Some(Status::PwmDisableFailed)
    } else if code == -45 {
        Some(Status::PwmSetConfigFailed)
    } else if code == -46 {
        Some(Status::PwmGetConfigFailed)
    } else if code == -47 {
        Some(Status::PwmInvalidChannel)
    } else if code == -48 {
        Some(Status::PwmInvalidDutyCycle)
    } else if code == -49 {
        Some(Status::PwmInvalidConfiguration)
    } else if code == -50 {
        Some(Status::AdcReadFailed)
    } else if code == -51 {
        Some(Status::AdcGetConfigFailed)
    } else if code == -52 {
        Some(Status::AdcConversionFailed)
    } else if code == -53 {
        Some(Status::GpioPinMonitored)
    } else if code == -54 {
        Some(Status::GpioPinNotMonitored)
    } else if code == -55 {
        Some(Status::GpioSubscribeFailed)
    } else if code == -56 {
        Some(Status::GpioUnsubscribeFailed)
    } else if code == -57 {
        Some(Status::OneWireNoPresence)
    } else if code == -58 {
        Some(Status::OneWireBusError)
    } else if code == -59 {
        Some(Status::OneWireReadFailed)
    } else if code == -60 {
        Some(Status::OneWireWriteFailed)
    } else if code == -61 {
        Some(Status::OneWireSearchFailed)
    } else if code == -62 {
        Some(Status::DeviceInfoFailed)
    } else if code == -63 {
        Some(Status::SchemaMismatch)
    } else if code == -64 {
        Some(Status::LegacyFirmware)
    } else if code == -65 {
        Some(Status::Unsupported)
    } else if code == -66 {
        Some(Status::I2cBatchFailed)
    } else if code == -67 {
        Some(Status::SpiBatchFailed)
    } else if code == -68 {
        Some(Status::SpiTransferFailed)
    } else if code == -69 {
        Some(Status::SystemResetSubscriptionsFailed)
    } else {
        None
    }
}

/// Every status is recovered from its code.
pub proof fn lemma_code_recovers_status(s: Status)
    ensures
        spec_status_of_code(s.spec_code()) == Some(s),
{
}

/// Status codes are stable: `Success` is zero, every other status is negative,
/// and no two statuses share a code.
pub proof fn lemma_status_codes(a: Status, b: Status)
    ensures
        (a == Status::Success) <==> a.spec_code() == 0,
        a != Status::Success ==> a.spec_code() < 0,
        a.spec_code() == b.spec_code() ==> a == b,
{
    lemma_code_recovers_status(a);
    lemma_code_recovers_status(b);
}

/// The status of each I2C endpoint error.
pub open spec fn spec_i2c_endpoint_status(k: I2cError) -> Status {
    match k {
        I2cError::NoAcknowledge => Status::I2cNack,
        I2cError::Bus => Status::I2cBusError,
        I2cError::ArbitrationLoss => Status::I2cArbitrationLoss,
        I2cError::Overrun => Status::I2cOverrun,
        I2cError::BufferTooLong => Status::BufferTooLong,
        I2cError::AddressOutOfRange => Status::I2cAddressOutOfRange,
        I2cError::Other => Status::I2cReadFailed,
    }
}

/// The status of each SPI endpoint error.
pub open spec fn spec_spi_endpoint_status(k: SpiError) -> Status {
    match k {
        SpiError::BufferTooLong => Status::BufferTooLong,
        SpiError::Other => Status::SpiReadFailed,
    }
}

/// The status of a failed I2C request.
pub fn i2c_error_to_status(e: &PicoDeGalloError<I2cError>) -> (res: Status)
    ensures
        res == match e {
            PicoDeGalloError::Endpoint(k) => spec_i2c_endpoint_status(*k),
            PicoDeGalloError::Comms(_) => Status::CommsFailed,
        },
{
    match e {
        PicoDeGalloError::Endpoint(I2cError::NoAcknowledge) => Status::I2cNack,
        PicoDeGalloError::Endpoint(I2cError::Bus) => Status::I2cBusError,
        PicoDeGalloError::Endpoint(I2cError::ArbitrationLoss) => Status::I2cArbitrationLoss,
        PicoDeGalloError::Endpoint(I2cError::Overrun) => Status::I2cOverrun,
        PicoDeGalloError::Endpoint(I2cError::BufferTooLong) => Status::BufferTooLong,
        PicoDeGalloError::Endpoint(I2cError::AddressOutOfRange) => Status::I2cAddressOutOfRange,
        PicoDeGalloError::Endpoint(I2cError::Other) => Status::I2cReadFailed,
        PicoDeGalloError::Comms(_) => Status::CommsFailed,
    }
}

/// The status of a failed SPI request.
pub fn spi_error_to_status(e: &PicoDeGalloError<SpiError>) -> (res: Status)
    ensures
        res == match e {
            PicoDeGalloError::Endpoint(k) => spec_spi_endpoint_status(*k),
            PicoDeGalloError::Comms(_) => Status::CommsFailed,
        },
{
    match e {
        PicoDeGalloError::Endpoint(SpiError::BufferTooLong) => Status::BufferTooLong,
        PicoDeGalloError::Endpoint(SpiError::Other) => Status::SpiReadFailed,
        PicoDeGalloError::Comms(_) => Status::CommsFailed,
    }
}

/// The status of a failed GPIO request.
pub fn gpio_error_to_status(e: &PicoDeGalloError<GpioError>) -> (res: Status)
    ensures
        res == match e {
            PicoDeGalloError::Endpoint(GpioError::InvalidPin) => Status::GpioInvalidPin,
            PicoDeGalloError::Endpoint(GpioError::WrongDirection) => Status::GpioWrongDirection,
            PicoDeGalloError::Endpoint(GpioError::PinMonitored) => Status::GpioPinMonitored,
            PicoDeGalloError::Endpoint(GpioError::PinNotMonitored) => Status::GpioPinNotMonitored,
            PicoDeGalloError::Endpoint(GpioError::Other) => Status::GpioGetFailed,
            PicoDeGalloError::Comms(_) => Status::CommsFailed,
        },
{
    match e {
        PicoDeGalloError::Endpoint(GpioError::InvalidPin) => Status::GpioInvalidPin,
        PicoDeGalloError::Endpoint(GpioError::WrongDirection) => Status::GpioWrongDirection,
        PicoDeGalloError::Endpoint(GpioError::PinMonitored) => Status::GpioPinMonitored,
        PicoDeGalloError::Endpoint(GpioError::PinNotMonitored) => Status::GpioPinNotMonitored,
        PicoDeGalloError::Endpoint(GpioError::Other) => Status::GpioGetFailed,
        PicoDeGalloError::Comms(_) => Status::CommsFailed,
    }
}

/// The status of a failed UART request.
pub fn uart_error_to_status(e: &PicoDeGalloError<UartError>) -> (res: Status)
    ensures
        res == match e {
            PicoDeGalloError::Endpoint(UartError::BufferTooLong) => Status::BufferTooLong,
            PicoDeGalloError::Endpoint(UartError::Overrun) => Status::UartOverrun,
            PicoDeGalloError::Endpoint(UartError::Break) => Status::UartBreak,
            PicoDeGalloError::Endpoint(UartError::Parity) => Status::UartParity,
            PicoDeGalloError::Endpoint(UartError::Framing) => Status::UartFraming,
            PicoDeGalloError::Endpoint(UartError::InvalidBaudRate) => Status::UartInvalidBaudRate,
            PicoDeGalloError::Endpoint(UartError::Other) => Status::UartReadFailed,
            PicoDeGalloError::Endpoint(UartError::Unsupported) => Status::Unsupported,
            PicoDeGalloError::Comms(_) => Status::CommsFailed,
        },
{
    match e {
        PicoDeGalloError::Endpoint(UartError::BufferTooLong) => Status::BufferTooLong,
        PicoDeGalloError::Endpoint(UartError::Overrun) => Status::UartOverrun,
        PicoDeGalloError::Endpoint(UartError::Break) => Status::UartBreak,
        PicoDeGalloError::Endpoint(UartError::Parity) => Status::UartParity,
        PicoDeGalloError::Endpoint(UartError::Framing) => Status::UartFraming,
        PicoDeGalloError::Endpoint(UartError::InvalidBaudRate) => Status::UartInvalidBaudRate,
        PicoDeGalloError::Endpoint(UartError::Other) => Status::UartReadFailed,
        PicoDeGalloError::Endpoint(UartError::Unsupported) => Status::Unsupported,
        PicoDeGalloError::Comms(_) => Status::CommsFailed,
    }
}

/// The status of a failed PWM request.
pub fn pwm_error_to_status(e: &PicoDeGalloError<PwmError>) -> (res: Status)
    ensures
        res == match e {
            PicoDeGalloError::Endpoint(PwmError::InvalidChannel) => Status::PwmInvalidChannel,
            PicoDeGalloError::Endpoint(PwmError::InvalidDutyCycle) => Status::PwmInvalidDutyCycle,
            PicoDeGalloError::Endpoint(PwmError::InvalidConfiguration) => Status::PwmInvalidConfiguration,
            PicoDeGalloError::Endpoint(PwmError::Other) => Status::PwmSetDutyCycleFailed,
            PicoDeGalloError::Comms(_) => Status::CommsFailed,
        },
{
    match e {
        PicoDeGalloError::Endpoint(PwmError::InvalidChannel) => Status::PwmInvalidChannel,
        PicoDeGalloError::Endpoint(PwmError::InvalidDutyCycle) => Status::PwmInvalidDutyCycle,
        PicoDeGalloError::Endpoint(PwmError::InvalidConfiguration) => Status::PwmInvalidConfiguration,
        PicoDeGalloError::Endpoint(PwmError::Other) => Status::PwmSetDutyCycleFailed,
        PicoDeGalloError::Comms(_) => Status::CommsFailed,
    }
}

/// The status of a failed ADC request.
pub fn adc_error_to_status(e: &PicoDeGalloError<AdcError>) -> (res: Status)
    ensures
        res == match e {
            PicoDeGalloError::Endpoint(AdcError::ConversionFailed) => Status::AdcConversionFailed,
            PicoDeGalloError::Endpoint(AdcError::Other) => Status::AdcReadFailed,
            PicoDeGalloError::Endpoint(AdcError::Unsupported) => Status::Unsupported,
            PicoDeGalloError::Comms(_) => Status::CommsFailed,
        },
{
    match e {
        PicoDeGalloError::Endpoint(AdcError::ConversionFailed) => Status::AdcConversionFailed,
        PicoDeGalloError::Endpoint(AdcError::Other) => Status::AdcReadFailed,
        PicoDeGalloError::Endpoint(AdcError::Unsupported) => Status::Unsupported,
        PicoDeGalloError::Comms(_) => Status::CommsFailed,
    }
}

/// The status of a failed 1-Wire request.
pub fn onewire_error_to_status(e: &PicoDeGalloError<OneWireError>) -> (res: Status)
    ensures
        res == match e {
            PicoDeGalloError::Endpoint(OneWireError::NoPresence) => Status::OneWireNoPresence,
            PicoDeGalloError::Endpoint(OneWireError::BusError) => Status::OneWireBusError,
            PicoDeGalloError::Endpoint(OneWireError::BufferTooLong) => Status::BufferTooLong,
            PicoDeGalloError::Endpoint(OneWireError::Other) => Status::OneWireReadFailed,
            PicoDeGalloError::Endpoint(OneWireError::Unsupported) => Status::Unsupported,
            PicoDeGalloError::Comms(_) => Status::CommsFailed,
        },
{
    match e {
        PicoDeGalloError::Endpoint(OneWireError::NoPresence) => Status::OneWireNoPresence,
        PicoDeGalloError::Endpoint(OneWireError::BusError) => Status::OneWireBusError,
        PicoDeGalloError::Endpoint(OneWireError::BufferTooLong) => Status::BufferTooLong,
        PicoDeGalloError::Endpoint(OneWireError::Other) => Status::OneWireReadFailed,
        PicoDeGalloError::Endpoint(OneWireError::Unsupported) => Status::Unsupported,
        PicoDeGalloError::Comms(_) => Status::CommsFailed,
    }
}

} // verus!
