use pico_de_gallo::adc::{AdcChannel, AdcError};
use pico_de_gallo::batch::{
    decode_i2c_batch_ops, decode_spi_batch_ops, encode_i2c_batch_ops, encode_spi_batch_ops,
    i2c_batch_response_len, spi_batch_response_len, I2cBatchError, I2cBatchOp, SpiBatchError,
    SpiBatchOp,
};
use pico_de_gallo::device::Capabilities;
use pico_de_gallo::onewire::OneWireError;
use pico_de_gallo::peripherals::{GpioDirection, GpioEdge, GpioError, GpioPull, GpioState};
use pico_de_gallo::pwm::PwmError;
use pico_de_gallo::uart::UartError;
use pico_de_gallo::wire::{I2cError, I2cFrequency, SpiError, SpiPhase, SpiPolarity, MAX_BATCH_OPS};

#[test]
fn gpio_state_from_bool() {
    assert_eq!(GpioState::from(true), GpioState::High);
    assert_eq!(GpioState::from(false), GpioState::Low);
}

#[test]
fn bool_from_gpio_state() {
    assert!(bool::from(GpioState::High));
    assert!(!bool::from(GpioState::Low));
}

#[test]
fn i2c_error_display() {
    assert_eq!(I2cError::NoAcknowledge.message(), "no acknowledge from target");
    assert_eq!(I2cError::Bus.message(), "I2C bus error");
    assert_eq!(I2cError::ArbitrationLoss.message(), "I2C arbitration loss");
    assert_eq!(I2cError::Overrun.message(), "I2C data overrun");
    assert_eq!(I2cError::BufferTooLong.message(), "buffer exceeds firmware limit");
    assert_eq!(I2cError::AddressOutOfRange.message(), "I2C address out of range");
    assert_eq!(I2cError::Other.message(), "I2C error");
}

#[test]
fn spi_error_display() {
    assert_eq!(SpiError::BufferTooLong.message(), "buffer exceeds firmware limit");
    assert_eq!(SpiError::Other.message(), "SPI error");
}

#[test]
fn gpio_error_display() {
    assert_eq!(GpioError::InvalidPin.message(), "invalid GPIO pin number");
    assert_eq!(GpioError::Other.message(), "GPIO error");
    assert_eq!(GpioError::WrongDirection.message(), "GPIO pin configured in wrong direction");
    assert_eq!(GpioError::PinMonitored.message(), "GPIO pin is being monitored for events");
    assert_eq!(GpioError::PinNotMonitored.message(), "GPIO pin is not monitored");
}

#[test]
fn uart_error_display() {
    assert_eq!(UartError::BufferTooLong.message(), "buffer exceeds firmware limit");
    assert_eq!(UartError::Overrun.message(), "UART receiver overrun");
    assert_eq!(UartError::Break.message(), "UART break condition");
    assert_eq!(UartError::Parity.message(), "UART parity error");
    assert_eq!(UartError::Framing.message(), "UART framing error");
    assert_eq!(UartError::InvalidBaudRate.message(), "invalid baud rate");
    assert_eq!(UartError::Other.message(), "UART error");
    assert_eq!(UartError::Unsupported.message(), "UART not supported on this hardware");
}

#[test]
fn pwm_error_display() {
    assert_eq!(PwmError::InvalidChannel.message(), "invalid PWM channel");
    assert_eq!(PwmError::InvalidDutyCycle.message(), "duty cycle exceeds maximum");
    assert_eq!(PwmError::InvalidConfiguration.message(), "invalid PWM configuration");
    assert_eq!(PwmError::Other.message(), "PWM error");
}

#[test]
fn adc_channel_display() {
    assert_eq!(AdcChannel::Adc0.message(), "ADC0 (GPIO26)");
    assert_eq!(AdcChannel::Adc1.message(), "ADC1 (GPIO27)");
    assert_eq!(AdcChannel::Adc2.message(), "ADC2 (GPIO28)");
    assert_eq!(AdcChannel::Adc3.message(), "ADC3 (GPIO29)");
}

#[test]
fn adc_error_display() {
    assert_eq!(AdcError::ConversionFailed.message(), "ADC conversion failed");
    assert_eq!(AdcError::Other.message(), "ADC error");
    assert_eq!(AdcError::Unsupported.message(), "ADC not supported on this hardware");
}

#[test]
fn onewire_error_display() {
    assert_eq!(OneWireError::NoPresence.message(), "no device present on 1-Wire bus");
    assert_eq!(OneWireError::BusError.message(), "1-Wire bus error");
    assert_eq!(OneWireError::BufferTooLong.message(), "buffer exceeds firmware limit");
    assert_eq!(OneWireError::Other.message(), "1-Wire error");
    assert_eq!(OneWireError::Unsupported.message(), "1-Wire not supported on this hardware");
}

#[test]
fn i2c_batch_error_display() {
    let err = I2cBatchError { failed_op: 2, kind: I2cError::Bus };
    assert_eq!(err.message(), "I2C batch operation 2 failed: I2C bus error");
}

#[test]
fn spi_batch_error_display() {
    let err = SpiBatchError { failed_op: 0, kind: SpiError::Other };
    assert_eq!(err.message(), "SPI batch operation 0 failed: SPI error");
}

#[test]
fn capabilities_bitflag_basics() {
    let caps = Capabilities::I2C() | Capabilities::SPI();
    assert!(caps.contains(Capabilities::I2C()));
    assert!(caps.contains(Capabilities::SPI()));
    assert!(!caps.contains(Capabilities::UART()));
    assert!(!caps.contains(Capabilities::GPIO()));
    assert_eq!(caps.bits(), 0b11);
}

#[test]
fn capabilities_none_is_zero() {
    assert_eq!(Capabilities::NONE().bits(), 0);
    assert!(!Capabilities::NONE().contains(Capabilities::I2C()));
}

#[test]
fn i2c_frequency_discriminants_are_stable() {
    assert_eq!(I2cFrequency::Standard.index(), 0);
    assert_eq!(I2cFrequency::Fast.index(), 1);
    assert_eq!(I2cFrequency::FastPlus.index(), 2);
}

#[test]
fn spi_phase_discriminants_are_stable() {
    assert_eq!(SpiPhase::CaptureOnFirstTransition.index(), 0);
    assert_eq!(SpiPhase::CaptureOnSecondTransition.index(), 1);
}

#[test]
fn spi_polarity_discriminants_are_stable() {
    assert_eq!(SpiPolarity::IdleLow.index(), 0);
    assert_eq!(SpiPolarity::IdleHigh.index(), 1);
}

#[test]
fn gpio_state_discriminants_are_stable() {
    assert_eq!(GpioState::Low.index(), 0);
    assert_eq!(GpioState::High.index(), 1);
}

#[test]
fn gpio_direction_discriminants_are_stable() {
    assert_eq!(GpioDirection::Input.index(), 0);
    assert_eq!(GpioDirection::Output.index(), 1);
}

#[test]
fn gpio_pull_discriminants_are_stable() {
    assert_eq!(GpioPull::NoPull.index(), 0);
    assert_eq!(GpioPull::Up.index(), 1);
    assert_eq!(GpioPull::Down.index(), 2);
}

#[test]
fn adc_channel_discriminants_are_stable() {
    assert_eq!(AdcChannel::Adc0.index(), 0);
    assert_eq!(AdcChannel::Adc1.index(), 1);
    assert_eq!(AdcChannel::Adc2.index(), 2);
    assert_eq!(AdcChannel::Adc3.index(), 3);
}

#[test]
fn gpio_edge_discriminants_are_stable() {
    assert_eq!(GpioEdge::Rising.index(), 0);
    assert_eq!(GpioEdge::Falling.index(), 1);
    assert_eq!(GpioEdge::Any.index(), 2);
}

#[test]
fn gpio_edge_display() {
    assert_eq!(GpioEdge::Rising.message(), "rising");
    assert_eq!(GpioEdge::Falling.message(), "falling");
    assert_eq!(GpioEdge::Any.message(), "any");
}

#[test]
fn onewire_error_discriminants_are_stable() {
    assert_eq!(OneWireError::NoPresence.index(), 0);
    assert_eq!(OneWireError::BusError.index(), 1);
    assert_eq!(OneWireError::BufferTooLong.index(), 2);
    assert_eq!(OneWireError::Other.index(), 3);
    assert_eq!(OneWireError::Unsupported.index(), 4);
}

#[test]
fn i2c_batch_op_round_trip() {
    let ops = [I2cBatchOp::Read { len: 16 }, I2cBatchOp::Write { data: vec![0xAA, 0xBB] }];
    for op in &ops {
        let bytes = encode_i2c_batch_ops(std::slice::from_ref(op));
        let decoded = decode_i2c_batch_ops(&bytes).unwrap();
        assert_eq!(&decoded[0], op);
    }
}

#[test]
fn spi_batch_op_round_trip() {
    let ops = [
        SpiBatchOp::Read { len: 8 },
        SpiBatchOp::Write { data: vec![0x01, 0x02] },
        SpiBatchOp::Transfer { data: vec![0xFF; 4] },
        SpiBatchOp::DelayNs { ns: 1_000_000 },
    ];
    for op in &ops {
        let bytes = encode_spi_batch_ops(std::slice::from_ref(op));
        let decoded = decode_spi_batch_ops(&bytes).unwrap();
        assert_eq!(&decoded[0], op);
    }
}

#[test]
fn i2c_batch_ops_take_from_bytes() {
    let ops = [I2cBatchOp::Write { data: vec![0xAA, 0xBB] }, I2cBatchOp::Read { len: 4 }];
    let encoded = encode_i2c_batch_ops(&ops);
    let decoded = decode_i2c_batch_ops(&encoded).unwrap();
    assert_eq!(decoded.len(), 2);
    assert_eq!(decoded[0], ops[0]);
    assert_eq!(decoded[1], ops[1]);
}

#[test]
fn spi_batch_ops_take_from_bytes() {
    let ops = [
        SpiBatchOp::Write { data: vec![0x01, 0x02] },
        SpiBatchOp::Read { len: 8 },
        SpiBatchOp::Transfer { data: vec![0xFF; 4] },
        SpiBatchOp::DelayNs { ns: 1000 },
    ];
    let encoded = encode_spi_batch_ops(&ops);
    let decoded = decode_spi_batch_ops(&encoded).unwrap();
    assert_eq!(decoded.len(), 4);
    for (d, o) in decoded.iter().zip(ops.iter()) {
        assert_eq!(d, o);
    }
}

#[test]
fn encode_i2c_empty_batch() {
    let ops = encode_i2c_batch_ops(&[]);
    assert!(ops.is_empty());
    assert_eq!(i2c_batch_response_len(&[]), 0);
}

#[test]
fn encode_spi_empty_batch() {
    let ops = encode_spi_batch_ops(&[]);
    assert!(ops.is_empty());
    assert_eq!(spi_batch_response_len(&[]), 0);
}

#[test]
fn i2c_batch_response_len_mixed() {
    let ops = [
        I2cBatchOp::Write { data: vec![0x00, 0x10] },
        I2cBatchOp::Read { len: 16 },
        I2cBatchOp::Write { data: vec![0x00, 0x20] },
        I2cBatchOp::Read { len: 32 },
    ];
    assert_eq!(i2c_batch_response_len(&ops), 48);
}

#[test]
fn spi_batch_response_len_mixed() {
    let ops = [
        SpiBatchOp::Write { data: vec![0x01, 0x02] },
        SpiBatchOp::Read { len: 8 },
        SpiBatchOp::Transfer { data: vec![0xFF; 4] },
        SpiBatchOp::DelayNs { ns: 1000 },
    ];
    assert_eq!(spi_batch_response_len(&ops), 12);
}

#[test]
fn i2c_batch_ops_at_max_limit() {
    let ops: Vec<I2cBatchOp> = (0..MAX_BATCH_OPS).map(|_| I2cBatchOp::Read { len: 1 }).collect();
    let encoded = encode_i2c_batch_ops(&ops);
    let decoded = decode_i2c_batch_ops(&encoded).unwrap();
    assert_eq!(decoded.len(), MAX_BATCH_OPS);
    assert_eq!(i2c_batch_response_len(&ops), MAX_BATCH_OPS);
}

#[test]
fn spi_batch_ops_at_max_limit() {
    let ops: Vec<SpiBatchOp> = (0..MAX_BATCH_OPS).map(|_| SpiBatchOp::Read { len: 1 }).collect();
    let encoded = encode_spi_batch_ops(&ops);
    let decoded = decode_spi_batch_ops(&encoded).unwrap();
    assert_eq!(decoded.len(), MAX_BATCH_OPS);
    assert_eq!(spi_batch_response_len(&ops), MAX_BATCH_OPS);
}

#[test]
fn i2c_batch_write_only_response_len() {
    let ops = [I2cBatchOp::Write { data: vec![0x00, 0x10] }, I2cBatchOp::Write { data: vec![0xFF; 32] }];
    assert_eq!(i2c_batch_response_len(&ops), 0);
}

#[test]
fn batch_encoding_exact_bytes() {
    let ops = vec![I2cBatchOp::Write { data: vec![0xAA, 0xBB] }, I2cBatchOp::Read { len: 300 }];
    assert_eq!(encode_i2c_batch_ops(&ops), vec![1, 2, 0xAA, 0xBB, 0, 0xAC, 0x02]);
    let ops = vec![
        SpiBatchOp::Transfer { data: vec![7] },
        SpiBatchOp::DelayNs { ns: 128 },
        SpiBatchOp::Read { len: 5 },
    ];
    assert_eq!(encode_spi_batch_ops(&ops), vec![2, 1, 7, 3, 0x80, 0x01, 0, 5]);
}

#[test]
fn batch_decoding_rejects_malformed_input() {
    // Unknown I2C tag.
    assert!(decode_i2c_batch_ops(&[2, 0]).is_none());
    // Length prefix longer than the data.
    assert!(decode_i2c_batch_ops(&[1, 3, 0xAA]).is_none());
    // Truncated read length.
    assert!(decode_spi_batch_ops(&[0, 0x80]).is_none());
    // u16 varint whose third byte is too large.
    assert!(decode_spi_batch_ops(&[0, 0xFF, 0xFF, 0x04]).is_none());
    assert_eq!(decode_spi_batch_ops(&[0, 0xFF, 0xFF, 0x03]).unwrap(), vec![SpiBatchOp::Read { len: 65535 }]);
    assert_eq!(decode_i2c_batch_ops(&[]).unwrap(), vec![]);
}

#[test]
fn batch_request_framing() {
    let ops = vec![I2cBatchOp::Read { len: 4 }];
    let req = pico_de_gallo::batch::i2c_batch_request(0x50, &ops);
    assert_eq!(req.address, 0x50);
    assert_eq!(req.count, 1);
    assert_eq!(req.ops, vec![0, 4]);
    let ops = vec![SpiBatchOp::Write { data: vec![0x9F] }, SpiBatchOp::Read { len: 3 }];
    let req = pico_de_gallo::batch::spi_batch_request(2, &ops);
    assert_eq!(req.cs_pin, 2);
    assert_eq!(req.count, 2);
    assert_eq!(req.ops, vec![1, 1, 0x9F, 0, 3]);
}

#[test]
fn i2c_batch_request_round_trip() {
    let ops = vec![I2cBatchOp::Write { data: vec![0xAA, 0xBB] }, I2cBatchOp::Read { len: 4 }];
    let req = pico_de_gallo::batch::i2c_batch_request(0x50, &ops);
    assert_eq!((req.address, req.count), (0x50, 2));
    // A postcard struct is its fields in order, as a tuple is.
    let bytes = postcard::to_allocvec(&(req.address, req.count, req.ops.as_slice())).unwrap();
    let decoded: (u8, u16, &[u8]) = postcard::from_bytes(&bytes).unwrap();
    assert_eq!(decoded, (req.address, req.count, req.ops.as_slice()));
    assert_eq!(decode_i2c_batch_ops(decoded.2).unwrap(), ops);
}

#[test]
fn spi_batch_request_round_trip() {
    let ops = vec![
        SpiBatchOp::Write { data: vec![0x01, 0x02] },
        SpiBatchOp::Read { len: 8 },
        SpiBatchOp::Transfer { data: vec![0xFF; 4] },
        SpiBatchOp::DelayNs { ns: 1000 },
    ];
    let req = pico_de_gallo::batch::spi_batch_request(2, &ops);
    assert_eq!((req.cs_pin, req.count), (2, 4));
    let bytes = postcard::to_allocvec(&(req.cs_pin, req.count, req.ops.as_slice())).unwrap();
    let decoded: (u8, u16, &[u8]) = postcard::from_bytes(&bytes).unwrap();
    assert_eq!(decoded, (req.cs_pin, req.count, req.ops.as_slice()));
    assert_eq!(decode_spi_batch_ops(decoded.2).unwrap(), ops);
}

#[test]
fn batch_encoding_accepts_large_payloads() {
    let big = vec![0x5A; 300];
    let ops = vec![I2cBatchOp::Write { data: big.clone() }];
    let bytes = encode_i2c_batch_ops(&ops);
    assert_eq!(&bytes[..3], &[1, 0xAC, 0x02]);
    assert_eq!(bytes.len(), 303);
    assert_eq!(decode_i2c_batch_ops(&bytes).unwrap(), ops);
    let sops = vec![SpiBatchOp::Transfer { data: big }];
    assert_eq!(decode_spi_batch_ops(&encode_spi_batch_ops(&sops)).unwrap(), sops);
}
