//! Errors of the embedded-hal adapters and the decisions the adapters
//! make between device calls.
//!
//! Each adapter error is either the peripheral's own firmware error or a
//! transport failure described in words.

use vstd::prelude::*;
use crate::client::PicoDeGalloError;
use crate::text::push_str;
use crate::peripherals::GpioError;
use crate::wire::{I2cError, SpiError};
use crate::uart::UartError;
use crate::pwm::{PwmError, PwmDutyCycleInfo};
use crate::adc::AdcError;

verus! {

/// Error of the GPIO adapter.
#[derive(Debug, Clone)]
pub enum GpioHalError {
    /// A GPIO-specific error from the device firmware.
    Gpio(GpioError),
    /// A USB communication error, in words.
    Comms(String),
}

impl GpioHalError {
    /// The error's own description, or `communication error: <words>`.
    pub open spec fn spec_message(&self) -> Seq<char> {
        match self {
            GpioHalError::Gpio(e) => e.spec_message(),
            GpioHalError::Comms(msg) => "communication error: "@ + msg@,
        }
    }

    /// Human-readable description of the error.
    pub fn message(&self) -> (res: String)
        ensures
            res@ == self.spec_message(),
    {
        match self {
            GpioHalError::Gpio(e) => e.message(),
            GpioHalError::Comms(msg) => {
                let mut s = String::new();
                push_str(&mut s, "communication error: ");
                push_str(&mut s, msg.as_str());
                s
            },
        }
    }
}

impl From<PicoDeGalloError<GpioError>> for GpioHalError {
    fn from(e: PicoDeGalloError<GpioError>) -> (res: GpioHalError) {
        match e {
            PicoDeGalloError::Endpoint(k) => GpioHalError::Gpio(k),
            PicoDeGalloError::Comms(c) => GpioHalError::Comms(c.description),
        }
    }
}

impl vstd::std_specs::convert::FromSpecImpl<PicoDeGalloError<GpioError>> for GpioHalError {
    open spec fn obeys_from_spec() -> bool {
        true
    }

    /// An endpoint error is kept; a transport failure keeps its words.
    open spec fn from_spec(e: PicoDeGalloError<GpioError>) -> GpioHalError {
        match e {
            PicoDeGalloError::Endpoint(k) => GpioHalError::Gpio(k),
            PicoDeGalloError::Comms(c) => GpioHalError::Comms(c.description),
        }
    }
}

/// Error of the I2C adapter.
#[derive(Debug, Clone)]
pub enum I2cHalError {
    /// A I2C-specific error from the device firmware.
    I2c(I2cError),
    /// A USB communication error, in words.
    Comms(String),
}

impl I2cHalError {
    /// The error's own description, or `communication error: <words>`.
    pub open spec fn spec_message(&self) -> Seq<char> {
        match self {
            I2cHalError::I2c(e) => e.spec_message(),
            I2cHalError::Comms(msg) => "communication error: "@ + msg@,
        }
    }

    /// Human-readable description of the error.
    pub fn message(&self) -> (res: String)
        ensures
            res@ == self.spec_message(),
    {
        match self {
            I2cHalError::I2c(e) => e.message(),
            I2cHalError::Comms(msg) => {
                let mut s = String::new();
                push_str(&mut s, "communication error: ");
                push_str(&mut s, msg.as_str());
                s
            },
        }
    }
}

impl From<PicoDeGalloError<I2cError>> for I2cHalError {
    fn from(e: PicoDeGalloError<I2cError>) -> (res: I2cHalError) {
        match e {
            PicoDeGalloError::Endpoint(k) => I2cHalError::I2c(k),
            PicoDeGalloError::Comms(c) => I2cHalError::Comms(c.description),
        }
    }
}

impl vstd::std_specs::convert::FromSpecImpl<PicoDeGalloError<I2cError>> for I2cHalError {
    open spec fn obeys_from_spec() -> bool {
        true
    }

    /// An endpoint error is kept; a transport failure keeps its words.
    open spec fn from_spec(e: PicoDeGalloError<I2cError>) -> I2cHalError {
        match e {
            PicoDeGalloError::Endpoint(k) => I2cHalError::I2c(k),
            PicoDeGalloError::Comms(c) => I2cHalError::Comms(c.description),
        }
    }
}

/// Error of the SPI adapter.
#[derive(Debug, Clone)]
pub enum SpiHalError {
    /// A SPI-specific error from the device firmware.
    Spi(SpiError),
    /// A USB communication error, in words.
    Comms(String),
}

impl SpiHalError {
    /// The error's own description, or `communication error: <words>`.
    pub open spec fn spec_message(&self) -> Seq<char> {
        match self {
            SpiHalError::Spi(e) => e.spec_message(),
            SpiHalError::Comms(msg) => "communication error: "@ + msg@,
        }
    }

    /// Human-readable description of the error.
    pub fn message(&self) -> (res: String)
        ensures
            res@ == self.spec_message(),
    {
        match self {
            SpiHalError::Spi(e) => e.message(),
            SpiHalError::Comms(msg) => {
                let mut s = String::new();
                push_str(&mut s, "communication error: ");
                push_str(&mut s, msg.as_str());
                s
            },
        }
    }
}

impl From<PicoDeGalloError<SpiError>> for SpiHalError {
    fn from(e: PicoDeGalloError<SpiError>) -> (res: SpiHalError) {
        match e {
            PicoDeGalloError::Endpoint(k) => SpiHalError::Spi(k),
            PicoDeGalloError::Comms(c) => SpiHalError::Comms(c.description),
        }
    }
}

impl vstd::std_specs::convert::FromSpecImpl<PicoDeGalloError<SpiError>> for SpiHalError {
    open spec fn obeys_from_spec() -> bool {
        true
    }

    /// An endpoint error is kept; a transport failure keeps its words.
    open spec fn from_spec(e: PicoDeGalloError<SpiError>) -> SpiHalError {
        match e {
            PicoDeGalloError::Endpoint(k) => SpiHalError::Spi(k),
            PicoDeGalloError::Comms(c) => SpiHalError::Comms(c.description),
        }
    }
}

/// Error of the UART adapter.
#[derive(Debug, Clone)]
pub enum UartHalError {
    /// A UART-specific error from the device firmware.
    Uart(UartError),
    /// A USB communication error, in words.
    Comms(String),
}

impl UartHalError {
    /// The error's own description, or `communication error: <words>`.
    pub open spec fn spec_message(&self) -> Seq<char> {
        match self {
            UartHalError::Uart(e) => e.spec_message(),
            UartHalError::Comms(msg) => "communication error: "@ + msg@,
        }
    }

    /// Human-readable description of the error.
    pub fn message(&self) -> (res: String)
        ensures
            res@ == self.spec_message(),
    {
        match self {
            UartHalError::Uart(e) => e.message(),
            UartHalError::Comms(msg) => {
                let mut s = String::new();
                push_str(&mut s, "communication error: ");
                push_str(&mut s, msg.as_str());
                s
            },
        }
    }
}

impl From<PicoDeGalloError<UartError>> for UartHalError {
    fn from(e: PicoDeGalloError<UartError>) -> (res: UartHalError) {
        match e {
            PicoDeGalloError::Endpoint(k) => UartHalError::Uart(k),
            PicoDeGalloError::Comms(c) => UartHalError::Comms(c.description),
        }
    }
}

impl vstd::std_specs::convert::FromSpecImpl<PicoDeGalloError<UartError>> for UartHalError {
    open spec fn obeys_from_spec() -> bool {
        true
    }

    /// An endpoint error is kept; a transport failure keeps its words.
    open spec fn from_spec(e: PicoDeGalloError<UartError>) -> UartHalError {
        match e {
            PicoDeGalloError::Endpoint(k) => UartHalError::Uart(k),
            PicoDeGalloError::Comms(c) => UartHalError::Comms(c.description),
        }
    }
}

/// Error of the PWM adapter.
#[derive(Debug, Clone)]
pub enum PwmHalError {
    /// A PWM-specific error from the device firmware.
    Pwm(PwmError),
    /// A USB communication error, in words.
    Comms(String),
}

impl PwmHalError {
    /// The error's own description, or `communication error: <words>`.
    pub open spec fn spec_message(&self) -> Seq<char> {
        match self {
            PwmHalError::Pwm(e) => e.spec_message(),
            PwmHalError::Comms(msg) => "communication error: "@ + msg@,
        }
    }

    /// Human-readable description of the error.
    pub fn message(&self) -> (res: String)
        ensures
            res@ == self.spec_message(),
    {
        match self {
            PwmHalError::Pwm(e) => e.message(),
            PwmHalError::Comms(msg) => {
                let mut s = String::new();
                push_str(&mut s, "communication error: ");
                push_str(&mut s, msg.as_str());
                s
            },
        }
    }
}

impl From<PicoDeGalloError<PwmError>> for PwmHalError {
    fn from(e: PicoDeGalloError<PwmError>) -> (res: PwmHalError) {
        match e {
            PicoDeGalloError::Endpoint(k) => PwmHalError::Pwm(k),
            PicoDeGalloError::Comms(c) => PwmHalError::Comms(c.description),
        }
    }
}

impl vstd::std_specs::convert::FromSpecImpl<PicoDeGalloError<PwmError>> for PwmHalError {
    open spec fn obeys_from_spec() -> bool {
        true
    }

    /// An endpoint error is kept; a transport failure keeps its words.
    open spec fn from_spec(e: PicoDeGalloError<PwmError>) -> PwmHalError {
        match e {
            PicoDeGalloError::Endpoint(k) => PwmHalError::Pwm(k),
            PicoDeGalloError::Comms(c) => PwmHalError::Comms(c.description),
        }
    }
}

/// Error of the ADC adapter.
#[derive(Debug, Clone)]
pub enum AdcHalError {
    /// A ADC-specific error from the device firmware.
    Adc(AdcError),
    /// A USB communication error, in words.
    Comms(String),
}

impl AdcHalError {
    /// The error's own description, or `communication error: <words>`.
    pub open spec fn spec_message(&self) -> Seq<char> {
        match self {
            AdcHalError::Adc(e) => e.spec_message(),
            AdcHalError::Comms(msg) => "communication error: "@ + msg@,
        }
    }

    /// Human-readable description of the error.
    pub fn message(&self) -> (res: String)
        ensures
            res@ == self.spec_message(),
    {
        match self {
            AdcHalError::Adc(e) => e.message(),
            AdcHalError::Comms(msg) => {
                let mut s = String::new();
                push_str(&mut s, "communication error: ");
                push_str(&mut s, msg.as_str());
                s
            },
        }
    }
}

impl From<PicoDeGalloError<AdcError>> for AdcHalError {
    fn from(e: PicoDeGalloError<AdcError>) -> (res: AdcHalError) {
        match e {
            PicoDeGalloError::Endpoint(k) => AdcHalError::Adc(k),
            PicoDeGalloError::Comms(c) => AdcHalError::Comms(c.description),
        }
    }
}

impl vstd::std_specs::convert::FromSpecImpl<PicoDeGalloError<AdcError>> for AdcHalError {
    open spec fn obeys_from_spec() -> bool {
        true
    }

    /// An endpoint error is kept; a transport failure keeps its words.
    open spec fn from_spec(e: PicoDeGalloError<AdcError>) -> AdcHalError {
        match e {
            PicoDeGalloError::Endpoint(k) => AdcHalError::Adc(k),
            PicoDeGalloError::Comms(c) => AdcHalError::Comms(c.description),
        }
    }
}

/// The embedded-hal I2C error kinds the adapter reports.
#[derive(Debug, Clone, Copy, PartialEq, Eq, Structural)]
pub enum I2cHalErrorKind {
    /// Bus error.
    Bus,
    /// Arbitration lost.
    ArbitrationLoss,
    /// No acknowledge; which phase did not acknowledge is unknown.
    NoAcknowledge,
    /// Data overrun.
    Overrun,
    /// Any other error.
    Other,
}

impl I2cHalError {
    /// The embedded-hal kind of an I2C adapter error: the four bus
    /// conditions keep their kind, everything else is `Other`.
    pub fn kind(&self) -> (res: I2cHalErrorKind)
        ensures
            res == match self {
                I2cHalError::I2c(I2cError::NoAcknowledge) => I2cHalErrorKind::NoAcknowledge,
                I2cHalError::I2c(I2cError::ArbitrationLoss) => I2cHalErrorKind::ArbitrationLoss,
                I2cHalError::I2c(I2cError::Bus) => I2cHalErrorKind::Bus,
                I2cHalError::I2c(I2cError::Overrun) => I2cHalErrorKind::Overrun,
                _ => I2cHalErrorKind::Other,
            },
    {
        match self {
            I2cHalError::I2c(I2cError::NoAcknowledge) => I2cHalErrorKind::NoAcknowledge,
            I2cHalError::I2c(I2cError::ArbitrationLoss) => I2cHalErrorKind::ArbitrationLoss,
            I2cHalError::I2c(I2cError::Bus) => I2cHalErrorKind::Bus,
            I2cHalError::I2c(I2cError::Overrun) => I2cHalErrorKind::Overrun,
            _ => I2cHalErrorKind::Other,
        }
    }
}

/// The embedded-io error kinds the UART adapter reports.
#[derive(Debug, Clone, Copy, PartialEq, Eq, Structural)]
pub enum UartHalErrorKind {
    /// An invalid parameter (the baud rate).
    InvalidInput,
    /// Any other error.
    Other,
}

impl UartHalError {
    /// The embedded-io kind of a UART adapter error: an invalid baud rate
    /// is `InvalidInput`, everything else is `Other`.
    pub fn kind(&self) -> (res: UartHalErrorKind)
        ensures
            res == if self matches UartHalError::Uart(UartError::InvalidBaudRate) {
                UartHalErrorKind::InvalidInput
            } else {
                UartHalErrorKind::Other
            },
    {
        match self {
            UartHalError::Uart(UartError::InvalidBaudRate) => UartHalErrorKind::InvalidInput,
            _ => UartHalErrorKind::Other,
        }
    }
}

/// The maximum duty cycle a PWM channel reports: the firmware's value, or
/// `u16::MAX` when the query fails.
pub fn max_duty_or_default(result: Result<PwmDutyCycleInfo, PicoDeGalloError<PwmError>>) -> (res: u16)
    ensures
        res == match result {
            Ok(info) => info.max_duty,
            Err(_) => u16::MAX,
        },
{
    match result {
        Ok(info) => info.max_duty,
        Err(_) => u16::MAX,
    }
}

/// Copies a full-duplex answer into the read buffer: as many bytes as both
/// hold; the rest of the buffer is left as it was.
pub fn transfer_copy(read: &mut Vec<u8>, contents: &[u8])
    ensures
        final(read)@.len() == old(read)@.len(),
        ({
            let n = if old(read)@.len() < contents@.len() { old(read)@.len() } else { contents@.len() };
            final(read)@ == contents@.take(n as int) + old(read)@.skip(n as int)
        }),
{
    let n = if read.len() < contents.len() { read.len() } else { contents.len() };
    let ghost orig = read@;
    let mut i: usize = 0;
    while i < n
        invariant
            i <= n,
            n <= orig.len(),
            n <= contents@.len(),
            read@.len() == orig.len(),
            forall|j: int| 0 <= j < i ==> read@[j] == contents@[j],
            forall|j: int| i <= j < orig.len() ==> read@[j] == orig[j],
        decreases n - i,
    {
        read.set(i, contents[i]);
        i = i + 1;
    }
    assert(read@ =~= contents@.take(n as int) + orig.skip(n as int));
}

/// Where an SPI device transaction stands.
#[derive(Debug, Clone, Copy, PartialEq, Eq, Structural)]
pub enum SpiStage {
    /// Chip select must be asserted (driven low).
    AssertCs,
    /// The operation with this index runs next.
    Op(usize),
    /// The bus must be flushed.
    Flush,
    /// Chip select must be deasserted (driven high).
    DeassertCs,
    /// The transaction is over.
    Done,
}

/// An SPI device transaction under chip select: assert CS, run the
/// operations until one fails, flush, deassert CS, and report the first
/// operation error, else the flush's result. A failed assert ends the
/// transaction at once.
#[derive(Debug, Clone)]
pub struct SpiTransaction {
    /// Number of operations in the transaction.
    pub n_ops: usize,
    /// What happens next.
    pub stage: SpiStage,
    /// The error of the operation that failed, if one did.
    pub op_error: Option<SpiHalError>,
    /// The result of the flush, once it ran.
    pub flush_result: Option<Result<(), SpiHalError>>,
    /// The transaction's result, once it is over.
    pub outcome: Option<Result<(), SpiHalError>>,
}

impl SpiTransaction {
    /// The stage and the recorded results agree.
    pub open spec fn wf(&self) -> bool {
        &&& self.stage matches SpiStage::Op(i) ==> i < self.n_ops && self.op_error is None
        &&& self.stage is AssertCs ==> self.op_error is None
        &&& (self.stage is AssertCs || self.stage is Op) ==> self.flush_result is None
        &&& self.stage is DeassertCs ==> self.flush_result is Some
        &&& self.stage is Done <==> self.outcome is Some
    }

    /// A transaction of `n_ops` operations that has not touched the bus.
    pub fn new(n_ops: usize) -> (res: SpiTransaction)
        ensures
            res.wf(),
            res.n_ops == n_ops,
            res.stage == SpiStage::AssertCs,
            res.op_error is None,
    {
        SpiTransaction { n_ops, stage: SpiStage::AssertCs, op_error: None, flush_result: None, outcome: None }
    }

    /// The stage that follows the last operation, or a failed one.
    fn after_ops(n_ops: usize, next: usize) -> (res: SpiStage)
        ensures
            res == if next < n_ops { SpiStage::Op(next) } else { SpiStage::Flush },
    {
        if next < n_ops {
            SpiStage::Op(next)
        } else {
            SpiStage::Flush
        }
    }

    /// Takes the result of asserting chip select; `failure` describes the
    /// error when it failed. A failure ends the transaction with
    /// `CS assert failed: <failure>`.
    pub fn cs_asserted(&mut self, failure: Option<String>)
        requires
            old(self).wf(),
            old(self).stage == SpiStage::AssertCs,
        ensures
            final(self).wf(),
            final(self).n_ops == old(self).n_ops,
            final(self).op_error is None,
            match failure {
                Some(msg) => final(self).stage == SpiStage::Done && (final(self).outcome matches Some(
                    Err(SpiHalError::Comms(m)),
                ) && m@ == "CS assert failed: "@ + msg@),
                None => final(self).stage == (if old(self).n_ops > 0 {
                    SpiStage::Op(0)
                } else {
                    SpiStage::Flush
                }),
            },
    {
        match failure {
            Some(msg) => {
                let mut m = String::new();
                push_str(&mut m, "CS assert failed: ");
                push_str(&mut m, msg.as_str());
                self.stage = SpiStage::Done;
                self.outcome = Some(Err(SpiHalError::Comms(m)));
            },
            None => {
                self.stage = SpiTransaction::after_ops(self.n_ops, 0);
            },
        }
    }

    /// Takes the result of the current operation: success moves to the
    /// next one (or the flush after the last); an error is kept and goes
    /// straight to the flush.
    pub fn op_done(&mut self, result: Result<(), SpiHalError>)
        requires
            old(self).wf(),
            old(self).stage is Op,
        ensures
            final(self).wf(),
            final(self).n_ops == old(self).n_ops,
            match result {
                Ok(()) => final(self).op_error is None && final(self).stage == (if old(self).stage->0
                    + 1 < old(self).n_ops {
                    SpiStage::Op((old(self).stage->0 + 1) as usize)
                } else {
                    SpiStage::Flush
                }),
                Err(e) => final(self).op_error == Some(e) && final(self).stage == SpiStage::Flush,
            },
    {
        let i = match self.stage {
            SpiStage::Op(i) => i,
            _ => 0,
        };
        match result {
            Ok(()) => {
                self.stage = SpiTransaction::after_ops(self.n_ops, i + 1);
            },
            Err(e) => {
                self.op_error = Some(e);
                self.stage = SpiStage::Flush;
            },
        }
    }

    /// Takes the result of the flush, which always runs, even after a
    /// failed operation; chip select is deasserted next.
    pub fn flushed(&mut self, result: Result<(), SpiHalError>)
        requires
            old(self).wf(),
            old(self).stage == SpiStage::Flush,
        ensures
            final(self).wf(),
            final(self).n_ops == old(self).n_ops,
            final(self).op_error == old(self).op_error,
            final(self).flush_result == Some(result),
            final(self).stage == SpiStage::DeassertCs,
    {
        self.flush_result = Some(result);
        self.stage = SpiStage::DeassertCs;
    }

    /// Chip select was deasserted (its own result is ignored): the
    /// transaction ends with the operation's error if one failed, else
    /// with the flush's result.
    pub fn cs_deasserted(&mut self)
        requires
            old(self).wf(),
            old(self).stage == SpiStage::DeassertCs,
        ensures
            final(self).wf(),
            final(self).stage == SpiStage::Done,
            final(self).outcome == Some(
                match old(self).op_error {
                    Some(e) => Err(e),
                    None => old(self).flush_result->0,
                },
            ),
    {
        let op_error = self.op_error.take();
        let flush = self.flush_result.take();
        let outcome = match op_error {
            Some(e) => Err(e),
            None => match flush {
                Some(r) => r,
                None => Ok(()),
            },
        };
        self.outcome = Some(outcome);
        self.stage = SpiStage::Done;
    }
}

} // verus!
