//! The decisions of the C interface: argument checks, the translation of
//! C-side batch operations, and how a client result becomes a status and
//! the values written back to the caller.
//!
//! Pointers stay with the caller's glue; here a pointer is only whether it
//! is null, and a buffer is the bytes it holds.

use vstd::prelude::*;
use crate::status::{
    Status, spec_i2c_endpoint_status, spec_spi_endpoint_status, i2c_error_to_status,
    spi_error_to_status, onewire_error_to_status,
};
use crate::client::{PicoDeGalloError, ValidateError};
use crate::batch::{BatchOpModel, I2cBatchOp, SpiBatchOp, I2cBatchError, SpiBatchError};
use crate::wire::{MAX_BATCH_OPS, I2cError, SpiError, SpiPhase, SpiPolarity, SpiConfigurationInfo};
use crate::onewire::OneWireError;
use crate::device::DeviceInfo;

verus! {

/// I2C bus support (bit 0).
pub const GALLO_CAP_I2C: u64 = 1;

/// SPI bus support (bit 1).
pub const GALLO_CAP_SPI: u64 = 2;

/// UART support (bit 2).
pub const GALLO_CAP_UART: u64 = 4;

/// GPIO support (bit 3).
pub const GALLO_CAP_GPIO: u64 = 8;

/// PWM output support (bit 4).
pub const GALLO_CAP_PWM: u64 = 16;

/// ADC input support (bit 5).
pub const GALLO_CAP_ADC: u64 = 32;

/// 1-Wire bus support (bit 6).
pub const GALLO_CAP_ONEWIRE: u64 = 64;

/// A C-side I2C batch operation: `tag` 0 is `Read` of `read_len` bytes,
/// 1 is `Write` of the `data_len` bytes behind `data` (`None` when the
/// pointer is null).
#[derive(Debug, Clone)]
pub struct GalloI2cBatchOp {
    /// Variant tag: 0 = Read, 1 = Write.
    pub tag: u8,
    /// Read length in bytes (Read only).
    pub read_len: u16,
    /// The payload, or `None` for a null pointer.
    pub data: Option<Vec<u8>>,
    /// Length of the payload, in bytes.
    pub data_len: usize,
}

/// A C-side SPI batch operation: `tag` 0 is `Read`, 1 `Write`,
/// 2 `Transfer`, 3 `DelayNs`.
#[derive(Debug, Clone)]
pub struct GalloSpiBatchOp {
    /// Variant tag: 0 = Read, 1 = Write, 2 = Transfer, 3 = DelayNs.
    pub tag: u8,
    /// Read length in bytes (Read only).
    pub read_len: u16,
    /// The payload, or `None` for a null pointer.
    pub data: Option<Vec<u8>>,
    /// Length of the payload, in bytes.
    pub data_len: usize,
    /// Delay in nanoseconds (DelayNs only).
    pub delay_ns: u32,
}

impl GalloI2cBatchOp {
    /// A present payload holds exactly `data_len` bytes.
    pub open spec fn wf(&self) -> bool {
        self.data matches Some(d) ==> d@.len() == self.data_len
    }

    /// The operation this C record stands for, or `None` when its tag is
    /// unknown or its payload pointer is null with a nonzero length.
    pub open spec fn spec_op(&self) -> Option<BatchOpModel> {
        if self.tag == 0 {
            Some(BatchOpModel::Read(self.read_len))
        } else if self.tag == 1 {
            if self.data_len == 0 {
                Some(BatchOpModel::Write(Seq::empty()))
            } else {
                match self.data {
                    Some(d) => Some(BatchOpModel::Write(d@)),
                    None => None,
                }
            }
        } else {
            None
        }
    }
}

impl GalloSpiBatchOp {
    /// A present payload holds exactly `data_len` bytes.
    pub open spec fn wf(&self) -> bool {
        self.data matches Some(d) ==> d@.len() == self.data_len
    }

    /// The payload of a Write or Transfer, or `None` when the pointer is
    /// null with a nonzero length.
    pub open spec fn spec_payload(&self) -> Option<Seq<u8>> {
        if self.data_len == 0 {
            Some(Seq::empty())
        } else {
            match self.data {
                Some(d) => Some(d@),
                None => None,
            }
        }
    }

    /// The operation this C record stands for, or `None` when its tag is
    /// unknown or its payload is missing.
    pub open spec fn spec_op(&self) -> Option<BatchOpModel> {
        if self.tag == 0 {
            Some(BatchOpModel::Read(self.read_len))
        } else if self.tag == 1 {
            match self.spec_payload() {
                Some(d) => Some(BatchOpModel::Write(d)),
                None => None,
            }
        } else if self.tag == 2 {
            match self.spec_payload() {
                Some(d) => Some(BatchOpModel::Transfer(d)),
                None => None,
            }
        } else if self.tag == 3 {
            Some(BatchOpModel::DelayNs(self.delay_ns))
        } else {
            None
        }
    }
}

/// The payload bytes of a C record whose payload is usable.
fn payload_of(data: &Option<Vec<u8>>, data_len: usize) -> (res: Option<Vec<u8>>)
    requires
        data matches Some(d) ==> d@.len() == data_len,
    ensures
        data_len == 0 ==> (res matches Some(v) && v@ == Seq::<u8>::empty()),
        data_len != 0 ==> match data {
            Some(d) => res matches Some(v) && v@ == d@,
            None => res is None,
        },
{
    if data_len == 0 {
        Some(Vec::new())
    } else {
        match data {
            Some(d) => Some(d.clone()),
            None => None,
        }
    }
}

/// Translates the C-side I2C operations into typed ones; the first record
/// with an unknown tag or a missing payload makes the whole call an
/// `InvalidArgument`.
pub fn translate_i2c_batch_ops(raw: &[GalloI2cBatchOp]) -> (res: Result<Vec<I2cBatchOp>, Status>)
    requires
        forall|i: int| 0 <= i < raw@.len() ==> (#[trigger] raw@[i]).wf(),
    ensures
        res is Ok <==> forall|i: int| 0 <= i < raw@.len() ==> (#[trigger] raw@[i]).spec_op() is Some,
        res matches Ok(ops) ==> ops@.len() == raw@.len() && forall|i: int|
            0 <= i < raw@.len() ==> Some(#[trigger] ops@[i]@) == raw@[i].spec_op(),
        res matches Err(s) ==> s == Status::InvalidArgument,
{
    let mut typed: Vec<I2cBatchOp> = Vec::new();
    let mut i: usize = 0;
    while i < raw.len()
        invariant
            i <= raw@.len(),
            forall|j: int| 0 <= j < raw@.len() ==> (#[trigger] raw@[j]).wf(),
            typed@.len() == i,
            forall|j: int| 0 <= j < i ==> Some(#[trigger] typed@[j]@) == raw@[j].spec_op(),
        decreases raw@.len() - i,
    {
        let op = &raw[i];
        if op.tag == 0 {
            typed.push(I2cBatchOp::Read { len: op.read_len });
        } else if op.tag == 1 {
            match payload_of(&op.data, op.data_len) {
                Some(data) => typed.push(I2cBatchOp::Write { data }),
                None => {
                    assert(raw@[i as int].spec_op() is None);
                    return Err(Status::InvalidArgument);
                },
            }
        } else {
            assert(raw@[i as int].spec_op() is None);
            return Err(Status::InvalidArgument);
        }
        i = i + 1;
    }
    assert forall|j: int| 0 <= j < raw@.len() implies (#[trigger] raw@[j]).spec_op() is Some by {
        assert(Some(typed@[j]@) == raw@[j].spec_op());
    }
    Ok(typed)
}

/// Translates the C-side SPI operations into typed ones; the first record
/// with an unknown tag or a missing payload makes the whole call an
/// `InvalidArgument`.
pub fn translate_spi_batch_ops(raw: &[GalloSpiBatchOp]) -> (res: Result<Vec<SpiBatchOp>, Status>)
    requires
        forall|i: int| 0 <= i < raw@.len() ==> (#[trigger] raw@[i]).wf(),
    ensures
        res is Ok <==> forall|i: int| 0 <= i < raw@.len() ==> (#[trigger] raw@[i]).spec_op() is Some,
        res matches Ok(ops) ==> ops@.len() == raw@.len() && forall|i: int|
            0 <= i < raw@.len() ==> Some(#[trigger] ops@[i]@) == raw@[i].spec_op(),
        res matches Err(s) ==> s == Status::InvalidArgument,
{
    let mut typed: Vec<SpiBatchOp> = Vec::new();
    let mut i: usize = 0;
    while i < raw.len()
        invariant
            i <= raw@.len(),
            forall|j: int| 0 <= j < raw@.len() ==> (#[trigger] raw@[j]).wf(),
            typed@.len() == i,
            forall|j: int| 0 <= j < i ==> Some(#[trigger] typed@[j]@) == raw@[j].spec_op(),
        decreases raw@.len() - i,
    {
        let op = &raw[i];
        if op.tag == 0 {
            typed.push(SpiBatchOp::Read { len: op.read_len });
        } else if op.tag == 1 || op.tag == 2 {
            match payload_of(&op.data, op.data_len) {
                Some(data) => {
                    if op.tag == 1 {
                        typed.push(SpiBatchOp::Write { data });
                    } else {
                        typed.push(SpiBatchOp::Transfer { data });
                    }
                },
                None => {
                    assert(raw@[i as int].spec_op() is None);
                    return Err(Status::InvalidArgument);
                },
            }
        } else if op.tag == 3 {
            typed.push(SpiBatchOp::DelayNs { ns: op.delay_ns });
        } else {
            assert(raw@[i as int].spec_op() is None);
            return Err(Status::InvalidArgument);
        }
        i = i + 1;
    }
    assert forall|j: int| 0 <= j < raw@.len() implies (#[trigger] raw@[j]).spec_op() is Some by {
        assert(Some(typed@[j]@) == raw@[j].spec_op());
    }
    Ok(typed)
}

/// The argument checks a batch call makes before anything else, in order:
/// a null context is `Uninitialized`; a null `out_len`, a null operation
/// array with a nonzero count, more than [`MAX_BATCH_OPS`] operations, or
/// a null output buffer with a nonzero capacity is `InvalidArgument`.
/// `None` when the arguments pass.
pub fn check_batch_arguments(
    context_null: bool,
    out_len_null: bool,
    ops_null: bool,
    ops_count: usize,
    out_buf_null: bool,
    out_capacity: usize,
) -> (res: Option<Status>)
    ensures
        res == if context_null {
            Some(Status::Uninitialized)
        } else if out_len_null || (ops_null && ops_count != 0) || ops_count > MAX_BATCH_OPS || (
        out_capacity > 0 && out_buf_null) {
            Some(Status::InvalidArgument)
        } else {
            None::<Status>
        },
{
    if context_null {
        Some(Status::Uninitialized)
    } else if out_len_null {
        Some(Status::InvalidArgument)
    } else if ops_null && ops_count != 0 {
        Some(Status::InvalidArgument)
    } else if ops_count > MAX_BATCH_OPS {
        Some(Status::InvalidArgument)
    } else if out_capacity > 0 && out_buf_null {
        Some(Status::InvalidArgument)
    } else {
        None
    }
}

/// What a batch call hands back to its C caller.
#[derive(Debug, Clone)]
pub struct BatchOutcome {
    /// The status returned.
    pub status: Status,
    /// The value written to `*out_len`.
    pub out_len: usize,
    /// The value written to `*out_failed_op`, if any is written.
    pub failed_op: Option<u16>,
    /// The bytes copied into the output buffer.
    pub data: Vec<u8>,
}

/// The outcome of a batch whose response data did fit or not: a response
/// longer than the buffer is `BufferTooLong`, with the needed length
/// reported and nothing copied.
fn data_outcome(data: Vec<u8>, out_capacity: usize) -> (res: BatchOutcome)
    ensures
        data@.len() > out_capacity ==> res.status == Status::BufferTooLong && res.out_len
            == data@.len() && res.data@ == Seq::<u8>::empty(),
        data@.len() <= out_capacity ==> res.status == Status::Success && res.out_len
            == data@.len() && res.data@ == data@,
        res.failed_op is None,
{
    if data.len() > out_capacity {
        BatchOutcome {
            status: Status::BufferTooLong,
            out_len: data.len(),
            failed_op: None,
            data: Vec::new(),
        }
    } else {
        let n = data.len();
        BatchOutcome { status: Status::Success, out_len: n, failed_op: None, data }
    }
}

/// Turns the result of an I2C batch into what the C caller receives: the
/// read data when it fits `out_capacity`; on a failed operation its index
/// and the status of its I2C error, with nothing read; on a transport
/// failure `CommsFailed`.
pub fn i2c_batch_outcome(result: Result<Vec<u8>, PicoDeGalloError<I2cBatchError>>, out_capacity: usize) -> (res: BatchOutcome)
    ensures
        match result {
            Ok(d) => res.failed_op is None && if d@.len() > out_capacity {
                res.status == Status::BufferTooLong && res.out_len == d@.len() && res.data@
                    == Seq::<u8>::empty()
            } else {
                res.status == Status::Success && res.out_len == d@.len() && res.data@ == d@
            },
            Err(PicoDeGalloError::Endpoint(e)) => res.status == spec_i2c_endpoint_status(e.kind)
                && res.failed_op == Some(e.failed_op) && res.out_len == 0 && res.data@ == Seq::<
                u8,
            >::empty(),
            Err(PicoDeGalloError::Comms(_)) => res.status == Status::CommsFailed
                && res.failed_op is None && res.out_len == 0 && res.data@ == Seq::<u8>::empty(),
        },
{
    match result {
        Ok(data) => data_outcome(data, out_capacity),
        Err(PicoDeGalloError::Endpoint(e)) => {
            let status = i2c_error_to_status(&PicoDeGalloError::<I2cError>::Endpoint(e.kind));
            BatchOutcome { status, out_len: 0, failed_op: Some(e.failed_op), data: Vec::new() }
        },
        Err(PicoDeGalloError::Comms(_)) => BatchOutcome {
            status: Status::CommsFailed,
            out_len: 0,
            failed_op: None,
            data: Vec::new(),
        },
    }
}

/// Turns the result of an SPI batch into what the C caller receives, as
/// [`i2c_batch_outcome`] does with SPI statuses.
pub fn spi_batch_outcome(result: Result<Vec<u8>, PicoDeGalloError<SpiBatchError>>, out_capacity: usize) -> (res: BatchOutcome)
    ensures
        match result {
            Ok(d) => res.failed_op is None && if d@.len() > out_capacity {
                res.status == Status::BufferTooLong && res.out_len == d@.len() && res.data@
                    == Seq::<u8>::empty()
            } else {
                res.status == Status::Success && res.out_len == d@.len() && res.data@ == d@
            },
            Err(PicoDeGalloError::Endpoint(e)) => res.status == spec_spi_endpoint_status(e.kind)
                && res.failed_op == Some(e.failed_op) && res.out_len == 0 && res.data@ == Seq::<
                u8,
            >::empty(),
            Err(PicoDeGalloError::Comms(_)) => res.status == Status::CommsFailed
                && res.failed_op is None && res.out_len == 0 && res.data@ == Seq::<u8>::empty(),
        },
{
    match result {
        Ok(data) => data_outcome(data, out_capacity),
        Err(PicoDeGalloError::Endpoint(e)) => {
            let status = spi_error_to_status(&PicoDeGalloError::<SpiError>::Endpoint(e.kind));
            BatchOutcome { status, out_len: 0, failed_op: Some(e.failed_op), data: Vec::new() }
        },
        Err(PicoDeGalloError::Comms(_)) => BatchOutcome {
            status: Status::CommsFailed,
            out_len: 0,
            failed_op: None,
            data: Vec::new(),
        },
    }
}

/// The argument checks of a plain read, write or transfer call: a null
/// context is `Uninitialized`; a null buffer, or a length beyond what the
/// wire's 16-bit count carries, is `InvalidArgument`. `None` when the
/// arguments pass.
pub fn check_buffer_arguments(context_null: bool, buffer_null: bool, len: usize) -> (res: Option<Status>)
    ensures
        res == if context_null {
            Some(Status::Uninitialized)
        } else if buffer_null || len > u16::MAX {
            Some(Status::InvalidArgument)
        } else {
            None::<Status>
        },
{
    if context_null {
        Some(Status::Uninitialized)
    } else if buffer_null || len > 0xffff {
        Some(Status::InvalidArgument)
    } else {
        None
    }
}

/// The status of a failed full-duplex SPI transfer: as for other SPI
/// requests, except that an unspecified firmware error is
/// `SpiTransferFailed`.
pub fn spi_transfer_error_to_status(e: &PicoDeGalloError<SpiError>) -> (res: Status)
    ensures
        res == match e {
            PicoDeGalloError::Endpoint(SpiError::BufferTooLong) => Status::BufferTooLong,
            PicoDeGalloError::Endpoint(SpiError::Other) => Status::SpiTransferFailed,
            PicoDeGalloError::Comms(_) => Status::CommsFailed,
        },
{
    match e {
        PicoDeGalloError::Endpoint(SpiError::BufferTooLong) => Status::BufferTooLong,
        PicoDeGalloError::Endpoint(SpiError::Other) => Status::SpiTransferFailed,
        PicoDeGalloError::Comms(_) => Status::CommsFailed,
    }
}

/// A read that must fill the caller's buffer exactly: data of another
/// length is an `InvalidResponse` from the firmware.
pub fn check_read_length(data: Vec<u8>, expected_len: usize) -> (res: Result<Vec<u8>, Status>)
    ensures
        data@.len() == expected_len ==> (res matches Ok(d) && d@ == data@),
        data@.len() != expected_len ==> res == Err::<Vec<u8>, Status>(Status::InvalidResponse),
{
    if data.len() != expected_len {
        Err(Status::InvalidResponse)
    } else {
        Ok(data)
    }
}

/// The addresses an I2C scan copies into a buffer of `buf_len` bytes: as
/// many as fit, in order. The caller also learns the full count.
pub fn scan_copy(addresses: &[u8], buf_len: usize) -> (res: Vec<u8>)
    ensures
        res@ == addresses@.take(if addresses@.len() < buf_len { addresses@.len() as int } else { buf_len as int }),
{
    let n = if addresses.len() < buf_len { addresses.len() } else { buf_len };
    let mut out: Vec<u8> = Vec::new();
    let mut i: usize = 0;
    while i < n
        invariant
            i <= n,
            n <= addresses@.len(),
            out@ == addresses@.take(i as int),
        decreases n - i,
    {
        out.push(addresses[i]);
        assert(addresses@.take(i + 1) =~= addresses@.take(i as int).push(addresses@[i as int]));
        i = i + 1;
    }
    out
}

/// The bytes a UART read copies into a buffer of `count` bytes, at most
/// that many.
pub fn uart_read_copy(data: &[u8], count: u16) -> (res: Vec<u8>)
    ensures
        res@ == data@.take(if data@.len() < count { data@.len() as int } else { count as int }),
        res@.len() <= count,
{
    scan_copy(data, count as usize)
}

/// What an SPI configuration query reports to C: the frequency, whether
/// data is captured on the second clock transition (CPHA=1), and whether
/// the clock idles high (CPOL=1).
pub fn spi_config_to_c(info: &SpiConfigurationInfo) -> (res: (u32, bool, bool))
    ensures
        res.0 == info.spi_frequency,
        res.1 == (info.spi_phase == SpiPhase::CaptureOnSecondTransition),
        res.2 == (info.spi_polarity == SpiPolarity::IdleHigh),
{
    let phase = match info.spi_phase {
        SpiPhase::CaptureOnSecondTransition => true,
        SpiPhase::CaptureOnFirstTransition => false,
    };
    let polarity = match info.spi_polarity {
        SpiPolarity::IdleHigh => true,
        SpiPolarity::IdleLow => false,
    };
    (info.spi_frequency, phase, polarity)
}

/// The SPI mode a C caller asks for: `true` phase captures on the second
/// transition (CPHA=1), `true` polarity idles high (CPOL=1).
pub fn spi_mode_from_c(spi_phase: bool, spi_polarity: bool) -> (res: (SpiPhase, SpiPolarity))
    ensures
        res.0 == (if spi_phase { SpiPhase::CaptureOnSecondTransition } else { SpiPhase::CaptureOnFirstTransition }),
        res.1 == (if spi_polarity { SpiPolarity::IdleHigh } else { SpiPolarity::IdleLow }),
{
    let phase = if spi_phase {
        SpiPhase::CaptureOnSecondTransition
    } else {
        SpiPhase::CaptureOnFirstTransition
    };
    let polarity = if spi_polarity {
        SpiPolarity::IdleHigh
    } else {
        SpiPolarity::IdleLow
    };
    (phase, polarity)
}

/// C-compatible device information.
#[derive(Debug, Clone, Copy, PartialEq, Eq, Structural)]
pub struct GalloDeviceInfo {
    /// Firmware version, major.
    pub fw_major: u16,
    /// Firmware version, minor.
    pub fw_minor: u16,
    /// Firmware version, patch.
    pub fw_patch: u32,
    /// Schema version, major.
    pub schema_major: u16,
    /// Schema version, minor.
    pub schema_minor: u16,
    /// Schema version, patch.
    pub schema_patch: u32,
    /// Hardware revision number.
    pub hw_version: u8,
    /// Peripheral capabilities bit field (`GALLO_CAP_*`).
    pub capabilities: u64,
}

/// What a device-information query reports to C: the record when the
/// firmware is compatible, else `SchemaMismatch`, `LegacyFirmware`, or
/// `DeviceInfoFailed` for a transport failure.
pub fn device_info_outcome(result: &Result<DeviceInfo, ValidateError>) -> (res: (Status, Option<GalloDeviceInfo>))
    ensures
        match result {
            Ok(info) => res.0 == Status::Success && res.1 == Some(
                GalloDeviceInfo {
                    fw_major: info.fw_major,
                    fw_minor: info.fw_minor,
                    fw_patch: info.fw_patch,
                    schema_major: info.schema_major,
                    schema_minor: info.schema_minor,
                    schema_patch: info.schema_patch,
                    hw_version: info.hw_version,
                    capabilities: info.capabilities.0,
                },
            ),
            Err(ValidateError::SchemaMismatch { .. }) => res.0 == Status::SchemaMismatch && res.1 is None,
            Err(ValidateError::LegacyFirmware) => res.0 == Status::LegacyFirmware && res.1 is None,
            Err(ValidateError::Comms(_)) => res.0 == Status::DeviceInfoFailed && res.1 is None,
        },
{
    match result {
        Ok(info) => (
            Status::Success,
            Some(
                GalloDeviceInfo {
                    fw_major: info.fw_major,
                    fw_minor: info.fw_minor,
                    fw_patch: info.fw_patch,
                    schema_major: info.schema_major,
                    schema_minor: info.schema_minor,
                    schema_patch: info.schema_patch,
                    hw_version: info.hw_version,
                    capabilities: info.capabilities.bits(),
                },
            ),
        ),
        Err(ValidateError::SchemaMismatch { .. }) => (Status::SchemaMismatch, None),
        Err(ValidateError::LegacyFirmware) => (Status::LegacyFirmware, None),
        Err(ValidateError::Comms(_)) => (Status::DeviceInfoFailed, None),
    }
}

/// Progress of a 1-Wire ROM search on behalf of a C caller with room for
/// `max_count` IDs: the first search always runs; further ones run while
/// fewer than `max_count` IDs were found, until the bus reports no more.
/// At most `max_count` IDs are ever kept.
#[derive(Debug, Clone)]
pub struct RomSearch {
    /// Room in the caller's array.
    pub max_count: u16,
    /// The IDs found so far, in the order the bus reported them.
    pub ids: Vec<u64>,
    /// Whether the first search was answered.
    pub started: bool,
    /// The final status, once the search is over.
    pub finished: Option<Status>,
}

impl RomSearch {
    /// The IDs found stay within the caller's room, and a search still
    /// under way has room left.
    pub open spec fn wf(&self) -> bool {
        &&& self.ids@.len() <= self.max_count
        &&& !self.started ==> self.ids@.len() == 0 && self.finished is None
        &&& self.finished is None && self.started ==> 1 <= self.ids@.len() < self.max_count
    }

    /// A search that has not asked the bus yet.
    pub fn new(max_count: u16) -> (res: RomSearch)
        ensures
            res.wf(),
            res.max_count == max_count,
            res.ids@ == Seq::<u64>::empty(),
            !res.started,
            res.finished is None,
    {
        RomSearch { max_count, ids: Vec::new(), started: false, finished: None }
    }

    /// Whether another search must be sent to the bus: the first one, or
    /// a next one while there is room and the bus has more.
    pub fn wants_more(&self) -> (res: bool)
        ensures
            res == (self.finished is None),
    {
        self.finished.is_none()
    }

    /// Takes the bus's answer to the last search. An ID is stored when
    /// there is room for it; the search ends with `Success` when the bus
    /// has no more devices or the room is full (an ID found with no room
    /// left is dropped), and with the 1-Wire status of an error.
    pub fn record(&mut self, reply: Result<Option<u64>, PicoDeGalloError<OneWireError>>)
        requires
            old(self).wf(),
            old(self).finished is None,
        ensures
            final(self).wf(),
            final(self).max_count == old(self).max_count,
            final(self).started,
            match reply {
                Ok(Some(id)) => if old(self).ids@.len() < old(self).max_count {
                    final(self).ids@ == old(self).ids@.push(id) && final(self).finished == (
                    if final(self).ids@.len() >= old(self).max_count {
                        Some(Status::Success)
                    } else {
                        None::<Status>
                    })
                } else {
                    final(self).ids@ == old(self).ids@ && final(self).finished == Some(Status::Success)
                },
                Ok(None) => final(self).ids@ == old(self).ids@ && final(self).finished == Some(
                    Status::Success,
                ),
                Err(PicoDeGalloError::Endpoint(k)) => final(self).ids@ == old(self).ids@
                    && final(self).finished == Some(
                    onewire_status(k),
                ),
                Err(PicoDeGalloError::Comms(_)) => final(self).ids@ == old(self).ids@
                    && final(self).finished == Some(Status::CommsFailed),
            },
    {
        match reply {
            Ok(Some(id)) => {
                if self.ids.len() < self.max_count as usize {
                    self.ids.push(id);
                    if self.ids.len() >= self.max_count as usize {
                        self.finished = Some(Status::Success);
                    }
                } else {
                    self.finished = Some(Status::Success);
                }
            },
            Ok(None) => {
                self.finished = Some(Status::Success);
            },
            Err(e) => {
                let s = onewire_error_to_status(&e);
                self.finished = Some(s);
            },
        }
        self.started = true;
    }

    /// The number of IDs to report to the caller.
    pub fn count(&self) -> (res: u16)
        requires
            self.wf(),
        ensures
            res == self.ids@.len(),
    {
        self.ids.len() as u16
    }
}

/// A ROM search never keeps more IDs than the caller has room for; with
/// no room at all it keeps none.
pub proof fn lemma_rom_search_within_room(s: RomSearch)
    requires
        s.wf(),
    ensures
        s.ids@.len() <= s.max_count,
        s.max_count == 0 ==> s.ids@.len() == 0,
{
}

/// The status of each 1-Wire endpoint error.
pub open spec fn onewire_status(k: OneWireError) -> Status {
    match k {
        OneWireError::NoPresence => Status::OneWireNoPresence,
        OneWireError::BusError => Status::OneWireBusError,
        OneWireError::BufferTooLong => Status::BufferTooLong,
        OneWireError::Other => Status::OneWireReadFailed,
        OneWireError::Unsupported => Status::Unsupported,
    }
}

} // verus!
