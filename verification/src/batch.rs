//! Transaction batching: typed I2C and SPI operations, their postcard
//! byte stream, the length of the data a batch answers with, and the
//! errors a failed batch reports.
//!
//! An operation is written as the varint of its variant index followed by
//! its field: a varint length for `Read`, a length-prefixed byte string
//! for `Write` and `Transfer`, a varint nanosecond count for `DelayNs`.
//! The stream of a batch is the concatenation of its operations.

use vstd::prelude::*;
use crate::varint::{
    lemma_bytes_round_trip, lemma_u16_round_trip, lemma_u32_round_trip, postcard_bytes, postcard_u16,
    postcard_take_bytes, postcard_take_u16, postcard_take_u32, postcard_u32, spec_take_bytes,
    spec_take_u16, spec_take_u32, spec_varint, lemma_take_varint_len, lemma_take_bytes_len,
};
use crate::wire::{I2cError, SpiError, MAX_BATCH_OPS};
use crate::text::{push_decimal, push_str, spec_decimal};

verus! {

/// What an operation of either bus means, as the wire sees it.
pub enum BatchOpModel {
    /// Read this many bytes.
    Read(u16),
    /// Write these bytes.
    Write(Seq<u8>),
    /// Send these bytes and receive as many.
    Transfer(Seq<u8>),
    /// Wait this many nanoseconds.
    DelayNs(u32),
}

/// A single I2C operation for building a batch request.
///
/// Variants are encoded by index: do not reorder them.
#[derive(Debug, Clone, PartialEq)]
pub enum I2cBatchOp {
    /// Read `len` bytes from the device.
    Read { len: u16 },
    /// Write `data` to the device.
    Write { data: Vec<u8> },
}

impl View for I2cBatchOp {
    type V = BatchOpModel;

    open spec fn view(&self) -> BatchOpModel {
        match self {
            I2cBatchOp::Read { len } => BatchOpModel::Read(*len),
            I2cBatchOp::Write { data } => BatchOpModel::Write(data@),
        }
    }
}

/// A single SPI operation for building a batch request.
///
/// Variants are encoded by index: do not reorder them.
#[derive(Debug, Clone, PartialEq)]
pub enum SpiBatchOp {
    /// Read `len` bytes from the bus (MISO only).
    Read { len: u16 },
    /// Write `data` to the bus (MOSI only).
    Write { data: Vec<u8> },
    /// Full-duplex transfer: send `data`, receive as many bytes.
    Transfer { data: Vec<u8> },
    /// Delay for `ns` nanoseconds (best effort).
    DelayNs { ns: u32 },
}

impl View for SpiBatchOp {
    type V = BatchOpModel;

    open spec fn view(&self) -> BatchOpModel {
        match self {
            SpiBatchOp::Read { len } => BatchOpModel::Read(*len),
            SpiBatchOp::Write { data } => BatchOpModel::Write(data@),
            SpiBatchOp::Transfer { data } => BatchOpModel::Transfer(data@),
            SpiBatchOp::DelayNs { ns } => BatchOpModel::DelayNs(*ns),
        }
    }
}

/// The operations of an I2C batch, as models.
pub open spec fn i2c_ops_model(ops: Seq<I2cBatchOp>) -> Seq<BatchOpModel> {
    ops.map_values(|o: I2cBatchOp| o@)
}

/// The operations of an SPI batch, as models.
pub open spec fn spi_ops_model(ops: Seq<SpiBatchOp>) -> Seq<BatchOpModel> {
    ops.map_values(|o: SpiBatchOp| o@)
}

/// The variant index of an operation.
pub open spec fn spec_op_index(op: BatchOpModel) -> nat {
    match op {
        BatchOpModel::Read(_) => 0,
        BatchOpModel::Write(_) => 1,
        BatchOpModel::Transfer(_) => 2,
        BatchOpModel::DelayNs(_) => 3,
    }
}

/// The bytes of one operation.
pub open spec fn spec_op_bytes(op: BatchOpModel) -> Seq<u8> {
    spec_varint(spec_op_index(op)) + match op {
        BatchOpModel::Read(len) => spec_varint(len as nat),
        BatchOpModel::Write(d) => spec_varint(d.len()) + d,
        BatchOpModel::Transfer(d) => spec_varint(d.len()) + d,
        BatchOpModel::DelayNs(ns) => spec_varint(ns as nat),
    }
}

/// The byte stream of a sequence of operations: their bytes, in order.
pub open spec fn spec_ops_bytes(ops: Seq<BatchOpModel>) -> Seq<u8>
    decreases ops.len(),
{
    if ops.len() == 0 {
        Seq::empty()
    } else {
        spec_op_bytes(ops[0]) + spec_ops_bytes(ops.drop_first())
    }
}

/// Whether an operation's payload is no longer than a length the wire's
/// `usize` prefix can carry (always so for a payload held in memory).
pub open spec fn spec_op_sized(op: BatchOpModel) -> bool {
    match op {
        BatchOpModel::Write(d) => d.len() <= usize::MAX,
        BatchOpModel::Transfer(d) => d.len() <= usize::MAX,
        _ => true,
    }
}

/// Whether every operation's payload length fits the wire's `usize` prefix.
pub open spec fn spec_ops_sized(ops: Seq<BatchOpModel>) -> bool {
    forall|i: int| 0 <= i < ops.len() ==> #[trigger] spec_op_sized(ops[i])
}

/// Number of response bytes one operation contributes.
pub open spec fn spec_op_response_len(op: BatchOpModel) -> nat {
    match op {
        BatchOpModel::Read(len) => len as nat,
        BatchOpModel::Transfer(d) => d.len(),
        _ => 0,
    }
}

/// Number of response bytes of a batch: the sum over its operations.
pub open spec fn spec_response_len(ops: Seq<BatchOpModel>) -> nat
    decreases ops.len(),
{
    if ops.len() == 0 {
        0
    } else {
        spec_op_response_len(ops[0]) + spec_response_len(ops.drop_first())
    }
}

/// Postcard's decoder of one operation whose variant index may go up to
/// `max_index`: the operation and the number of bytes read.
pub open spec fn spec_take_op(s: Seq<u8>, max_index: nat) -> Option<(BatchOpModel, nat)> {
    match spec_take_u32(s) {
        None => None,
        Some((index, k)) => {
            let r = s.skip(k as int);
            if index == 0 {
                match spec_take_u16(r) {
                    Some((v, j)) => Some((BatchOpModel::Read(v as u16), k + j)),
                    None => None,
                }
            } else if index == 1 && max_index >= 1 {
                match spec_take_bytes(r) {
                    Some((d, j)) => Some((BatchOpModel::Write(d), k + j)),
                    None => None,
                }
            } else if index == 2 && max_index >= 2 {
                match spec_take_bytes(r) {
                    Some((d, j)) => Some((BatchOpModel::Transfer(d), k + j)),
                    None => None,
                }
            } else if index == 3 && max_index >= 3 {
                match spec_take_u32(r) {
                    Some((v, j)) => Some((BatchOpModel::DelayNs(v as u32), k + j)),
                    None => None,
                }
            } else {
                None
            }
        },
    }
}

/// Decoding a whole stream by taking operations until no byte is left:
/// the operations, or `None` when one of them does not decode.
pub open spec fn spec_decode_ops(s: Seq<u8>, max_index: nat) -> Option<Seq<BatchOpModel>>
    decreases s.len(),
{
    if s.len() == 0 {
        Some(Seq::empty())
    } else {
        match spec_take_op(s, max_index) {
            Some((op, k)) => if 0 < k <= s.len() {
                match spec_decode_ops(s.skip(k as int), max_index) {
                    Some(rest) => Some(seq![op] + rest),
                    None => None,
                }
            } else {
                None
            },
            None => None,
        }
    }
}

proof fn lemma_ops_bytes_push(ops: Seq<BatchOpModel>, op: BatchOpModel)
    ensures
        spec_ops_bytes(ops.push(op)) == spec_ops_bytes(ops) + spec_op_bytes(op),
    decreases ops.len(),
{
    let p = ops.push(op);
    if ops.len() == 0 {
        assert(p[0] == op);
        assert(p.drop_first() =~= Seq::<BatchOpModel>::empty());
        assert(spec_ops_bytes(p.drop_first()) == Seq::<u8>::empty());
        assert(spec_ops_bytes(p) =~= spec_op_bytes(op));
        assert(spec_ops_bytes(ops) == Seq::<u8>::empty());
        assert(spec_ops_bytes(p) =~= spec_ops_bytes(ops) + spec_op_bytes(op));
    } else {
        lemma_ops_bytes_push(ops.drop_first(), op);
        assert(p[0] == ops[0]);
        assert(p.drop_first() =~= ops.drop_first().push(op));
        assert(spec_ops_bytes(p) =~= spec_ops_bytes(ops) + spec_op_bytes(op));
    }
}

proof fn lemma_response_len_push(ops: Seq<BatchOpModel>, op: BatchOpModel)
    ensures
        spec_response_len(ops.push(op)) == spec_response_len(ops) + spec_op_response_len(op),
    decreases ops.len(),
{
    let p = ops.push(op);
    if ops.len() == 0 {
        assert(p[0] == op);
        assert(p.drop_first() =~= Seq::<BatchOpModel>::empty());
        assert(spec_response_len(p.drop_first()) == 0);
    } else {
        lemma_response_len_push(ops.drop_first(), op);
        assert(p[0] == ops[0]);
        assert(p.drop_first() =~= ops.drop_first().push(op));
    }
}

/// Decoding the bytes of one operation, followed by any bytes, gives the
/// operation back and consumes exactly its bytes.
proof fn lemma_op_round_trip(op: BatchOpModel, rest: Seq<u8>, max_index: nat)
    requires
        spec_op_sized(op),
        spec_op_index(op) <= max_index,
    ensures
        spec_take_op(spec_op_bytes(op) + rest, max_index) == Some((op, spec_op_bytes(op).len())),
{
    let idx = spec_op_index(op);
    let body = spec_op_bytes(op).skip(spec_varint(idx).len() as int);
    assert(spec_op_bytes(op) =~= spec_varint(idx) + body);
    let s = spec_op_bytes(op) + rest;
    assert(s =~= spec_varint(idx) + (body + rest));
    lemma_u32_round_trip(idx, body + rest);
    let k = spec_varint(idx).len();
    assert(s.skip(k as int) =~= body + rest);
    match op {
        BatchOpModel::Read(len) => {
            assert(body =~= spec_varint(len as nat));
            lemma_u16_round_trip(len as nat, rest);
            assert(idx == 0);
        },
        BatchOpModel::Write(d) => {
            assert(body =~= spec_varint(d.len()) + d);
            assert(body + rest =~= spec_varint(d.len()) + d + rest);
            lemma_bytes_round_trip(d, rest);
        },
        BatchOpModel::Transfer(d) => {
            assert(body =~= spec_varint(d.len()) + d);
            assert(body + rest =~= spec_varint(d.len()) + d + rest);
            lemma_bytes_round_trip(d, rest);
        },
        BatchOpModel::DelayNs(ns) => {
            assert(body =~= spec_varint(ns as nat));
            lemma_u32_round_trip(ns as nat, rest);
        },
    }
}

/// Round trip of a batch stream: taking operations from the bytes of a
/// sequence of operations, until none is left, gives back exactly that
/// sequence, whenever each payload length fits the wire's `usize` prefix
/// and each variant is one the decoder knows.
pub proof fn lemma_ops_round_trip(ops: Seq<BatchOpModel>, max_index: nat)
    requires
        spec_ops_sized(ops),
        forall|i: int| 0 <= i < ops.len() ==> #[trigger] spec_op_index(ops[i]) <= max_index,
    ensures
        spec_decode_ops(spec_ops_bytes(ops), max_index) == Some(ops),
    decreases ops.len(),
{
    if ops.len() == 0 {
        assert(spec_ops_bytes(ops).len() == 0);
    } else {
        let first = ops[0];
        let tail = ops.drop_first();
        assert(spec_op_sized(ops[0]));
        assert(spec_op_index(ops[0]) <= max_index);
        assert forall|i: int| 0 <= i < tail.len() implies #[trigger] spec_op_sized(tail[i])
            && spec_op_index(tail[i]) <= max_index by {
            assert(tail[i] == ops[i + 1]);
            assert(spec_op_sized(ops[i + 1]));
            assert(spec_op_index(ops[i + 1]) <= max_index);
        }
        lemma_ops_round_trip(tail, max_index);
        let s = spec_ops_bytes(ops);
        lemma_op_round_trip(first, spec_ops_bytes(tail), max_index);
        let k = spec_op_bytes(first).len();
        assert(s.skip(k as int) =~= spec_ops_bytes(tail));
        assert(seq![first] + tail =~= ops);
    }
}

/// Decoding what `encode_i2c_batch_ops` produced, operation by operation,
/// gives back the I2C operations in order.
pub proof fn lemma_i2c_batch_round_trip(ops: Seq<I2cBatchOp>)
    ensures
        spec_decode_ops(spec_ops_bytes(i2c_ops_model(ops)), 1) == Some(i2c_ops_model(ops)),
{
    let m = i2c_ops_model(ops);
    assert forall|i: int| 0 <= i < m.len() implies #[trigger] spec_op_index(m[i]) <= 1 by {
        assert(m[i] == ops[i]@);
    }
    assert forall|i: int| 0 <= i < m.len() implies #[trigger] spec_op_sized(m[i]) by {
        assert(m[i] == ops[i]@);
        match ops[i] {
            I2cBatchOp::Write { data } => {
                assert(data.len() == data@.len());
            },
            _ => {},
        }
    }
    lemma_ops_round_trip(m, 1);
}

/// Decoding what `encode_spi_batch_ops` produced, operation by operation,
/// gives back the SPI operations in order.
pub proof fn lemma_spi_batch_round_trip(ops: Seq<SpiBatchOp>)
    ensures
        spec_decode_ops(spec_ops_bytes(spi_ops_model(ops)), 3) == Some(spi_ops_model(ops)),
{
    let m = spi_ops_model(ops);
    assert forall|i: int| 0 <= i < m.len() implies #[trigger] spec_op_index(m[i]) <= 3 by {}
    assert forall|i: int| 0 <= i < m.len() implies #[trigger] spec_op_sized(m[i]) by {
        assert(m[i] == ops[i]@);
        match ops[i] {
            SpiBatchOp::Write { data } => {
                assert(data.len() == data@.len());
            },
            SpiBatchOp::Transfer { data } => {
                assert(data.len() == data@.len());
            },
            _ => {},
        }
    }
    lemma_ops_round_trip(m, 3);
}

/// The bytes of one I2C operation.
fn i2c_op_bytes(op: &I2cBatchOp) -> (res: Vec<u8>)
    ensures
        res@ == spec_op_bytes(op@),
{
    match op {
        I2cBatchOp::Read { len } => {
            let mut v = postcard_u32(0);
            let mut f = postcard_u16(*len);
            v.append(&mut f);
            v
        },
        I2cBatchOp::Write { data } => {
            let mut v = postcard_u32(1);
            let mut f = postcard_bytes(data.as_slice());
            v.append(&mut f);
            assert(v@ =~= spec_op_bytes(op@));
            v
        },
    }
}

/// The bytes of one SPI operation.
fn spi_op_bytes(op: &SpiBatchOp) -> (res: Vec<u8>)
    ensures
        res@ == spec_op_bytes(op@),
{
    match op {
        SpiBatchOp::Read { len } => {
            let mut v = postcard_u32(0);
            let mut f = postcard_u16(*len);
            v.append(&mut f);
            v
        },
        SpiBatchOp::Write { data } => {
            let mut v = postcard_u32(1);
            let mut f = postcard_bytes(data.as_slice());
            v.append(&mut f);
            assert(v@ =~= spec_op_bytes(op@));
            v
        },
        SpiBatchOp::Transfer { data } => {
            let mut v = postcard_u32(2);
            let mut f = postcard_bytes(data.as_slice());
            v.append(&mut f);
            assert(v@ =~= spec_op_bytes(op@));
            v
        },
        SpiBatchOp::DelayNs { ns } => {
            let mut v = postcard_u32(3);
            let mut f = postcard_u32(*ns);
            v.append(&mut f);
            v
        },
    }
}

/// Encodes a sequence of I2C batch operations into the postcard byte
/// stream carried by [`I2cBatchRequest::ops`].
///
/// At most [`MAX_BATCH_OPS`] operations are accepted.
pub fn encode_i2c_batch_ops(ops: &[I2cBatchOp]) -> (res: Vec<u8>)
    requires
        ops@.len() <= MAX_BATCH_OPS,
    ensures
        res@ == spec_ops_bytes(i2c_ops_model(ops@)),
{
    let mut buf: Vec<u8> = Vec::new();
    let mut i: usize = 0;
    while i < ops.len()
        invariant
            i <= ops@.len(),
            buf@ == spec_ops_bytes(i2c_ops_model(ops@.take(i as int))),
        decreases ops@.len() - i,
    {
        let mut piece = i2c_op_bytes(&ops[i]);
        buf.append(&mut piece);
        proof {
            lemma_ops_bytes_push(i2c_ops_model(ops@.take(i as int)), ops@[i as int]@);
            assert(i2c_ops_model(ops@.take(i + 1)) =~= i2c_ops_model(ops@.take(i as int)).push(
                ops@[i as int]@,
            ));
        }
        i = i + 1;
    }
    assert(ops@.take(i as int) =~= ops@);
    buf
}

/// Encodes a sequence of SPI batch operations into the postcard byte
/// stream carried by [`SpiBatchRequest::ops`].
///
/// At most [`MAX_BATCH_OPS`] operations are accepted.
pub fn encode_spi_batch_ops(ops: &[SpiBatchOp]) -> (res: Vec<u8>)
    requires
        ops@.len() <= MAX_BATCH_OPS,
    ensures
        res@ == spec_ops_bytes(spi_ops_model(ops@)),
{
    let mut buf: Vec<u8> = Vec::new();
    let mut i: usize = 0;
    while i < ops.len()
        invariant
            i <= ops@.len(),
            buf@ == spec_ops_bytes(spi_ops_model(ops@.take(i as int))),
        decreases ops@.len() - i,
    {
        let mut piece = spi_op_bytes(&ops[i]);
        buf.append(&mut piece);
        proof {
            lemma_ops_bytes_push(spi_ops_model(ops@.take(i as int)), ops@[i as int]@);
            assert(spi_ops_model(ops@.take(i + 1)) =~= spi_ops_model(ops@.take(i as int)).push(
                ops@[i as int]@,
            ));
        }
        i = i + 1;
    }
    assert(ops@.take(i as int) =~= ops@);
    buf
}

/// Total number of bytes in the response to an I2C batch: the sum of all
/// `Read` lengths.
pub fn i2c_batch_response_len(ops: &[I2cBatchOp]) -> (res: usize)
    requires
        spec_response_len(i2c_ops_model(ops@)) <= usize::MAX,
    ensures
        res == spec_response_len(i2c_ops_model(ops@)),
{
    let mut total: usize = 0;
    let mut i: usize = 0;
    while i < ops.len()
        invariant
            i <= ops@.len(),
            total == spec_response_len(i2c_ops_model(ops@.take(i as int))),
            spec_response_len(i2c_ops_model(ops@)) <= usize::MAX,
        decreases ops@.len() - i,
    {
        proof {
            lemma_response_len_push(i2c_ops_model(ops@.take(i as int)), ops@[i as int]@);
            assert(i2c_ops_model(ops@.take(i + 1)) =~= i2c_ops_model(ops@.take(i as int)).push(
                ops@[i as int]@,
            ));
            lemma_response_len_prefix(i2c_ops_model(ops@), (i + 1) as nat);
            assert(i2c_ops_model(ops@).take(i + 1) =~= i2c_ops_model(ops@.take(i + 1)));
        }
        match &ops[i] {
            I2cBatchOp::Read { len } => {
                total = total + *len as usize;
            },
            I2cBatchOp::Write { .. } => {},
        }
        i = i + 1;
    }
    assert(ops@.take(i as int) =~= ops@);
    total
}

/// Total number of bytes in the response to an SPI batch: the sum of the
/// `Read` lengths and `Transfer` payload lengths.
pub fn spi_batch_response_len(ops: &[SpiBatchOp]) -> (res: usize)
    requires
        spec_response_len(spi_ops_model(ops@)) <= usize::MAX,
    ensures
        res == spec_response_len(spi_ops_model(ops@)),
{
    let mut total: usize = 0;
    let mut i: usize = 0;
    while i < ops.len()
        invariant
            i <= ops@.len(),
            total == spec_response_len(spi_ops_model(ops@.take(i as int))),
            spec_response_len(spi_ops_model(ops@)) <= usize::MAX,
        decreases ops@.len() - i,
    {
        proof {
            lemma_response_len_push(spi_ops_model(ops@.take(i as int)), ops@[i as int]@);
            assert(spi_ops_model(ops@.take(i + 1)) =~= spi_ops_model(ops@.take(i as int)).push(
                ops@[i as int]@,
            ));
            lemma_response_len_prefix(spi_ops_model(ops@), (i + 1) as nat);
            assert(spi_ops_model(ops@).take(i + 1) =~= spi_ops_model(ops@.take(i + 1)));
        }
        match &ops[i] {
            SpiBatchOp::Read { len } => {
                total = total + *len as usize;
            },
            SpiBatchOp::Transfer { data } => {
                total = total + data.len();
            },
            _ => {},
        }
        i = i + 1;
    }
    assert(ops@.take(i as int) =~= ops@);
    total
}

proof fn lemma_response_len_prefix(ops: Seq<BatchOpModel>, n: nat)
    requires
        n <= ops.len(),
    ensures
        spec_response_len(ops.take(n as int)) <= spec_response_len(ops),
    decreases ops.len() - n,
{
    if n < ops.len() {
        lemma_response_len_prefix(ops, n + 1);
        lemma_response_len_push(ops.take(n as int), ops[n as int]);
        assert(ops.take(n + 1 as int) =~= ops.take(n as int).push(ops[n as int]));
    } else {
        assert(ops.take(n as int) =~= ops);
    }
}

/// A successful decode of one operation reads at least one byte and no
/// more than the input holds.
proof fn lemma_take_op_len(s: Seq<u8>, max_index: nat)
    ensures
        spec_take_op(s, max_index) matches Some((op, k)) ==> 1 <= k <= s.len(),
{
    lemma_take_varint_len(s, 5, 15);
    if let Some((index, k)) = spec_take_u32(s) {
        let r = s.skip(k as int);
        lemma_take_varint_len(r, 3, 3);
        lemma_take_varint_len(r, 5, 15);
        lemma_take_bytes_len(r);
    }
}

/// Takes one I2C operation from the front of `s`, as
/// `postcard::take_from_bytes::<I2cBatchOp>` does: the operation and the
/// bytes after it.
pub fn take_i2c_op(s: &[u8]) -> (res: Option<(I2cBatchOp, Vec<u8>)>)
    ensures
        match spec_take_op(s@, 1) {
            Some((op, k)) => res matches Some((o, rest)) && o@ == op && rest@ == s@.skip(k as int),
            None => res is None,
        },
{
    match postcard_take_u32(s) {
        None => None,
        Some((index, r)) => {
            let ghost k = spec_take_u32(s@)->Some_0.1;
            proof {
                lemma_take_varint_len(s@, 5, 15);
                lemma_take_varint_len(r@, 3, 3);
                lemma_take_varint_len(r@, 5, 15);
                lemma_take_bytes_len(r@);
            }
            if index == 0 {
                match postcard_take_u16(r.as_slice()) {
                    Some((len, rest)) => {
                        proof {
                            let j = spec_take_u16(r@)->Some_0.1;
                            assert(rest@ =~= s@.skip((k + j) as int));
                        }
                        Some((I2cBatchOp::Read { len }, rest))
                    },
                    None => None,
                }
            } else if index == 1 {
                match postcard_take_bytes(r.as_slice()) {
                    Some((data, rest)) => {
                        proof {
                            let j = spec_take_bytes(r@)->Some_0.1;
                            assert(rest@ =~= s@.skip((k + j) as int));
                        }
                        Some((I2cBatchOp::Write { data }, rest))
                    },
                    None => None,
                }
            } else {
                None
            }
        },
    }
}

/// Takes one SPI operation from the front of `s`, as
/// `postcard::take_from_bytes::<SpiBatchOp>` does: the operation and the
/// bytes after it.
pub fn take_spi_op(s: &[u8]) -> (res: Option<(SpiBatchOp, Vec<u8>)>)
    ensures
        match spec_take_op(s@, 3) {
            Some((op, k)) => res matches Some((o, rest)) && o@ == op && rest@ == s@.skip(k as int),
            None => res is None,
        },
{
    match postcard_take_u32(s) {
        None => None,
        Some((index, r)) => {
            let ghost k = spec_take_u32(s@)->Some_0.1;
            proof {
                lemma_take_varint_len(s@, 5, 15);
                lemma_take_varint_len(r@, 3, 3);
                lemma_take_varint_len(r@, 5, 15);
                lemma_take_bytes_len(r@);
            }
            if index == 0 {
                match postcard_take_u16(r.as_slice()) {
                    Some((len, rest)) => {
                        proof {
                            let j = spec_take_u16(r@)->Some_0.1;
                            assert(rest@ =~= s@.skip((k + j) as int));
                        }
                        Some((SpiBatchOp::Read { len }, rest))
                    },
                    None => None,
                }
            } else if index == 1 || index == 2 {
                match postcard_take_bytes(r.as_slice()) {
                    Some((data, rest)) => {
                        proof {
                            let j = spec_take_bytes(r@)->Some_0.1;
                            assert(rest@ =~= s@.skip((k + j) as int));
                        }
                        if index == 1 {
                            Some((SpiBatchOp::Write { data }, rest))
                        } else {
                            Some((SpiBatchOp::Transfer { data }, rest))
                        }
                    },
                    None => None,
                }
            } else if index == 3 {
                match postcard_take_u32(r.as_slice()) {
                    Some((ns, rest)) => {
                        proof {
                            let j = spec_take_u32(r@)->Some_0.1;
                            assert(rest@ =~= s@.skip((k + j) as int));
                        }
                        Some((SpiBatchOp::DelayNs { ns }, rest))
                    },
                    None => None,
                }
            } else {
                None
            }
        },
    }
}

/// Decodes a whole I2C operation stream by taking operations until no
/// byte is left; `None` when one of them does not decode.
pub fn decode_i2c_batch_ops(bytes: &[u8]) -> (res: Option<Vec<I2cBatchOp>>)
    ensures
        match spec_decode_ops(bytes@, 1) {
            Some(ops) => res matches Some(v) && i2c_ops_model(v@) == ops,
            None => res is None,
        },
{
    let mut decoded: Vec<I2cBatchOp> = Vec::new();
    let mut remaining: Vec<u8> = vstd::slice::slice_to_vec(bytes);
    while remaining.len() > 0
        invariant
            spec_decode_ops(bytes@, 1) == match spec_decode_ops(remaining@, 1) {
                Some(r) => Some(i2c_ops_model(decoded@) + r),
                None => None,
            },
        decreases remaining@.len(),
    {
        match take_i2c_op(remaining.as_slice()) {
            None => {
                return None;
            },
            Some((op, rest)) => {
                proof {
                    lemma_take_op_len(remaining@, 1);
                }
                proof {
                    assert(i2c_ops_model(decoded@.push(op)) =~= i2c_ops_model(decoded@).push(op@));
                    match spec_decode_ops(rest@, 1) {
                        Some(r2) => {
                            assert(i2c_ops_model(decoded@) + (seq![op@] + r2) =~= i2c_ops_model(
                                decoded@.push(op),
                            ) + r2);
                        },
                        None => {},
                    }
                }
                decoded.push(op);
                remaining = rest;
            },
        }
    }
    proof {
        assert(i2c_ops_model(decoded@) + Seq::<BatchOpModel>::empty() =~= i2c_ops_model(decoded@));
    }
    Some(decoded)
}

/// Decodes a whole SPI operation stream by taking operations until no
/// byte is left; `None` when one of them does not decode.
pub fn decode_spi_batch_ops(bytes: &[u8]) -> (res: Option<Vec<SpiBatchOp>>)
    ensures
        match spec_decode_ops(bytes@, 3) {
            Some(ops) => res matches Some(v) && spi_ops_model(v@) == ops,
            None => res is None,
        },
{
    let mut decoded: Vec<SpiBatchOp> = Vec::new();
    let mut remaining: Vec<u8> = vstd::slice::slice_to_vec(bytes);
    while remaining.len() > 0
        invariant
            spec_decode_ops(bytes@, 3) == match spec_decode_ops(remaining@, 3) {
                Some(r) => Some(spi_ops_model(decoded@) + r),
                None => None,
            },
        decreases remaining@.len(),
    {
        match take_spi_op(remaining.as_slice()) {
            None => {
                return None;
            },
            Some((op, rest)) => {
                proof {
                    lemma_take_op_len(remaining@, 3);
                }
                proof {
                    assert(spi_ops_model(decoded@.push(op)) =~= spi_ops_model(decoded@).push(op@));
                    match spec_decode_ops(rest@, 3) {
                        Some(r2) => {
                            assert(spi_ops_model(decoded@) + (seq![op@] + r2) =~= spi_ops_model(
                                decoded@.push(op),
                            ) + r2);
                        },
                        None => {},
                    }
                }
                decoded.push(op);
                remaining = rest;
            },
        }
    }
    proof {
        assert(spi_ops_model(decoded@) + Seq::<BatchOpModel>::empty() =~= spi_ops_model(decoded@));
    }
    Some(decoded)
}

/// Request to execute a batch of I2C operations as one transaction.
#[derive(Debug, Clone, PartialEq)]
pub struct I2cBatchRequest {
    /// 7-bit I2C slave address.
    pub address: u8,
    /// Number of operations encoded in `ops`.
    pub count: u16,
    /// The encoded operation stream.
    pub ops: Vec<u8>,
}

/// Request to execute a batch of SPI operations under chip select.
#[derive(Debug, Clone, PartialEq)]
pub struct SpiBatchRequest {
    /// GPIO pin index (0–3) used as chip select.
    pub cs_pin: u8,
    /// Number of operations encoded in `ops`.
    pub count: u16,
    /// The encoded operation stream.
    pub ops: Vec<u8>,
}

/// The request of an I2C batch to the device at `address`: the count of
/// operations and their encoded stream.
pub fn i2c_batch_request(address: u8, ops: &[I2cBatchOp]) -> (res: I2cBatchRequest)
    requires
        ops@.len() <= MAX_BATCH_OPS,
    ensures
        res.address == address,
        res.count == ops@.len(),
        res.ops@ == spec_ops_bytes(i2c_ops_model(ops@)),
{
    let encoded = encode_i2c_batch_ops(ops);
    I2cBatchRequest { address, count: ops.len() as u16, ops: encoded }
}

/// The request of an SPI batch under chip select `cs_pin`: the count of
/// operations and their encoded stream.
pub fn spi_batch_request(cs_pin: u8, ops: &[SpiBatchOp]) -> (res: SpiBatchRequest)
    requires
        ops@.len() <= MAX_BATCH_OPS,
    ensures
        res.cs_pin == cs_pin,
        res.count == ops@.len(),
        res.ops@ == spec_ops_bytes(spi_ops_model(ops@)),
{
    let encoded = encode_spi_batch_ops(ops);
    SpiBatchRequest { cs_pin, count: ops.len() as u16, ops: encoded }
}

/// Error returned when an I2C batch fails: the zero-based index of the
/// failing operation and its I2C error. Operations before it completed;
/// their read data is not returned.
#[derive(Debug, Clone, Copy, PartialEq, Eq, Structural)]
pub struct I2cBatchError {
    /// Zero-based index of the operation that failed.
    pub failed_op: u16,
    /// The I2C error that occurred.
    pub kind: I2cError,
}

impl I2cBatchError {
    /// `I2C batch operation <n> failed: <kind>`.
    pub open spec fn spec_message(self) -> Seq<char> {
        "I2C batch operation "@ + spec_decimal(self.failed_op as nat) + " failed: "@
            + self.kind.spec_message()
    }

    /// Human-readable description of the error.
    pub fn message(&self) -> (res: String)
        ensures
            res@ == self.spec_message(),
    {
        let mut s = String::new();
        push_str(&mut s, "I2C batch operation ");
        push_decimal(&mut s, self.failed_op as u64);
        push_str(&mut s, " failed: ");
        let k = self.kind.message();
        push_str(&mut s, k.as_str());
        assert(s@ =~= self.spec_message());
        s
    }
}

/// Error returned when an SPI batch fails: the zero-based index of the
/// failing operation and its SPI error. Chip select is released even then.
#[derive(Debug, Clone, Copy, PartialEq, Eq, Structural)]
pub struct SpiBatchError {
    /// Zero-based index of the operation that failed.
    pub failed_op: u16,
    /// The SPI error that occurred.
    pub kind: SpiError,
}

impl SpiBatchError {
    /// `SPI batch operation <n> failed: <kind>`.
    pub open spec fn spec_message(self) -> Seq<char> {
        "SPI batch operation "@ + spec_decimal(self.failed_op as nat) + " failed: "@
            + self.kind.spec_message()
    }

    /// Human-readable description of the error.
    pub fn message(&self) -> (res: String)
        ensures
            res@ == self.spec_message(),
    {
        let mut s = String::new();
        push_str(&mut s, "SPI batch operation ");
        push_decimal(&mut s, self.failed_op as u64);
        push_str(&mut s, " failed: ");
        let k = self.kind.message();
        push_str(&mut s, k.as_str());
        assert(s@ =~= self.spec_message());
        s
    }
}

/// The bytes a batch answers with: each Read adds its length, each
/// Transfer as many bytes as it sends, and Writes and delays add nothing.
pub proof fn lemma_response_len_per_op(ops: Seq<BatchOpModel>, op: BatchOpModel)
    ensures
        spec_response_len(ops.push(op)) == spec_response_len(ops) + match op {
            BatchOpModel::Read(len) => len as nat,
            BatchOpModel::Transfer(d) => d.len(),
            BatchOpModel::Write(_) => 0,
            BatchOpModel::DelayNs(_) => 0,
        },
        spec_response_len(Seq::empty()) == 0,
{
    lemma_response_len_push(ops, op);
}

} // verus!
