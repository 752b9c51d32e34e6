//! Layout of the algorithm table: fixed-stride records of three-byte operations.
//!
//! The binary carries no header. Which of the two layouts a buffer has is inferred
//! from its length alone.

use vstd::prelude::*;
use crate::error::KeyError;

verus! {

/// Length at which a buffer is taken to be in the extended layout, provided that
/// the length is also a multiple of the extended stride.
pub const EXTENDED_MIN_LEN: usize = 4096;

/// The two record layouts.
#[derive(Debug, Clone, Copy, PartialEq, Eq, Structural)]
pub enum TableFormat {
    /// 13 bytes per record, of which the first 12 hold 4 operations.
    Legacy,
    /// 16 bytes per record, of which the first 15 hold 5 operations.
    Extended,
}

impl TableFormat {
    /// Distance in bytes from one record to the next.
    pub open spec fn spec_stride(self) -> nat {
        match self {
            TableFormat::Legacy => 13,
            TableFormat::Extended => 16,
        }
    }

    /// Number of operations in a record.
    pub open spec fn spec_op_count(self) -> nat {
        match self {
            TableFormat::Legacy => 4,
            TableFormat::Extended => 5,
        }
    }

    /// First byte of the record of algorithm `index`.
    pub open spec fn spec_record_offset(self, index: u8) -> nat {
        index as nat * self.spec_stride()
    }

    /// Whether the operations of record `index` lie within a buffer of `len` bytes.
    pub open spec fn record_fits(self, len: nat, index: u8) -> bool {
        self.spec_record_offset(index) + self.spec_op_count() * 3 <= len
    }

    /// Number of whole records in a buffer of `len` bytes.
    pub open spec fn spec_slot_count(self, len: nat) -> nat {
        len / self.spec_stride()
    }

    /// Returns the distance in bytes from one record to the next.
    pub fn stride(self) -> (r: usize)
        ensures
            r == self.spec_stride(),
    {
        match self {
            TableFormat::Legacy => 13,
            TableFormat::Extended => 16,
        }
    }

    /// Returns the number of operations in a record.
    pub fn op_count(self) -> (r: usize)
        ensures
            r == self.spec_op_count(),
    {
        match self {
            TableFormat::Legacy => 4,
            TableFormat::Extended => 5,
        }
    }

    /// Returns the offset of the first byte of the record of algorithm `index`.
    pub fn record_offset(self, index: u8) -> (r: usize)
        ensures
            r == self.spec_record_offset(index),
            r <= 255 * 16,
    {
        (index as usize) * self.stride()
    }
}

/// The layout that a buffer of `len` bytes is taken to have: extended when `len`
/// is at least 4096 and a multiple of 16, legacy otherwise.
pub open spec fn format_of_len(len: nat) -> TableFormat {
    if len >= 4096 && len % 16 == 0 {
        TableFormat::Extended
    } else {
        TableFormat::Legacy
    }
}

/// Infers the layout of `table` from its length.
pub fn detect_format(table: &[u8]) -> (r: TableFormat)
    ensures
        r == format_of_len(table@.len()),
{
    let len = table.len();
    if len >= EXTENDED_MIN_LEN && len % 16 == 0 {
        TableFormat::Extended
    } else {
        TableFormat::Legacy
    }
}

/// Whether a buffer of `len` bytes is a well-formed table: not empty, and a whole
/// number of records of the layout that its length implies.
pub open spec fn well_formed_len(len: nat) -> bool {
    len > 0 && len % format_of_len(len).spec_stride() == 0
}

/// What validation answers for a buffer of `len` bytes.
pub open spec fn validated(len: nat) -> Result<TableFormat, KeyError> {
    if well_formed_len(len) {
        Ok(format_of_len(len))
    } else {
        Err(KeyError::InvalidTable)
    }
}

/// Checks that a buffer is a well-formed table and tells its layout.
///
/// Fails with `InvalidTable` exactly when the buffer is empty or its length is
/// no multiple of the stride. The calculations do not ask for a well-formed
/// table: they check each record they read.
pub fn validate_table(table: &[u8]) -> (r: Result<TableFormat, KeyError>)
    ensures
        r == validated(table@.len()),
{
    let format = detect_format(table);
    if table.len() == 0 || table.len() % format.stride() != 0 {
        Err(KeyError::InvalidTable)
    } else {
        Ok(format)
    }
}

/// One step of an algorithm: an opcode byte and its two operand bytes.
#[derive(Debug, Clone, Copy, PartialEq, Eq, Structural)]
pub struct Operation {
    pub opcode: u8,
    pub operand_high: u8,
    pub operand_low: u8,
}

/// The `k`-th operation of the record that starts at byte `offset` of `table`.
pub open spec fn operation_at(table: Seq<u8>, offset: nat, k: int) -> Operation {
    Operation {
        opcode: table[offset + 3 * k],
        operand_high: table[offset + 3 * k + 1],
        operand_low: table[offset + 3 * k + 2],
    }
}

/// The operations of record `index`, in stored order. Meaningful where the record
/// fits.
pub open spec fn record_ops(table: Seq<u8>, format: TableFormat, index: u8) -> Seq<Operation> {
    Seq::new(
        format.spec_op_count(),
        |k: int| operation_at(table, format.spec_record_offset(index), k),
    )
}

/// What decoding record `index` yields: the operations, or `OutOfBounds` when the
/// record does not fit.
pub open spec fn decoded_record(table: Seq<u8>, format: TableFormat, index: u8) -> Result<
    Seq<Operation>,
    KeyError,
> {
    if format.record_fits(table.len(), index) {
        Ok(record_ops(table, format, index))
    } else {
        Err(KeyError::OutOfBounds)
    }
}

/// View of a decoding result: the operations as a sequence.
pub open spec fn ops_view(r: Result<Vec<Operation>, KeyError>) -> Result<Seq<Operation>, KeyError> {
    match r {
        Ok(v) => Ok(v@),
        Err(e) => Err(e),
    }
}

/// Decodes the record of algorithm `index` in the given layout.
///
/// Fails with `OutOfBounds` exactly when `index * stride + op_count * 3` exceeds
/// the length of the table.
pub fn decode_record(table: &[u8], format: TableFormat, index: u8) -> (r: Result<
    Vec<Operation>,
    KeyError,
>)
    ensures
        ops_view(r) == decoded_record(table@, format, index),
{
    let offset = format.record_offset(index);
    let count = format.op_count();
    if offset + count * 3 > table.len() {
        return Err(KeyError::OutOfBounds);
    }
    let mut ops: Vec<Operation> = Vec::new();
    let mut k: usize = 0;
    while k < count
        invariant
            k <= count,
            count == format.spec_op_count(),
            offset == format.spec_record_offset(index),
            offset + count * 3 <= table@.len(),
            ops@.len() == k,
            forall|j: int| 0 <= j < k ==> ops@[j] == operation_at(table@, offset as nat, j),
        decreases count - k,
    {
        let at = offset + 3 * k;
        ops.push(
            Operation { opcode: table[at], operand_high: table[at + 1], operand_low: table[at + 2] },
        );
        k += 1;
    }
    assert(ops@ =~= record_ops(table@, format, index));
    Ok(ops)
}

/// An algorithm table: an owned buffer that is only read once it is made,
/// together with the layout it is read in.
#[derive(Debug, Clone, PartialEq, Eq)]
pub struct AlgorithmTable {
    bytes: Vec<u8>,
    format: TableFormat,
}

/// What an algorithm table holds: its bytes and its layout.
pub struct TableView {
    pub bytes: Seq<u8>,
    pub format: TableFormat,
}

impl View for AlgorithmTable {
    type V = TableView;

    closed spec fn view(&self) -> TableView {
        TableView { bytes: self.bytes@, format: self.format }
    }
}

/// View of a result that holds a table.
pub open spec fn table_view(r: Result<AlgorithmTable, KeyError>) -> Result<TableView, KeyError> {
    match r {
        Ok(table) => Ok(table@),
        Err(e) => Err(e),
    }
}

impl AlgorithmTable {
    /// Takes any buffer as a table, the empty one included, and infers the layout
    /// from its length.
    pub fn new(bytes: Vec<u8>) -> (table: AlgorithmTable)
        ensures
            table@ == (TableView { bytes: bytes@, format: format_of_len(bytes@.len()) }),
    {
        let format = detect_format(bytes.as_slice());
        AlgorithmTable { bytes, format }
    }

    /// Takes any buffer as a table in the layout that the caller names, whatever
    /// its length suggests.
    pub fn with_format(bytes: Vec<u8>, format: TableFormat) -> (table: AlgorithmTable)
        ensures
            table@ == (TableView { bytes: bytes@, format }),
    {
        AlgorithmTable { bytes, format }
    }

    /// Takes a well-formed buffer as a table and infers the layout from its
    /// length. Fails with `InvalidTable` exactly when the buffer is empty or its
    /// length is no multiple of the stride.
    pub fn checked(bytes: Vec<u8>) -> (r: Result<AlgorithmTable, KeyError>)
        ensures
            table_view(r) == match validated(bytes@.len()) {
                Ok(format) => Ok::<TableView, KeyError>(TableView { bytes: bytes@, format }),
                Err(e) => Err::<TableView, KeyError>(e),
            },
    {
        match validate_table(bytes.as_slice()) {
            Ok(format) => Ok(AlgorithmTable { bytes, format }),
            Err(e) => Err(e),
        }
    }

    /// The layout in which the table is read.
    pub fn format(&self) -> (r: TableFormat)
        ensures
            r == self@.format,
    {
        self.format
    }

    /// The bytes of the table.
    pub fn as_bytes(&self) -> (r: &[u8])
        ensures
            r@ == self@.bytes,
    {
        self.bytes.as_slice()
    }

    /// The number of bytes.
    pub fn len(&self) -> (r: usize)
        ensures
            r == self@.bytes.len(),
    {
        self.bytes.len()
    }

    /// The number of whole records.
    pub fn slot_count(&self) -> (r: usize)
        ensures
            r == self@.format.spec_slot_count(self@.bytes.len()),
    {
        self.bytes.len() / self.format.stride()
    }

    /// Decodes the record of algorithm `index`; `OutOfBounds` exactly when it does
    /// not lie within the table.
    pub fn record(&self, index: u8) -> (r: Result<Vec<Operation>, KeyError>)
        ensures
            ops_view(r) == decoded_record(self@.bytes, self@.format, index),
    {
        decode_record(self.bytes.as_slice(), self.format, index)
    }
}

/// A record that fits lies within its slot or, for the last slot, within what
/// is left of the table: a legacy record takes 12 of 13 bytes, an extended one
/// 15 of 16. Every index below the number of whole records has a record that
/// fits.
pub proof fn lemma_whole_slots_fit(len: nat, format: TableFormat, index: u8)
    requires
        index < format.spec_slot_count(len),
    ensures
        format.record_fits(len, index),
        format.spec_op_count() * 3 + 1 == format.spec_stride(),
{
    let stride = format.spec_stride() as int;
    let slots = (len / format.spec_stride()) as int;
    assert(slots * stride <= len) by (nonlinear_arith)
        requires
            slots == (len as int) / stride,
            stride > 0,
    ;
    assert((index + 1) * stride <= slots * stride) by (nonlinear_arith)
        requires
            index + 1 <= slots,
            stride > 0,
    ;
    assert((index + 1) * stride == index * stride + stride) by (nonlinear_arith);
}

} // verus!
