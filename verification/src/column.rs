//! Reading a column of the remote engine.
//!
//! A column is an Arrow array in its untyped form, `ArrayData`, which is a
//! value of the Arrow implementation: nothing in it is visible to the
//! verifier. What the bridge needs from a column is given two names here,
//! [`array_kind`] and [`array_cells`], and each function below makes one kind
//! of read and says what it returns in terms of those names. These contracts
//! are not proved: they restate what the Arrow implementation does with array
//! data that it has validated.

use datafusion::arrow::array::ArrayData;
use datafusion::arrow::array::BinaryArray;
use datafusion::arrow::array::BooleanArray;
use datafusion::arrow::array::Float32Array;
use datafusion::arrow::array::Float64Array;
use datafusion::arrow::array::Int16Array;
use datafusion::arrow::array::Int32Array;
use datafusion::arrow::array::Int64Array;
use datafusion::arrow::array::StringArray;
use datafusion::arrow::array::UInt32Array;
use datafusion::arrow::datatypes::DataType;
use vstd::prelude::*;

use crate::datum::RemoteType;

verus! {

/// `arrow_data::ArrayData`, the untyped form of an Arrow array.
#[verifier::external_type_specification]
#[verifier::external_body]
pub struct ExArrayData(ArrayData);

/// What one slot of a column holds, as the typed array of the column's own
/// type reads it. Nothing is said of the slots of a column whose type has no
/// accessor below.
pub enum Cell {
    Boolean(bool),
    Utf8(Seq<char>),
    Binary(Seq<u8>),
    Int16(i16),
    Int32(i32),
    Int64(i64),
    UInt32(u32),
    /// The bits of a single-precision value.
    Float32(u32),
    /// The bits of a double-precision value.
    Float64(u64),
}

/// The type of a column.
pub uninterp spec fn array_kind(array: ArrayData) -> RemoteType;

/// The slots of a column, first row first.
pub uninterp spec fn array_cells(array: ArrayData) -> Seq<Cell>;

/// `ArrayData::data_type`, with the variants of the outside type told apart
/// one for one.
#[verifier::external_body]
pub(crate) fn kind_of(array: &ArrayData) -> (kind: RemoteType)
    ensures
        kind == array_kind(*array),
{
    match array.data_type() {
        DataType::Boolean => RemoteType::Boolean,
        DataType::Utf8 => RemoteType::Utf8,
        DataType::Binary => RemoteType::Binary,
        DataType::Int16 => RemoteType::Int16,
        DataType::Int32 => RemoteType::Int32,
        DataType::Int64 => RemoteType::Int64,
        DataType::UInt32 => RemoteType::UInt32,
        DataType::Float32 => RemoteType::Float32,
        DataType::Float64 => RemoteType::Float64,
        DataType::Decimal128(p, s) => RemoteType::Decimal128(*p, *s),
        DataType::Timestamp(_, _) => RemoteType::Timestamp,
        DataType::Date32 => RemoteType::Date32,
        _ => RemoteType::Unsupported,
    }
}

/// `ArrayData::len`: the number of slots.
#[verifier::external_body]
pub(crate) fn len_of(array: &ArrayData) -> (n: usize)
    ensures
        n == array_cells(*array).len(),
{
    array.len()
}

/// `BooleanArray::value` on the typed form of the column. The conversion to
/// the typed form panics on data of another type and the read panics on a row
/// out of range; neither takes notice of the validity bitmap.
#[verifier::external_body]
pub(crate) fn boolean_at(array: &ArrayData, row: usize) -> (v: bool)
    requires
        array_kind(*array) == RemoteType::Boolean,
        row < array_cells(*array).len(),
    ensures
        array_cells(*array)[row as int] == Cell::Boolean(v),
{
    BooleanArray::from(array.clone()).value(row)
}

/// `GenericByteArray::value` on a string array, read as [`boolean_at`] reads,
/// and copied into an owned string.
#[verifier::external_body]
pub(crate) fn utf8_at(array: &ArrayData, row: usize) -> (v: String)
    requires
        array_kind(*array) == RemoteType::Utf8,
        row < array_cells(*array).len(),
    ensures
        array_cells(*array)[row as int] == Cell::Utf8(v@),
{
    StringArray::from(array.clone()).value(row).to_string()
}

/// `GenericByteArray::value` on a binary array, read as [`boolean_at`] reads,
/// and copied into an owned vector.
#[verifier::external_body]
pub(crate) fn binary_at(array: &ArrayData, row: usize) -> (v: Vec<u8>)
    requires
        array_kind(*array) == RemoteType::Binary,
        row < array_cells(*array).len(),
    ensures
        array_cells(*array)[row as int] == Cell::Binary(v@),
{
    BinaryArray::from(array.clone()).value(row).to_vec()
}

/// `PrimitiveArray::value` on a 16-bit integer array, read as [`boolean_at`] reads.
#[verifier::external_body]
pub(crate) fn int16_at(array: &ArrayData, row: usize) -> (v: i16)
    requires
        array_kind(*array) == RemoteType::Int16,
        row < array_cells(*array).len(),
    ensures
        array_cells(*array)[row as int] == Cell::Int16(v),
{
    Int16Array::from(array.clone()).value(row)
}

/// `PrimitiveArray::value` on a 32-bit integer array, read as [`boolean_at`] reads.
#[verifier::external_body]
pub(crate) fn int32_at(array: &ArrayData, row: usize) -> (v: i32)
    requires
        array_kind(*array) == RemoteType::Int32,
        row < array_cells(*array).len(),
    ensures
        array_cells(*array)[row as int] == Cell::Int32(v),
{
    Int32Array::from(array.clone()).value(row)
}

/// `PrimitiveArray::value` on a 64-bit integer array, read as [`boolean_at`] reads.
#[verifier::external_body]
pub(crate) fn int64_at(array: &ArrayData, row: usize) -> (v: i64)
    requires
        array_kind(*array) == RemoteType::Int64,
        row < array_cells(*array).len(),
    ensures
        array_cells(*array)[row as int] == Cell::Int64(v),
{
    Int64Array::from(array.clone()).value(row)
}

/// `PrimitiveArray::value` on an unsigned 32-bit array, read as [`boolean_at`] reads.
#[verifier::external_body]
pub(crate) fn uint32_at(array: &ArrayData, row: usize) -> (v: u32)
    requires
        array_kind(*array) == RemoteType::UInt32,
        row < array_cells(*array).len(),
    ensures
        array_cells(*array)[row as int] == Cell::UInt32(v),
{
    UInt32Array::from(array.clone()).value(row)
}

/// `PrimitiveArray::value` on a single-precision array, read as
/// [`boolean_at`] reads, and handed on as the value's bits.
#[verifier::external_body]
pub(crate) fn float32_at(array: &ArrayData, row: usize) -> (bits: u32)
    requires
        array_kind(*array) == RemoteType::Float32,
        row < array_cells(*array).len(),
    ensures
        array_cells(*array)[row as int] == Cell::Float32(bits),
{
    Float32Array::from(array.clone()).value(row).to_bits()
}

/// `PrimitiveArray::value` on a double-precision array, read as
/// [`boolean_at`] reads, and handed on as the value's bits.
#[verifier::external_body]
pub(crate) fn float64_at(array: &ArrayData, row: usize) -> (bits: u64)
    requires
        array_kind(*array) == RemoteType::Float64,
        row < array_cells(*array).len(),
    ensures
        array_cells(*array)[row as int] == Cell::Float64(bits),
{
    Float64Array::from(array.clone()).value(row).to_bits()
}

} // verus!
