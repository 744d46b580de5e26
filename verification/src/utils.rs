//! The coercion of remote cells into host values.

use datafusion::arrow::array::ArrayData;
use vstd::prelude::*;
use vstd::utf8::decode_utf8;
use vstd::utf8::encode_utf8;
use vstd::utf8::encode_utf8_decode_utf8;
use vstd::utf8::valid_utf8;

use crate::column::array_cells;
use crate::column::array_kind;
use crate::column::binary_at;
use crate::column::boolean_at;
use crate::column::float32_at;
use crate::column::float64_at;
use crate::column::int16_at;
use crate::column::int32_at;
use crate::column::int64_at;
use crate::column::kind_of;
use crate::column::uint32_at;
use crate::column::utf8_at;
use crate::column::Cell;
use crate::datum::Datum;
use crate::datum::DatumView;
use crate::datum::RemoteType;

verus! {

/// The text that stands for binary data that is not UTF-8.
pub open spec fn undecodable_text() -> Seq<char> {
    "none"@
}

/// The text of binary data: what the bytes decode to as UTF-8, and the
/// fixed text of [`undecodable_text`] where they are not UTF-8.
pub open spec fn binary_text(bytes: Seq<u8>) -> Seq<char> {
    if valid_utf8(bytes) {
        decode_utf8(bytes)
    } else {
        undecodable_text()
    }
}

/// The host value of a remote cell, by the type of its column: booleans,
/// text, the signed integers and both floating-point widths keep their value,
/// unsigned 32 bits become an object identifier, binary data becomes text, and
/// every other type has no value.
pub open spec fn coerce(kind: RemoteType, cell: Cell) -> Option<DatumView> {
    match (kind, cell) {
        (RemoteType::Boolean, Cell::Boolean(b)) => Some(DatumView::Bool(b)),
        (RemoteType::Utf8, Cell::Utf8(s)) => Some(DatumView::Text(s)),
        (RemoteType::Binary, Cell::Binary(bytes)) => Some(DatumView::Text(binary_text(bytes))),
        (RemoteType::Int16, Cell::Int16(v)) => Some(DatumView::Int16(v)),
        (RemoteType::Int32, Cell::Int32(v)) => Some(DatumView::Int32(v)),
        (RemoteType::Int64, Cell::Int64(v)) => Some(DatumView::Int64(v)),
        (RemoteType::UInt32, Cell::UInt32(v)) => Some(DatumView::Oid(v)),
        (RemoteType::Float32, Cell::Float32(bits)) => Some(DatumView::Float4(bits)),
        (RemoteType::Float64, Cell::Float64(bits)) => Some(DatumView::Float8(bits)),
        _ => None,
    }
}

/// `core::str::from_utf8`, with the text copied into an owned string: the
/// bytes are accepted exactly when they are UTF-8, and the text then consists
/// of those same bytes.
#[verifier::external_body]
fn text_of(bytes: &Vec<u8>) -> (text: Option<String>)
    ensures
        text is Some <==> valid_utf8(bytes@),
        text matches Some(s) ==> encode_utf8(s@) == bytes@,
{
    match std::str::from_utf8(bytes) {
        Ok(s) => Some(s.to_string()),
        Err(_) => None,
    }
}

/// Decodes binary data as text, and never fails: bytes that are not UTF-8
/// give the fixed text of [`undecodable_text`].
pub fn decode_binary(bytes: &Vec<u8>) -> (text: String)
    ensures
        text@ == binary_text(bytes@),
{
    match text_of(bytes) {
        Some(s) => {
            proof {
                encode_utf8_decode_utf8(s@);
            }
            s
        },
        None => "none".to_owned(),
    }
}

/// The host value of the cell at `index` of a column, or `None` where the
/// column's type has no coercion rule.
pub fn index_to_datum(array: &ArrayData, index: usize) -> (datum: Option<Datum>)
    requires
        index < array_cells(*array).len(),
    ensures
        datum.deep_view() == coerce(array_kind(*array), array_cells(*array)[index as int]),
{
    match kind_of(array) {
        RemoteType::Boolean => Some(Datum::Bool(boolean_at(array, index))),
        RemoteType::Utf8 => Some(Datum::Text(utf8_at(array, index))),
        RemoteType::Binary => {
            let bytes = binary_at(array, index);
            Some(Datum::Text(decode_binary(&bytes)))
        },
        RemoteType::Int16 => Some(Datum::Int16(int16_at(array, index))),
        RemoteType::Int32 => Some(Datum::Int32(int32_at(array, index))),
        RemoteType::Int64 => Some(Datum::Int64(int64_at(array, index))),
        RemoteType::UInt32 => Some(Datum::Oid(uint32_at(array, index))),
        RemoteType::Float32 => Some(Datum::Float4(float32_at(array, index))),
        RemoteType::Float64 => Some(Datum::Float8(float64_at(array, index))),
        RemoteType::Decimal128(_, _) => None,
        RemoteType::Timestamp => None,
        RemoteType::Date32 => None,
        RemoteType::Unsupported => None,
    }
}

/// The host's identifiers of the types that have sample data, or are known
/// to have none.
pub const BOOLOID: u32 = 16;

pub const INT8OID: u32 = 20;

pub const INT2OID: u32 = 21;

pub const INT4OID: u32 = 23;

pub const TEXTOID: u32 = 25;

pub const FLOAT4OID: u32 = 700;

pub const FLOAT8OID: u32 = 701;

pub const FLOAT4ARRAYOID: u32 = 1021;

pub const BPCHAROID: u32 = 1042;

pub const VARCHAROID: u32 = 1043;

pub const DATEOID: u32 = 1082;

pub const TIMEOID: u32 = 1083;

pub const INTERVALOID: u32 = 1186;

pub const NUMERICOID: u32 = 1700;

/// The bits of the single-precision values 0, 1, 2 and so on up to 9.
pub open spec fn sample_float4_bits() -> Seq<u32> {
    seq![
        0x0000_0000u32,
        0x3F80_0000u32,
        0x4000_0000u32,
        0x4040_0000u32,
        0x4080_0000u32,
        0x40A0_0000u32,
        0x40C0_0000u32,
        0x40E0_0000u32,
        0x4100_0000u32,
        0x4110_0000u32,
    ]
}

/// The sample value of each type of the host, by the type's identifier:
/// 10, 100 and 1000 for the three widths of integers, false, 2.0 and 8.8 for
/// the two widths of floating point, 1.23 as an exact decimal, the text
/// "hello" for the three kinds of text, January 3rd 1934, 12:23:00, three
/// days and four tenths of a second, and the array of 0.0 to 9.0. Every other
/// type has none.
pub open spec fn sample_of(oid: u32) -> Option<DatumView> {
    if oid == INT2OID {
        Some(DatumView::Int16(10))
    } else if oid == INT4OID {
        Some(DatumView::Int32(100))
    } else if oid == INT8OID {
        Some(DatumView::Int64(1000))
    } else if oid == FLOAT4ARRAYOID {
        Some(DatumView::Float4Array(sample_float4_bits()))
    } else if oid == BOOLOID {
        Some(DatumView::Bool(false))
    } else if oid == FLOAT4OID {
        Some(DatumView::Float4(0x4000_0000))
    } else if oid == FLOAT8OID {
        Some(DatumView::Float8(0x4021_9999_9999_999A))
    } else if oid == NUMERICOID {
        Some(DatumView::Numeric("1.23"@))
    } else if oid == TEXTOID || oid == VARCHAROID || oid == BPCHAROID {
        Some(DatumView::Text("hello"@))
    } else if oid == DATEOID {
        Some(DatumView::Date { year: 1934, month: 1, day: 3 })
    } else if oid == TIMEOID {
        Some(DatumView::Time { hour: 12, minute: 23, second: 0 })
    } else if oid == INTERVALOID {
        Some(DatumView::Interval { months: 0, days: 3, micros: 400000 })
    } else {
        None
    }
}

/// A sample value for a column of the host's type `oid`, or `None` where the
/// type has none.
pub fn generate_test_data_for_oid(oid: u32) -> (datum: Option<Datum>)
    ensures
        datum.deep_view() == sample_of(oid),
{
    if oid == INT2OID {
        Some(Datum::Int16(10))
    } else if oid == INT4OID {
        Some(Datum::Int32(100))
    } else if oid == INT8OID {
        Some(Datum::Int64(1000))
    } else if oid == FLOAT4ARRAYOID {
        let mut values: Vec<u32> = Vec::new();
        values.push(0x0000_0000);
        values.push(0x3F80_0000);
        values.push(0x4000_0000);
        values.push(0x4040_0000);
        values.push(0x4080_0000);
        values.push(0x40A0_0000);
        values.push(0x40C0_0000);
        values.push(0x40E0_0000);
        values.push(0x4100_0000);
        values.push(0x4110_0000);
        assert(values@ =~= sample_float4_bits());
        Some(Datum::Float4Array(values))
    } else if oid == BOOLOID {
        Some(Datum::Bool(false))
    } else if oid == FLOAT4OID {
        Some(Datum::Float4(0x4000_0000))
    } else if oid == FLOAT8OID {
        Some(Datum::Float8(0x4021_9999_9999_999A))
    } else if oid == NUMERICOID {
        Some(Datum::Numeric("1.23".to_owned()))
    } else if oid == TEXTOID || oid == VARCHAROID || oid == BPCHAROID {
        Some(Datum::Text("hello".to_owned()))
    } else if oid == DATEOID {
        Some(Datum::Date { year: 1934, month: 1, day: 3 })
    } else if oid == TIMEOID {
        Some(Datum::Time { hour: 12, minute: 23, second: 0 })
    } else if oid == INTERVALOID {
        Some(Datum::Interval { months: 0, days: 3, micros: 400000 })
    } else {
        None
    }
}

} // verus!
