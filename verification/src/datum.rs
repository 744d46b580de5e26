//! The values of the two sides: the remote engine's column types and the host's
//! native values.

use vstd::prelude::*;

verus! {

/// The remote engine's type of a column, as far as the coercion rules tell types apart.
#[derive(Clone, Copy, Debug, PartialEq, Eq, Structural)]
pub enum RemoteType {
    Boolean,
    Utf8,
    Binary,
    Int16,
    Int32,
    Int64,
    UInt32,
    Float32,
    Float64,
    /// A 128-bit decimal with its precision and its scale.
    Decimal128(u8, i8),
    Timestamp,
    Date32,
    /// Every type for which there is no coercion rule.
    Unsupported,
}

/// A value in the host's native representation.
///
/// Floating-point values are carried as their IEEE 754 bit patterns, which is
/// also how the host stores them in a datum.
#[derive(Debug, PartialEq, Eq)]
pub enum Datum {
    Bool(bool),
    Text(String),
    Int16(i16),
    Int32(i32),
    Int64(i64),
    /// Unsigned 32 bits, which the host holds as an object identifier.
    Oid(u32),
    /// The bits of a single-precision value.
    Float4(u32),
    /// The bits of a double-precision value.
    Float8(u64),
    /// An exact decimal number, written out in decimal digits.
    Numeric(String),
    /// A day of the calendar.
    Date { year: i32, month: u8, day: u8 },
    /// A time of day.
    Time { hour: u8, minute: u8, second: u8 },
    /// A span of time in the host's three units.
    Interval { months: i32, days: i32, micros: i64 },
    /// The bits of each of a sequence of single-precision values.
    Float4Array(Vec<u32>),
}

/// The mathematical content of a [`Datum`].
pub enum DatumView {
    Bool(bool),
    Text(Seq<char>),
    Int16(i16),
    Int32(i32),
    Int64(i64),
    Oid(u32),
    Float4(u32),
    Float8(u64),
    Numeric(Seq<char>),
    Date { year: i32, month: u8, day: u8 },
    Time { hour: u8, minute: u8, second: u8 },
    Interval { months: i32, days: i32, micros: i64 },
    Float4Array(Seq<u32>),
}

impl DeepView for Datum {
    type V = DatumView;

    open spec fn deep_view(&self) -> DatumView {
        match *self {
            Datum::Bool(b) => DatumView::Bool(b),
            Datum::Text(s) => DatumView::Text(s@),
            Datum::Int16(v) => DatumView::Int16(v),
            Datum::Int32(v) => DatumView::Int32(v),
            Datum::Int64(v) => DatumView::Int64(v),
            Datum::Oid(v) => DatumView::Oid(v),
            Datum::Float4(bits) => DatumView::Float4(bits),
            Datum::Float8(bits) => DatumView::Float8(bits),
            Datum::Numeric(digits) => DatumView::Numeric(digits@),
            Datum::Date { year, month, day } => DatumView::Date { year, month, day },
            Datum::Time { hour, minute, second } => DatumView::Time { hour, minute, second },
            Datum::Interval { months, days, micros } => DatumView::Interval {
                months,
                days,
                micros,
            },
            Datum::Float4Array(bits) => DatumView::Float4Array(bits@),
        }
    }
}

/// One row of a scan: a value, or no value, for each column of the destination.
pub type Row = Vec<Option<Datum>>;

/// The mathematical content of a [`Row`].
pub type RowView = Seq<Option<DatumView>>;

} // verus!
