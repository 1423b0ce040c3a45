//! The cells of a query's result as JSON values.
//!
//! The column types are told apart by their object identifiers, the first constants below.

use vstd::prelude::*;

use crate::calendar::{write_date, write_date_time, write_rfc3339, write_time, Date, Time};
#[allow(unused_imports)]
use crate::calendar::{written_date, written_date_time, written_instant, written_time};
#[allow(unused_imports)]
use crate::config::opt_text;
use crate::json::{Datum, DatumView, Row, RowView};
use crate::numbers::Real;
#[allow(unused_imports)]
use crate::numbers::real_datum;

verus! {

/// A truth value.
pub const BOOL: u32 = 16;

/// Bytes.
pub const BYTEA: u32 = 17;

/// A name of the system catalogue.
pub const NAME: u32 = 19;

/// An integer of eight bytes.
pub const INT8: u32 = 20;

/// An integer of two bytes.
pub const INT2: u32 = 21;

/// An integer of four bytes.
pub const INT4: u32 = 23;

/// Text.
pub const TEXT: u32 = 25;

/// A JSON document, as text.
pub const JSON: u32 = 114;

/// A floating-point number of four bytes.
pub const FLOAT4: u32 = 700;

/// A floating-point number of eight bytes.
pub const FLOAT8: u32 = 701;

/// Text that is padded to a length.
pub const BPCHAR: u32 = 1042;

/// Text up to a length.
pub const VARCHAR: u32 = 1043;

/// A day.
pub const DATE: u32 = 1082;

/// A time of day.
pub const TIME: u32 = 1083;

/// A day with a time of day.
pub const TIMESTAMP: u32 = 1114;

/// A moment.
pub const TIMESTAMPTZ: u32 = 1184;

/// A UUID.
pub const UUID: u32 = 2950;

/// A JSON document, in binary form.
pub const JSONB: u32 = 3802;

/// How a cell is to be decoded.
#[derive(Debug, Clone, Copy, PartialEq, Eq, Structural)]
pub enum Decoder {
    Bool,
    Int2,
    Int4,
    Int8,
    Float4,
    Float8,
    Text,
    TimestampTz,
    Timestamp,
    Date,
    Time,
    Json,
    Uuid,
    Bytes,
}

/// How a cell of the type with the object identifier `oid` is to be decoded. Numbers of arbitrary
/// precision, and the types that are not told apart, are decoded as text.
pub open spec fn decoder_for(oid: u32) -> Decoder {
    if oid == BOOL {
        Decoder::Bool
    } else if oid == INT2 {
        Decoder::Int2
    } else if oid == INT4 {
        Decoder::Int4
    } else if oid == INT8 {
        Decoder::Int8
    } else if oid == FLOAT4 {
        Decoder::Float4
    } else if oid == FLOAT8 {
        Decoder::Float8
    } else if oid == TIMESTAMPTZ {
        Decoder::TimestampTz
    } else if oid == TIMESTAMP {
        Decoder::Timestamp
    } else if oid == DATE {
        Decoder::Date
    } else if oid == TIME {
        Decoder::Time
    } else if oid == JSON || oid == JSONB {
        Decoder::Json
    } else if oid == UUID {
        Decoder::Uuid
    } else if oid == BYTEA {
        Decoder::Bytes
    } else {
        Decoder::Text
    }
}

/// How a cell of the type with the object identifier `oid` is to be decoded.
pub fn decoder(oid: u32) -> (decoder: Decoder)
    ensures
        decoder == decoder_for(oid),
{
    if oid == BOOL {
        Decoder::Bool
    } else if oid == INT2 {
        Decoder::Int2
    } else if oid == INT4 {
        Decoder::Int4
    } else if oid == INT8 {
        Decoder::Int8
    } else if oid == FLOAT4 {
        Decoder::Float4
    } else if oid == FLOAT8 {
        Decoder::Float8
    } else if oid == TIMESTAMPTZ {
        Decoder::TimestampTz
    } else if oid == TIMESTAMP {
        Decoder::Timestamp
    } else if oid == DATE {
        Decoder::Date
    } else if oid == TIME {
        Decoder::Time
    } else if oid == JSON || oid == JSONB {
        Decoder::Json
    } else if oid == UUID {
        Decoder::Uuid
    } else if oid == BYTEA {
        Decoder::Bytes
    } else {
        Decoder::Text
    }
}

/// Whether a cell of this type that cannot be decoded is reported as null.
pub open spec fn fails_to_null(oid: u32) -> bool {
    ||| oid == BOOL
    ||| oid == INT2
    ||| oid == INT4
    ||| oid == INT8
    ||| oid == FLOAT4
    ||| oid == FLOAT8
    ||| oid == VARCHAR
    ||| oid == TEXT
    ||| oid == BPCHAR
    ||| oid == NAME
    ||| oid == JSON
    ||| oid == JSONB
}

/// What a cell is decoded to.
#[derive(Debug)]
pub enum Decoded {
    Bool(bool),
    Integer(i64),
    Float(Real),
    Text(String),
    /// A moment of UTC.
    TimestampTz(Date, Time),
    Timestamp(Date, Time),
    Date(Date),
    Time(Time),
    Json(Datum),
    Uuid([u8; 16]),
    Bytes(Vec<u8>),
}

/// A cell of a query's result.
#[derive(Debug)]
pub enum Cell {
    /// The cell is null.
    Null,
    /// The cell could not be decoded.
    Failed,
    Decoded(Decoded),
}

/// The hexadecimal digits.
pub const HEX_DIGITS: [char; 16] = [
    '0',
    '1',
    '2',
    '3',
    '4',
    '5',
    '6',
    '7',
    '8',
    '9',
    'a',
    'b',
    'c',
    'd',
    'e',
    'f',
];

/// The bytes from `from` up to `to`, two hexadecimal digits each.
pub open spec fn hex(bytes: Seq<u8>, from: int, to: int) -> Seq<char>
    decreases to - from,
{
    if from >= to {
        Seq::empty()
    } else {
        seq![HEX_DIGITS@[bytes[from] as int / 16], HEX_DIGITS@[bytes[from] as int % 16]] + hex(
            bytes,
            from + 1,
            to,
        )
    }
}

/// The usual form of a UUID: groups of 8, 4, 4, 4 and 12 hexadecimal digits.
pub open spec fn uuid_text(bytes: Seq<u8>) -> Seq<char> {
    hex(bytes, 0, 4) + "-"@ + hex(bytes, 4, 6) + "-"@ + hex(bytes, 6, 8) + "-"@ + hex(bytes, 8, 10)
        + "-"@ + hex(bytes, 10, 16)
}

/// Trusts `to_string` of `Uuid` of the `uuid` crate: groups of hexadecimal digits in lower case,
/// with hyphens between them.
#[verifier::external_body]
fn write_uuid(bytes: [u8; 16]) -> (text: String)
    ensures
        text@ == uuid_text(bytes@),
{
    uuid::Uuid::from_bytes(bytes).to_string()
}

/// What `String::from_utf8_lossy` makes of bytes.
pub uninterp spec fn utf8_lossy(bytes: Seq<u8>) -> Seq<char>;

/// Trusts `String::from_utf8_lossy` of std: what it makes of bytes depends on the bytes alone, and
/// bytes that are UTF-8 are decoded. What stands for the other bytes is not stated.
#[verifier::external_body]
fn decode_lossy(bytes: &Vec<u8>) -> (text: String)
    ensures
        text@ == utf8_lossy(bytes@),
        vstd::utf8::valid_utf8(bytes@) ==> text@ == vstd::utf8::decode_utf8(bytes@),
{
    String::from_utf8_lossy(bytes).to_string()
}

/// The text of bytes: what they encode where they are UTF-8, and else what
/// `String::from_utf8_lossy` makes of them.
pub open spec fn bytes_text(bytes: Seq<u8>) -> Seq<char> {
    if vstd::utf8::valid_utf8(bytes) {
        vstd::utf8::decode_utf8(bytes)
    } else {
        utf8_lossy(bytes)
    }
}

/// A text as a JSON value.
pub open spec fn text_datum(text: Option<Seq<char>>) -> Option<DatumView> {
    match text {
        Some(t) => Some(DatumView::Text(t)),
        None => None,
    }
}

/// A decoded cell as a JSON value. There is none for a day or a time of day that there is not.
pub open spec fn decoded_datum(decoded: Decoded) -> Option<DatumView> {
    match decoded {
        Decoded::Bool(b) => Some(DatumView::Bool(b)),
        Decoded::Integer(n) => Some(DatumView::Int(n as int)),
        Decoded::Float(x) => Some(real_datum(x.bits, x.text@)),
        Decoded::Text(t) => Some(DatumView::Text(t@)),
        Decoded::TimestampTz(date, time) => text_datum(written_instant(date, time)),
        Decoded::Timestamp(date, time) => text_datum(written_date_time(date, time)),
        Decoded::Date(date) => text_datum(written_date(date)),
        Decoded::Time(time) => text_datum(written_time(time)),
        Decoded::Json(datum) => Some(datum@),
        Decoded::Uuid(bytes) => Some(DatumView::Text(uuid_text(bytes@))),
        Decoded::Bytes(bytes) => Some(DatumView::Text(bytes_text(bytes@))),
    }
}

/// What is reported of a cell of a type whose cells cannot be decoded.
pub open spec fn unsupported(ty: Seq<char>) -> DatumView {
    DatumView::Text("<unsupported:"@ + ty + ">"@)
}

/// A cell as a JSON value.
pub open spec fn cell_datum(oid: u32, ty: Seq<char>, cell: Cell) -> DatumView {
    match cell {
        Cell::Null => DatumView::Null,
        Cell::Failed => if fails_to_null(oid) {
            DatumView::Null
        } else {
            unsupported(ty)
        },
        Cell::Decoded(decoded) => match decoded_datum(decoded) {
            Some(datum) => datum,
            None => unsupported(ty),
        },
    }
}

/// What is reported of a cell of a type whose cells cannot be decoded.
pub fn unsupported_value(ty: &str) -> (datum: Datum)
    ensures
        datum@ == unsupported(ty@),
{
    let mut text = "<unsupported:".to_string();
    text.append(ty);
    text.append(">");
    Datum::Text(text)
}

fn text_or_unsupported(text: Option<String>, ty: &str) -> (datum: Datum)
    ensures
        datum@ == match opt_text(text) {
            Some(t) => DatumView::Text(t),
            None => unsupported(ty@),
        },
{
    match text {
        Some(t) => Datum::Text(t),
        None => unsupported_value(ty),
    }
}

/// A cell as a JSON value, by the object identifier and the name of its type.
pub fn cell_to_json(oid: u32, ty: &str, cell: &Cell) -> (datum: Datum)
    ensures
        datum@ == cell_datum(oid, ty@, *cell),
{
    match cell {
        Cell::Null => Datum::Null,
        Cell::Failed => if oid == BOOL || oid == INT2 || oid == INT4 || oid == INT8 || oid == FLOAT4
            || oid == FLOAT8 || oid == VARCHAR || oid == TEXT || oid == BPCHAR || oid == NAME || oid
            == JSON || oid == JSONB {
            Datum::Null
        } else {
            unsupported_value(ty)
        },
        Cell::Decoded(decoded) => match decoded {
            Decoded::Bool(b) => Datum::Bool(*b),
            Decoded::Integer(n) => Datum::Int(*n),
            Decoded::Float(x) => x.to_datum(),
            Decoded::Text(t) => Datum::Text(t.clone()),
            Decoded::TimestampTz(date, time) => text_or_unsupported(
                write_rfc3339(*date, *time),
                ty,
            ),
            Decoded::Timestamp(date, time) => text_or_unsupported(
                write_date_time(*date, *time),
                ty,
            ),
            Decoded::Date(date) => text_or_unsupported(write_date(*date), ty),
            Decoded::Time(time) => text_or_unsupported(write_time(*time), ty),
            Decoded::Json(datum) => datum.copy(),
            Decoded::Uuid(bytes) => Datum::Text(write_uuid(*bytes)),
            Decoded::Bytes(bytes) => Datum::Text(decode_lossy(bytes)),
        },
    }
}

/// A column of a query's result with one of its cells.
#[derive(Debug)]
pub struct Column {
    pub name: String,
    pub oid: u32,
    pub ty: String,
    pub cell: Cell,
}

/// What the columns of a row map each name to: of two columns with one name the later.
pub open spec fn columns_view(columns: Seq<Column>) -> RowView
    decreases columns.len(),
{
    if columns.len() == 0 {
        Map::empty()
    } else {
        let last = columns.last();
        columns_view(columns.drop_last()).insert(
            last.name@,
            cell_datum(last.oid, last.ty@, last.cell),
        )
    }
}

/// The row with the given columns.
pub fn row_to_json(columns: &Vec<Column>) -> (row: Row)
    ensures
        row@ == columns_view(columns@),
{
    let mut row = Row::new();
    for i in 0..columns.len()
        invariant
            row@ == columns_view(columns@.take(i as int)),
    {
        let column: &Column = &columns[i];
        let datum = cell_to_json(column.oid, column.ty.as_str(), &column.cell);
        row.put(column.name.as_str(), datum);
        assert(columns@.take(i + 1).drop_last() =~= columns@.take(i as int));
    }
    assert(columns@.take(columns@.len() as int) =~= columns@);
    row
}

} // verus!
