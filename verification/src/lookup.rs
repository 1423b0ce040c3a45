//! Reading the columns of a row.

use vstd::prelude::*;

use crate::json::{Datum, DatumView, Row, RowView};
use crate::numbers::Amount;
use crate::text::{decimal_text, parse_i64, signed_text};
#[allow(unused_imports)]
use crate::text::{decimal, read_i64, signed_decimal};

verus! {

/// The integer that a value writes: a number of the signed range, or a text that reads as one.
pub open spec fn int_of(value: DatumView) -> Option<i64> {
    match value {
        DatumView::Int(n) => Some(n as i64),
        DatumView::Uint(n) => if n <= i64::MAX {
            Some(n as i64)
        } else {
            None
        },
        DatumView::Text(t) => read_i64(t),
        _ => None,
    }
}

/// The integer that a value writes.
pub fn json_value_to_i64(value: &Datum) -> (number: Option<i64>)
    ensures
        number == int_of(value@),
{
    match value {
        Datum::Int(n) => Some(*n),
        Datum::Uint(n) => if *n <= 9223372036854775807 {
            Some(*n as i64)
        } else {
            None
        },
        Datum::Text(t) => parse_i64(t.as_str()),
        _ => None,
    }
}

/// The text from which a value can be read as a floating-point number: the text of a number, or
/// a text, which may or may not read as one.
pub open spec fn number_text(value: DatumView) -> Option<Seq<char>> {
    match value {
        DatumView::Int(n) => Some(signed_decimal(n)),
        DatumView::Uint(n) => Some(decimal(n as nat)),
        DatumView::Decimal(t) => Some(t),
        DatumView::Text(t) => Some(t),
        _ => None,
    }
}

/// The text from which a value can be read as a floating-point number.
pub fn json_value_to_number_text(value: &Datum) -> (text: Option<String>)
    ensures
        match number_text(value@) {
            Some(t) => text matches Some(s) && s@ == t,
            None => text is None,
        },
{
    match value {
        Datum::Int(n) => Some(signed_text(*n)),
        Datum::Uint(n) => Some(decimal_text(*n)),
        Datum::Decimal(t) => Some(t.clone()),
        Datum::Text(t) => Some(t.clone()),
        _ => None,
    }
}

/// A value as text: a string as it is, anything else as its JSON text.
pub open spec fn value_text(value: DatumView) -> Seq<char> {
    match value {
        DatumView::Null => "null"@,
        DatumView::Bool(b) => if b {
            "true"@
        } else {
            "false"@
        },
        DatumView::Int(n) => signed_decimal(n),
        DatumView::Uint(n) => decimal(n as nat),
        DatumView::Decimal(t) => t,
        DatumView::Text(t) => t,
        DatumView::Document(t) => t,
    }
}

fn text_of(value: &Datum) -> (text: String)
    ensures
        text@ == value_text(value@),
{
    match value {
        Datum::Null => "null".to_string(),
        Datum::Bool(b) => if *b {
            "true".to_string()
        } else {
            "false".to_string()
        },
        Datum::Int(n) => signed_text(*n),
        Datum::Uint(n) => decimal_text(*n),
        Datum::Decimal(t) => t.clone(),
        Datum::Text(t) => t.clone(),
        Datum::Document(t) => t.clone(),
    }
}

/// The texts of `keys`.
pub open spec fn key_texts(keys: Seq<&str>) -> Seq<Seq<char>> {
    Seq::new(keys.len(), |i: int| keys[i]@)
}

/// The value of the first of `keys` that is a column of `row`, as text.
pub open spec fn picked_text(row: RowView, keys: Seq<Seq<char>>) -> Option<Seq<char>>
    decreases keys.len(),
{
    if keys.len() == 0 {
        None
    } else if row.contains_key(keys[0]) {
        Some(value_text(row[keys[0]]))
    } else {
        picked_text(row, keys.drop_first())
    }
}

/// The value of the first of `keys` that is a column of `row`, as text.
pub fn pick_string(row: &Row, keys: &[&str]) -> (text: Option<String>)
    ensures
        match picked_text(row@, key_texts(keys@)) {
            Some(t) => text matches Some(s) && s@ == t,
            None => text is None,
        },
{
    let ghost all = key_texts(keys@);
    assert(all.skip(0) =~= all);
    for i in 0..keys.len()
        invariant
            all == key_texts(keys@),
            picked_text(row@, all) == picked_text(row@, all.skip(i as int)),
    {
        assert(all.skip(i as int)[0] == keys@[i as int]@);
        assert(all.skip(i as int).drop_first() =~= all.skip(i + 1));
        if let Some(value) = row.get(keys[i]) {
            return Some(text_of(value));
        }
    }
    None
}

/// The text of the first of `keys` that the row has, or else `default`.
pub open spec fn text_or_default(row: RowView, keys: Seq<&str>, default: Seq<char>) -> Seq<char> {
    match picked_text(row, key_texts(keys)) {
        Some(text) => text,
        None => default,
    }
}

/// The text of the first of `keys` that the row has, or else `default`.
pub fn pick_string_or(row: &Row, keys: &[&str], default: &str) -> (text: String)
    ensures
        text@ == text_or_default(row@, keys@, default@),
{
    match pick_string(row, keys) {
        Some(text) => text,
        None => default.to_string(),
    }
}

/// The integer of the first of `keys` that is a column of `row` and writes one.
pub open spec fn picked_int(row: RowView, keys: Seq<Seq<char>>) -> Option<i64>
    decreases keys.len(),
{
    if keys.len() == 0 {
        None
    } else if row.contains_key(keys[0]) && int_of(row[keys[0]]) is Some {
        int_of(row[keys[0]])
    } else {
        picked_int(row, keys.drop_first())
    }
}

/// The integer of the first of `keys` that is a column of `row` and writes one.
pub fn pick_i64(row: &Row, keys: &[&str]) -> (number: Option<i64>)
    ensures
        number == picked_int(row@, key_texts(keys@)),
{
    let ghost all = key_texts(keys@);
    assert(all.skip(0) =~= all);
    for i in 0..keys.len()
        invariant
            all == key_texts(keys@),
            picked_int(row@, all) == picked_int(row@, all.skip(i as int)),
    {
        assert(all.skip(i as int)[0] == keys@[i as int]@);
        assert(all.skip(i as int).drop_first() =~= all.skip(i + 1));
        if let Some(value) = row.get(keys[i]) {
            if let Some(number) = json_value_to_i64(value) {
                return Some(number);
            }
        }
    }
    None
}

/// The texts from which the number of the first readable of `keys` is read, in order, with
/// `default` at the end.
pub open spec fn amount_texts(
    row: RowView,
    keys: Seq<Seq<char>>,
    default: Seq<char>,
) -> Seq<Seq<char>>
    decreases keys.len(),
{
    if keys.len() == 0 {
        seq![default]
    } else if row.contains_key(keys[0]) && number_text(row[keys[0]]) is Some {
        seq![number_text(row[keys[0]])->Some_0] + amount_texts(row, keys.drop_first(), default)
    } else {
        amount_texts(row, keys.drop_first(), default)
    }
}

/// The number of the first of `keys` that is a column of `row` and writes one; `default`, which
/// writes a number, where none does.
pub fn pick_amount(row: &Row, keys: &[&str], default: &str) -> (amount: Amount)
    ensures
        amount@ == amount_texts(row@, key_texts(keys@), default@),
{
    let ghost all = key_texts(keys@);
    let mut amount = Amount { texts: Vec::new() };
    assert(all.skip(0) =~= all);
    assert(amount@ + amount_texts(row@, all, default@) =~= amount_texts(row@, all, default@));
    for i in 0..keys.len()
        invariant
            all == key_texts(keys@),
            amount_texts(row@, all, default@) == amount@ + amount_texts(
                row@,
                all.skip(i as int),
                default@,
            ),
    {
        let ghost before = amount@;
        assert(all.skip(i as int)[0] == keys@[i as int]@);
        assert(all.skip(i as int).drop_first() =~= all.skip(i + 1));
        if let Some(value) = row.get(keys[i]) {
            if let Some(text) = json_value_to_number_text(value) {
                amount.texts.push(text);
                assert(amount@ =~= before.push(text@));
                assert(before + (seq![text@] + amount_texts(row@, all.skip(i + 1), default@))
                    =~= amount@ + amount_texts(row@, all.skip(i + 1), default@));
            }
        }
    }
    let ghost before = amount@;
    amount.texts.push(default.to_string());
    assert(amount@ =~= before + seq![default@]);
    amount
}

} // verus!
