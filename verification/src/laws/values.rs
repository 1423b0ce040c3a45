//! What holds of values, texts and the rules on them.

use vstd::prelude::*;

#[allow(unused_imports)]
use crate::auth::{admitted, not_admitted};
#[allow(unused_imports)]
use crate::calendar::{
    date_text, fraction_text, is_date, is_time, padded, time_text, Date, Time,
};
#[allow(unused_imports)]
use crate::cells::{
    cell_datum, columns_view, decoder_for, hex, unsupported, utf8_lossy, uuid_text, Cell, Column,
    Decoded,
};
#[allow(unused_imports)]
use crate::config::{AppState, Config, Environment};
#[allow(unused_imports)]
use crate::connection::{
    connect_database, connect_error, duration_text, to_sql_error, ConnectionPlan, ResilienceError,
    SqlError, CONNECT_TIMEOUT_SECS, QUERY_TIMEOUT_SECS,
};
#[allow(unused_imports)]
use crate::counts::{listed_name, reported_count};
#[allow(unused_imports)]
use crate::error::{ApiError, ApiErrorView, Status};
#[allow(unused_imports)]
use crate::identifiers::{invalid_name, is_known, quoted, unknown_database, valid_identifier, DATABASES};
#[allow(unused_imports)]
use crate::insert::no_data;
#[allow(unused_imports)]
use crate::json::{
    fields_view, row_json, rows_json, Datum, DatumView, Field, Json, JsonView, RowView,
};
#[allow(unused_imports)]
use crate::lookup::{amount_texts, int_of, number_text, picked_int, picked_text, value_text};
#[allow(unused_imports)]
use crate::numbers::{is_finite, real_datum};
#[allow(unused_imports)]
use crate::page::no_table;
#[allow(unused_imports)]
use crate::query::{
    page_limit, page_offset, param_of, value_to_param, OwnedParam, Pagination, ParamView, Query,
    ReplyView,
};
#[allow(unused_imports)]
use crate::record::{no_key, no_row};
#[allow(unused_imports)]
use crate::statement::{plan_statement, query_reply, write_reply};
#[allow(unused_imports)]
use crate::text::{
    decimal, digit, has_part, lower, number_of, read_i64, read_u16, signed_decimal, text_before,
    trim_end, trim_start,
};

verus! {

/// A value holds what it was made from.
pub proof fn law_value_holds(b: bool, n: i64, u: u64, s: String)
    ensures
        Datum::Null@ == DatumView::Null,
        Datum::Bool(b)@ == DatumView::Bool(b),
        Datum::Int(n)@ == DatumView::Int(n as int),
        Datum::Uint(u)@ == DatumView::Uint(u as int),
        Datum::Decimal(s)@ == DatumView::Decimal(s@),
        Datum::Text(s)@ == DatumView::Text(s@),
        Datum::Document(s)@ == DatumView::Document(s@),
        OwnedParam::Null@ == ParamView::Null,
        OwnedParam::Bool(b)@ == ParamView::Bool(b),
        OwnedParam::I64(n)@ == ParamView::I64(n as int),
        OwnedParam::F64(s)@ == ParamView::F64(s@),
        OwnedParam::Text(s)@ == ParamView::Text(s@),
        OwnedParam::Json(s)@ == ParamView::Json(s@),
        JsonView::text(s@) == JsonView::Datum(DatumView::Text(s@)),
        JsonView::number(n as int) == JsonView::Datum(DatumView::Int(n as int)),
        JsonView::decimal(s@) == JsonView::Datum(DatumView::Decimal(s@)),
        JsonView::flag(b) == JsonView::Datum(DatumView::Bool(b)),
        JsonView::size(u as int) == JsonView::Datum(
            if u <= 9223372036854775807 {
                DatumView::Int(u as int)
            } else {
                DatumView::Uint(u as int)
            },
        ),
{
}

/// A statement holds its database, its text, its values in order and whether it writes.
pub proof fn law_statement_holds(query: Query, i: int)
    requires
        0 <= i < query.params@.len(),
    ensures
        query@.database == query.database@,
        query@.sql == query.sql@,
        query@.params.len() == query.params@.len(),
        query@.params[i] == query.params@[i]@,
        query@.write == query.write,
{
}

/// A value is bound as the very value that it is: a boolean as the same boolean, an integer as the
/// same integer, a text and a document as the same characters, and any other number by its text.
pub proof fn law_bound_value(value: Datum, param: OwnedParam)
    requires
        call_ensures(value_to_param, (value,), param),
    ensures
        value matches Datum::Bool(b) ==> param == OwnedParam::Bool(b),
        value matches Datum::Int(n) ==> param == OwnedParam::I64(n),
        value matches Datum::Uint(u) ==> (u <= 9223372036854775807 ==> (
        param matches OwnedParam::I64(n) && n as int == u as int)),
        value matches Datum::Uint(u) ==> (u > 9223372036854775807 ==> (
        param matches OwnedParam::F64(t) && t@ == decimal(u as nat))),
        value matches Datum::Text(s) ==> param matches OwnedParam::Text(t) && t@ == s@,
        value matches Datum::Document(s) ==> param matches OwnedParam::Json(t) && t@ == s@,
        value matches Datum::Decimal(s) ==> param matches OwnedParam::F64(t) && t@ == s@,
        value is Null <==> param is Null,
{
}

/// Two different values of one kind are never bound as one parameter.
pub proof fn law_bound_values_differ(a: DatumView, b: DatumView)
    requires
        param_of(a) == param_of(b),
    ensures
        a is Bool && b is Bool ==> a == b,
        a is Int && b is Int ==> a == b,
        a is Text && b is Text ==> a == b,
        a is Document && b is Document ==> a == b,
        a is Decimal && b is Decimal ==> a == b,
        a is Bool == b is Bool,
        a is Text == b is Text,
        a is Document == b is Document,
        a is Null == b is Null,
{
}

/// A name may stand as an identifier when it has characters and they are letters of the English
/// alphabet, decimal digits and underscores.
pub proof fn law_identifier(name: Seq<char>)
    ensures
        valid_identifier(name) <==> name.len() > 0 && forall|i: int|
            0 <= i < name.len() ==> ('a' <= #[trigger] name[i] <= 'z' || 'A' <= name[i] <= 'Z'
                || '0' <= name[i] <= '9' || name[i] == '_'),
{
}

/// What joins two names that may stand as identifiers may stand as one, and a name stops being one
/// with any other character in it.
pub proof fn law_identifiers_join(a: Seq<char>, b: Seq<char>, c: char)
    requires
        valid_identifier(a),
        valid_identifier(b),
    ensures
        valid_identifier(a + b),
        valid_identifier(a + seq![c] + b) <==> valid_identifier(seq![c]),
        c == '"' || c == ';' || c == '.' || c == '-' || c == ' ' || c == '\'' ==> !valid_identifier(
            seq![c],
        ),
        !valid_identifier(Seq::empty()),
{
    let all = a + seq![c] + b;
    assert(all[a.len() as int] == c);
    assert(seq![c][0] == c);
    if valid_identifier(seq![c]) {
        assert forall|i: int| 0 <= i < all.len() implies crate::identifiers::is_word_char(
            #[trigger] all[i],
        ) by {
            if i < a.len() {
                assert(all[i] == a[i]);
            } else if i > a.len() {
                assert(all[i] == b[i - a.len() - 1]);
            }
        }
    }
}

/// The databases behind the gateway are these ten and no other.
pub proof fn law_known_databases(database: Seq<char>)
    ensures
        is_known(database) <==> database == "closed_loop_finance"@ || database
            == "sec_earnings_workbench"@ || database == "hedge_fund_13f_radar"@ || database
            == "market_sentiment_fedgpt"@ || database == "autonomous_business_os"@ || database
            == "multi_agent_cfo_os"@ || database == "stratifi_core"@ || database == "battery_erp"@
            || database == "working_capital_optimizer"@ || database == "cash_flow_optimizer"@,
        DATABASES@.len() == 10,
        DATABASES@[0]@ == "closed_loop_finance"@,
        DATABASES@[1]@ == "sec_earnings_workbench"@,
        DATABASES@[2]@ == "hedge_fund_13f_radar"@,
        DATABASES@[3]@ == "market_sentiment_fedgpt"@,
        DATABASES@[4]@ == "autonomous_business_os"@,
        DATABASES@[5]@ == "multi_agent_cfo_os"@,
        DATABASES@[6]@ == "stratifi_core"@,
        DATABASES@[7]@ == "battery_erp"@,
        DATABASES@[8]@ == "working_capital_optimizer"@,
        DATABASES@[9]@ == "cash_flow_optimizer"@,
{
    if is_known(database) {
        let i = choose|i: int| 0 <= i < DATABASES@.len() && #[trigger] DATABASES@[i]@ == database;
        assert(i == 0 || i == 1 || i == 2 || i == 3 || i == 4 || i == 5 || i == 6 || i == 7 || i
            == 8 || i == 9);
    }
}

/// A name between quotes is the name with one quote before it and one behind it.
pub proof fn law_quotes(name: Seq<char>)
    ensures
        quoted(name).len() == name.len() + 2,
        quoted(name)[0] == '"',
        quoted(name).last() == '"',
        quoted(name).subrange(1, 1 + name.len() as int) == name,
{
    assert(quoted(name).subrange(1, 1 + name.len() as int) =~= name);
}

/// Every refusal has its status and says what it is about.
pub proof fn law_refusals(
    database: Seq<char>,
    table: Seq<char>,
    key: Seq<char>,
    record_id: Seq<char>,
    kind: Seq<char>,
)
    ensures
        not_admitted().status.number() == 401,
        not_admitted().detail == "Invalid or missing API key"@,
        unknown_database(database).status.number() == 404,
        unknown_database(database).detail == "Unknown database: "@ + database,
        invalid_name(kind).status.number() == 400,
        invalid_name(kind).detail == "Invalid "@ + kind + " name"@,
        no_table(database, table).status.number() == 404,
        no_table(database, table).detail == "Table '"@ + table + "' not found in '"@ + database
            + "'"@,
        no_key(table).status.number() == 400,
        no_key(table).detail == "Cannot detect primary key for table '"@ + table + "'"@,
        no_row(key, record_id).status.number() == 404,
        no_row(key, record_id).detail == "Row with "@ + key + "="@ + record_id + " not found"@,
        no_data().status.number() == 400,
        no_data().detail == "Request body must contain 'data' object"@,
{
}

/// An error is answered with the number of its status and a body that holds what it says and
/// nothing else.
pub proof fn law_error_response(error: ApiError, response: (u16, Json))
    requires
        call_ensures(ApiError::into_response, (error,), response),
    ensures
        error.status is BadRequest ==> response.0 == 400,
        error.status is Unauthorized ==> response.0 == 401,
        error.status is NotFound ==> response.0 == 404,
        error.status is InternalServerError ==> response.0 == 500,
        error.status is ServiceUnavailable ==> response.0 == 503,
        response.1@ matches JsonView::Object(body) && body.dom() =~= set!["detail"@]
            && body["detail"@] == JsonView::Datum(DatumView::Text(error.detail@)),
{
}

/// Where a key is set, a request is admitted when its key header has the very characters of the key;
/// a header with a byte that is no visible character, and no header, count as an empty one.
#[verifier::rlimit(40)]
pub proof fn law_admission(key: Seq<char>, header: Seq<u8>)
    ensures
        admitted(Some(key), None) <==> key.len() == 0,
        (exists|i: int|
            0 <= i < header.len() && (#[trigger] header[i] < 32 && header[i] != 9 || header[i]
                >= 127)) ==> (admitted(Some(key), Some(header)) <==> key.len() == 0),
        (forall|i: int|
            0 <= i < header.len() ==> (32 <= #[trigger] header[i] < 127 || header[i] == 9)) ==> (
        admitted(Some(key), Some(header)) <==> key.len() == header.len() && forall|i: int|
            0 <= i < key.len() ==> #[trigger] key[i] as int == header[i] as int),
        admitted(None, Some(header)),
{
    if forall|i: int|
        0 <= i < header.len() ==> (32 <= #[trigger] header[i] < 127 || header[i] == 9) {
        assert forall|i: int| 0 <= i < header.len() implies crate::auth::is_visible(
            #[trigger] header[i],
        ) by {}
        let text = Seq::new(header.len(), |i: int| header[i] as char);
        assert(crate::auth::header_chars(header) == Some(text));
        assert forall|i: int| 0 <= i < header.len() implies #[trigger] text[i] as int
            == header[i] as int by {}
        if key.len() == header.len() && (forall|i: int|
            0 <= i < key.len() ==> #[trigger] key[i] as int == header[i] as int) {
            assert forall|i: int| 0 <= i < key.len() implies key[i] == text[i] by {
                assert(key[i] as int == header[i] as int);
            }
            assert(key =~= text);
        }
        if text == key {
            assert forall|i: int| 0 <= i < key.len() implies #[trigger] key[i] as int
                == header[i] as int by {
                assert(text[i] as int == header[i] as int);
            }
        }
    }
    if exists|i: int|
        0 <= i < header.len() && (#[trigger] header[i] < 32 && header[i] != 9 || header[i] >= 127) {
        let i = choose|i: int|
            0 <= i < header.len() && (#[trigger] header[i] < 32 && header[i] != 9 || header[i]
                >= 127);
        assert(!crate::auth::is_visible(header[i]));
        assert(crate::auth::supplied_key(Some(header)) =~= Seq::empty());
        if key.len() == 0 {
            assert(key =~= Seq::empty());
        }
    }
    if key.len() == 0 {
        assert(key =~= Seq::empty());
    }
}

/// A number is written with its last decimal digit last, after the number without it; a single
/// digit stands alone; a negative number has a minus sign first.
pub proof fn law_decimal(n: nat, z: int)
    ensures
        decimal(n).last() as int == '0' as int + n % 10,
        n >= 10 ==> decimal(n).drop_last() == decimal(n / 10),
        n < 10 ==> decimal(n).len() == 1,
        z < 0 ==> signed_decimal(z) == seq!['-'] + decimal((-z) as nat),
        z >= 0 ==> signed_decimal(z) == decimal(z as nat),
{
    if n >= 10 {
        assert(decimal(n).drop_last() =~= decimal(n / 10));
    }
}

/// Digits write ten times what the digits before the last write, and the last.
pub proof fn law_digits(digits: Seq<char>, c: char)
    requires
        '0' <= c <= '9',
    ensures
        number_of(Seq::empty()) == 0,
        number_of(digits.push(c)) == 10 * number_of(digits) + (c as int - '0' as int),
{
    assert(digits.push(c).drop_last() =~= digits);
}

/// An integer is read from digits with a sign or without one, where it fits, and from nothing
/// else.
#[verifier::rlimit(40)]
pub proof fn law_integer_read(digits: Seq<char>, other: Seq<char>, i: int)
    requires
        digits.len() > 0,
        forall|k: int| 0 <= k < digits.len() ==> '0' <= #[trigger] digits[k] <= '9',
        0 <= i < other.len(),
        !('0' <= other[i] <= '9'),
        i > 0 || other[i] != '-' && other[i] != '+' || other.len() == 1,
    ensures
        number_of(digits) <= 9223372036854775807 ==> read_i64(digits) == Some(
            number_of(digits) as i64,
        ) && read_i64(seq!['+'] + digits) == Some(number_of(digits) as i64),
        number_of(digits) > 9223372036854775807 ==> read_i64(digits) is None && read_i64(
            seq!['+'] + digits,
        ) is None,
        number_of(digits) <= 9223372036854775808 ==> read_i64(seq!['-'] + digits) == Some(
            (-number_of(digits)) as i64,
        ),
        number_of(digits) > 9223372036854775808 ==> read_i64(seq!['-'] + digits) is None,
        read_i64(other) is None,
        read_i64(Seq::empty()) is None,
        number_of(digits) <= 65535 ==> read_u16(digits) == Some(number_of(digits) as u16)
            && read_u16(seq!['+'] + digits) == Some(number_of(digits) as u16),
        number_of(digits) > 65535 ==> read_u16(digits) is None,
        read_u16(other) is None,
        read_u16(Seq::empty()) is None,
        read_u16(seq!['-'] + digits) is None,
{
    assert((seq!['+'] + digits).drop_first() =~= digits);
    assert((seq!['-'] + digits).drop_first() =~= digits);
    assert('0' <= digits[0] <= '9');
    assert forall|k: int| 0 <= k < digits.len() implies crate::text::is_digit(
        #[trigger] digits[k],
    ) by {}
    assert(!crate::text::is_digit(other[i]));
    if i > 0 {
        assert(other.drop_first()[i - 1] == other[i]);
    }
    assert(!crate::text::is_digit((seq!['-'] + digits)[0]));
}

/// In lower case every letter of the English alphabet is the small one, and everything else is as it
/// was.
pub proof fn law_lower(s: Seq<char>, i: int)
    requires
        0 <= i < s.len(),
    ensures
        lower(s).len() == s.len(),
        'A' <= s[i] <= 'Z' ==> lower(s)[i] as int == s[i] as int + ('a' as int - 'A' as int),
        !('A' <= s[i] <= 'Z') ==> lower(s)[i] == s[i],
{
}

/// A text has a part when it is something, the part and something, and only then.
pub proof fn law_part(s: Seq<char>, part: Seq<char>, before: Seq<char>, behind: Seq<char>)
    ensures
        has_part(before + part + behind, part),
        has_part(s, part) ==> exists|a: Seq<char>, b: Seq<char>| s == #[trigger] (a + part + b),
{
    let all = before + part + behind;
    let at = before.len() as int;
    assert(all.subrange(at, at + part.len()) =~= part);
    if has_part(s, part) {
        let at = choose|at: int|
            0 <= at && at + part.len() <= s.len() && #[trigger] s.subrange(at, at + part.len())
                == part;
        let a = s.take(at);
        let b = s.skip(at + part.len());
        assert(s =~= a + s.subrange(at, at + part.len()) + b);
        assert(s == a + part + b);
    }
}

/// Of two texts the one comes first whose character is the lower where they first differ, and a
/// text comes before what it starts.
pub proof fn law_text_order(common: Seq<char>, a: Seq<char>, b: Seq<char>, x: char, y: char)
    ensures
        text_before(common + seq![x] + a, common + seq![y] + b) <==> x < y || x == y && text_before(
            a,
            b,
        ),
        text_before(common, common + seq![y] + b),
        !text_before(common, common),
        !text_before(common + seq![x] + a, common),
    decreases common.len(),
{
    let p = common + seq![x] + a;
    let q = common + seq![y] + b;
    if common.len() == 0 {
        assert(p.drop_first() =~= a);
        assert(q.drop_first() =~= b);
        assert(p[0] == x && q[0] == y);
    } else {
        let rest = common.drop_first();
        assert(p.drop_first() =~= rest + seq![x] + a);
        assert(q.drop_first() =~= rest + seq![y] + b);
        assert(p[0] == common[0] && q[0] == common[0]);
        law_text_order(rest, a, b, x, y);
    }
}

/// A value is shown as its characters where it is a text, and else as it stands in JSON.
pub proof fn law_shown_value(n: int, t: Seq<char>)
    ensures
        value_text(DatumView::Text(t)) == t,
        value_text(DatumView::Decimal(t)) == t,
        value_text(DatumView::Document(t)) == t,
        value_text(DatumView::Int(n)) == signed_decimal(n),
        n >= 0 ==> value_text(DatumView::Uint(n)) == decimal(n as nat),
        value_text(DatumView::Bool(true)) == "true"@,
        value_text(DatumView::Bool(false)) == "false"@,
        value_text(DatumView::Null) == "null"@,
{
}

/// An integer is read from an integer that fits and from a text that writes one, and from nothing
/// else.
pub proof fn law_integer_of(n: i64, u: u64, t: Seq<char>, b: bool)
    ensures
        int_of(DatumView::Int(n as int)) == Some(n),
        u <= 9223372036854775807 ==> int_of(DatumView::Uint(u as int)) == Some(u as i64),
        u > 9223372036854775807 ==> int_of(DatumView::Uint(u as int)) is None,
        int_of(DatumView::Text(t)) == read_i64(t),
        int_of(DatumView::Decimal(t)) is None,
        int_of(DatumView::Document(t)) is None,
        int_of(DatumView::Bool(b)) is None,
        int_of(DatumView::Null) is None,
{
}

/// A number is read from the text of a number and from a text, and from nothing else.
pub proof fn law_number_of(n: int, t: Seq<char>, b: bool)
    ensures
        number_text(DatumView::Int(n)) == Some(signed_decimal(n)),
        n >= 0 ==> number_text(DatumView::Uint(n)) == Some(decimal(n as nat)),
        number_text(DatumView::Decimal(t)) == Some(t),
        number_text(DatumView::Text(t)) == Some(t),
        number_text(DatumView::Document(t)) is None,
        number_text(DatumView::Bool(b)) is None,
        number_text(DatumView::Null) is None,
{
}

/// Of several columns the first counts that the row has; for an integer the first that holds one.
pub proof fn law_first_column(row: RowView, keys: Seq<Seq<char>>, i: int)
    requires
        0 <= i < keys.len(),
    ensures
        row.contains_key(keys[i]) && (forall|j: int|
            0 <= j < i ==> !row.contains_key(#[trigger] keys[j])) ==> picked_text(row, keys) == Some(
            value_text(row[keys[i]]),
        ),
        (forall|j: int| 0 <= j < keys.len() ==> !row.contains_key(#[trigger] keys[j]))
            ==> picked_text(row, keys) is None && picked_int(row, keys) is None,
        row.contains_key(keys[i]) && int_of(row[keys[i]]) is Some && (forall|j: int|
            0 <= j < i ==> !(row.contains_key(#[trigger] keys[j]) && int_of(row[keys[j]]) is Some))
            ==> picked_int(row, keys) == int_of(row[keys[i]]),
        (forall|j: int|
            0 <= j < keys.len() ==> !(row.contains_key(#[trigger] keys[j]) && int_of(
                row[keys[j]],
            ) is Some)) ==> picked_int(row, keys) is None,
    decreases keys.len(),
{
    let rest = keys.drop_first();
    assert forall|j: int| 0 <= j < rest.len() implies #[trigger] rest[j] == keys[j + 1] by {}
    if rest.len() > 0 {
        law_first_column(row, rest, if i > 0 { i - 1 } else { 0 });
    }
    if i > 0 {
        assert(rest[i - 1] == keys[i]);
    }
    reveal_with_fuel(picked_text, 2);
    reveal_with_fuel(picked_int, 2);
}

/// The texts that a column gives a number from: one where it is a number or a text, and none else.
pub open spec fn column_numbers(row: RowView, name: Seq<char>) -> Seq<Seq<char>> {
    if !row.contains_key(name) {
        Seq::empty()
    } else {
        match row[name] {
            DatumView::Int(n) => seq![signed_decimal(n)],
            DatumView::Uint(n) => seq![decimal(n as nat)],
            DatumView::Decimal(t) => seq![t],
            DatumView::Text(t) => seq![t],
            _ => Seq::empty(),
        }
    }
}

/// An amount is read from its columns in their order, and from the default after them.
pub proof fn law_amount(row: RowView, keys: Seq<Seq<char>>, default: Seq<char>)
    ensures
        amount_texts(row, Seq::empty(), default) == seq![default],
        keys.len() > 0 ==> amount_texts(row, keys, default) == column_numbers(row, keys[0])
            + amount_texts(row, keys.drop_first(), default),
{
    if keys.len() > 0 {
        assert(amount_texts(row, keys, default) =~= column_numbers(row, keys[0]) + amount_texts(
            row,
            keys.drop_first(),
            default,
        ));
    }
}

/// A floating-point number is finite when its bits without the sign are below those of infinity. A
/// finite one is shown by its text, and any other as null.
pub proof fn law_finite(bits: u64, text: Seq<char>)
    ensures
        is_finite(bits) <==> (bits < 0x7ff0_0000_0000_0000 || 0x8000_0000_0000_0000 <= bits
            < 0xfff0_0000_0000_0000),
        bits < 0x7ff0_0000_0000_0000 ==> real_datum(bits, text) == DatumView::Decimal(text),
        0x8000_0000_0000_0000 <= bits < 0xfff0_0000_0000_0000 ==> real_datum(bits, text)
            == DatumView::Decimal(text),
        0x7ff0_0000_0000_0000 <= bits < 0x8000_0000_0000_0000 || bits >= 0xfff0_0000_0000_0000
            ==> real_datum(bits, text) == DatumView::Null,
{
}

/// A page is bounded from below and above: what is asked for is kept within the bounds, and goes to
/// the nearer bound outside them.
pub proof fn law_page_size(pagination: Pagination, page: (i64, i64))
    requires
        call_ensures(Pagination::normalized, (&pagination,), page),
    ensures
        pagination.limit is None ==> page.0 == 50,
        pagination.limit matches Some(n) ==> page.0 == (if n < 1 {
            1
        } else if n > 1000 {
            1000
        } else {
            n as int
        }),
        pagination.offset is None ==> page.1 == 0,
        pagination.offset matches Some(n) ==> page.1 == (if n < 0 {
            0
        } else {
            n as int
        }),
        page.0 == page_limit(pagination.limit),
        page.1 == page_offset(pagination.offset),
{
}

/// The environment sets the gateway up: every variable counts for its own setting, and one that is
/// not set leaves the default.
pub proof fn law_environment(env: Environment, config: Config)
    requires
        call_ensures(Config::from_env, (env,), config),
    ensures
        env.port is None ==> config.port == 8080,
        env.port matches Some(s) ==> config.port == (match read_u16(s@) {
            Some(port) => port,
            None => 8080u16,
        }),
        env.cockroach_port is None ==> config.cockroach_port == 26257,
        env.cockroach_port matches Some(s) ==> config.cockroach_port == (match read_u16(s@) {
            Some(port) => port,
            None => 26257u16,
        }),
        env.cockroach_host is None ==> config.cockroach_host@
            == "vortex-giraffe-15678.jxf.gcp-us-east1.cockroachlabs.cloud"@,
        env.cockroach_host matches Some(s) ==> config.cockroach_host@ == s@,
        env.cockroach_user is None ==> config.cockroach_user@ == "cubiczan"@,
        env.cockroach_user matches Some(s) ==> config.cockroach_user@ == s@,
        env.cockroach_ssl is None ==> config.cockroach_ssl@ == "require"@,
        env.cockroach_ssl matches Some(s) ==> config.cockroach_ssl@ == s@,
        env.api_key is None ==> config.api_key is None,
        env.api_key matches Some(s) ==> match config.api_key {
            Some(key) => key@ == trim_end(trim_start(s@)) && key@.len() > 0,
            None => trim_end(trim_start(s@)).len() == 0,
        },
        env.cockroach_password is None ==> config.cockroach_password is None,
        env.cockroach_password matches Some(s) ==> match config.cockroach_password {
            Some(password) => password@ == trim_end(trim_start(s@)) && password@.len() > 0,
            None => trim_end(trim_start(s@)).len() == 0,
        },
{
}

/// Whether `text` is `word` but for the case of letters.
pub open spec fn same_but_for_case(text: Seq<char>, word: Seq<char>) -> bool {
    text.len() == word.len() && forall|i: int|
        0 <= i < word.len() ==> (#[trigger] text[i] == word[i] || 'A' <= text[i] <= 'Z'
            && text[i] as int + 32 == word[i] as int)
}

/// A database is reached at the host and the port of the set-up, as its user and with its password,
/// under its own name; without TLS only where the set-up says `disable`; and not at all where no
/// password is set.
#[verifier::rlimit(40)]
pub proof fn law_connection(
    state: AppState,
    database: &str,
    plan: Result<ConnectionPlan, ApiError>,
)
    requires
        call_ensures(connect_database, (&state, database), plan),
    ensures
        state.settings().cockroach_password is None ==> (plan matches Err(error)
            && error@.status is ServiceUnavailable && error@.detail
            == "COCKROACH_PASSWORD is required for live database access"@),
        state.settings().cockroach_password matches Some(password) ==> plan matches Ok(p)
            && p.password@ == password@ && p.host@ == state.settings().cockroach_host@ && p.port
            == state.settings().cockroach_port && p.user@ == state.settings().cockroach_user@
            && p.dbname@ == database@ && (!p.tls <==> same_but_for_case(
            state.settings().cockroach_ssl@,
            "disable"@,
        )),
{
    reveal_strlit("disable");
    let ssl = state.settings().cockroach_ssl@;
    let word = "disable"@;
    assert forall|i: int| 0 <= i < word.len() implies 'a' <= #[trigger] word[i] <= 'z' by {
        assert(i == 0 || i == 1 || i == 2 || i == 3 || i == 4 || i == 5 || i == 6);
    }
    if same_but_for_case(ssl, word) {
        assert(lower(ssl) =~= word);
    }
    if lower(ssl) == word {
        assert forall|i: int| 0 <= i < word.len() implies (#[trigger] ssl[i] == word[i] || 'A'
            <= ssl[i] <= 'Z' && ssl[i] as int + 32 == word[i] as int) by {
            assert(lower(ssl)[i] == word[i]);
        }
        assert(lower(ssl).len() == ssl.len());
    }
}

/// A statement is planned only for a database behind the gateway, and then as that database is
/// reached.
pub proof fn law_planned(state: AppState, query: Query, plan: Result<ConnectionPlan, ApiError>)
    requires
        call_ensures(plan_statement, (&state, &query), plan),
    ensures
        !is_known(query.database@) ==> (plan matches Err(error) && error@.status is NotFound
            && error@.detail == "Unknown database: "@ + query.database@),
        is_known(query.database@) && state.settings().cockroach_password is None
            ==> (plan matches Err(error) && error@.status is ServiceUnavailable),
        is_known(query.database@) && state.settings().cockroach_password is Some
            ==> (plan matches Ok(p) && p.dbname@ == query.database@ && p.host@
            == state.settings().cockroach_host@ && p.port == state.settings().cockroach_port
            && p.user@ == state.settings().cockroach_user@ && p.password@
            == state.settings().cockroach_password->Some_0@),
{
}

/// Connecting may take 5 seconds and a statement 30. A connection that fails is a matter of the
/// service, with its own message or the time that it was waited for.
pub proof fn law_connect_failure(error: ResilienceError<String>, answer: ApiError)
    requires
        call_ensures(connect_error, (error,), answer),
    ensures
        CONNECT_TIMEOUT_SECS == 5,
        QUERY_TIMEOUT_SECS == 30,
        answer@.status is ServiceUnavailable,
        error matches ResilienceError::Timeout { nanos } ==> answer@.detail
            == "database connect timed out after "@ + duration_text(nanos),
        error matches ResilienceError::Terminal(message) ==> answer@.detail == message@,
        error matches ResilienceError::Exhausted { attempts, source } ==> answer@.detail == source@,
{
}

/// Whether the reply is an error with the given status and text.
pub open spec fn replies_error(reply: ReplyView, status: Status, detail: Seq<char>) -> bool {
    reply matches Err(error) && error.status == status && error.detail == detail
}

/// A statement that fails is replied so: where all attempts took too long as a matter of the
/// service, with the time, and else as an error of the server, with the message of the database.
pub proof fn law_statement_failure(nanos: u64, attempts: u32, refusal: SqlError, last: SqlError)
    ensures
        replies_error(
            query_reply(Err(ResilienceError::Timeout { nanos })),
            Status::ServiceUnavailable,
            "database "@ + "query"@ + " timed out after "@ + duration_text(nanos),
        ),
        replies_error(
            write_reply(Err(ResilienceError::Timeout { nanos })),
            Status::ServiceUnavailable,
            "database "@ + "write"@ + " timed out after "@ + duration_text(nanos),
        ),
        replies_error(
            query_reply(Err(ResilienceError::Terminal(ResilienceError::Terminal(refusal)))),
            Status::InternalServerError,
            refusal.message@,
        ),
        replies_error(
            write_reply(Err(ResilienceError::Terminal(ResilienceError::Terminal(refusal)))),
            Status::InternalServerError,
            refusal.message@,
        ),
        replies_error(
            query_reply(
                Err(
                    ResilienceError::Terminal(
                        ResilienceError::Exhausted { attempts, source: last },
                    ),
                ),
            ),
            Status::InternalServerError,
            last.message@,
        ),
        replies_error(
            query_reply(Err(ResilienceError::Terminal(ResilienceError::Timeout { nanos }))),
            Status::InternalServerError,
            "database "@ + "query"@ + " failed"@,
        ),
        replies_error(
            write_reply(Err(ResilienceError::Terminal(ResilienceError::Timeout { nanos }))),
            Status::InternalServerError,
            "database "@ + "write"@ + " failed"@,
        ),
{
}

/// A statement that reads is replied with as many rows as it came to, each from its own columns; one
/// that writes with none.
pub proof fn law_statement_rows(rows: Vec<Vec<Column>>, changed: u64, i: int)
    requires
        0 <= i < rows@.len(),
    ensures
        query_reply(Ok(rows)) matches Ok(list) && list.len() == rows@.len() && list[i]
            == columns_view(rows@[i]@),
        write_reply(Ok(changed)) matches Ok(list) && list.len() == 0,
{
}

/// The refusal of a statement keeps its class and its message.
pub proof fn law_refusal_kept(code: Option<String>, message: String, error: SqlError)
    requires
        call_ensures(to_sql_error, (code, message), error),
    ensures
        code matches Some(class) ==> error.sqlstate@ == class@,
        code is None ==> error.sqlstate@.len() == 0,
        error.message@ == message@,
{
}

/// The column types are told apart by their object identifiers; a type that is not told apart is
/// read as text.
pub proof fn law_decoders(oid: u32)
    ensures
        decoder_for(16) is Bool,
        decoder_for(17) is Bytes,
        decoder_for(20) is Int8,
        decoder_for(21) is Int2,
        decoder_for(23) is Int4,
        decoder_for(114) is Json,
        decoder_for(3802) is Json,
        decoder_for(700) is Float4,
        decoder_for(701) is Float8,
        decoder_for(1082) is Date,
        decoder_for(1083) is Time,
        decoder_for(1114) is Timestamp,
        decoder_for(1184) is TimestampTz,
        decoder_for(2950) is Uuid,
        oid != 16 && oid != 17 && oid != 20 && oid != 21 && oid != 23 && oid != 114 && oid != 3802
            && oid != 700 && oid != 701 && oid != 1082 && oid != 1083 && oid != 1114 && oid != 1184
            && oid != 2950 ==> decoder_for(oid) is Text,
{
}

/// A cell is reported as what it holds: null as null, a value as the same value, and one that could
/// not be decoded as null or by the name of its type.
pub proof fn law_cell(
    oid: u32,
    ty: Seq<char>,
    b: bool,
    n: i64,
    s: String,
    datum: Datum,
    x: crate::numbers::Real,
)
    ensures
        cell_datum(oid, ty, Cell::Null) == DatumView::Null,
        cell_datum(oid, ty, Cell::Decoded(Decoded::Bool(b))) == DatumView::Bool(b),
        cell_datum(oid, ty, Cell::Decoded(Decoded::Integer(n))) == DatumView::Int(n as int),
        cell_datum(oid, ty, Cell::Decoded(Decoded::Text(s))) == DatumView::Text(s@),
        cell_datum(oid, ty, Cell::Decoded(Decoded::Json(datum))) == datum@,
        is_finite(x.bits) ==> cell_datum(oid, ty, Cell::Decoded(Decoded::Float(x)))
            == DatumView::Decimal(x.text@),
        !is_finite(x.bits) ==> cell_datum(oid, ty, Cell::Decoded(Decoded::Float(x)))
            == DatumView::Null,
        oid == 16 || oid == 21 || oid == 23 || oid == 20 || oid == 700 || oid == 701 || oid == 1043
            || oid == 25 || oid == 1042 || oid == 19 || oid == 114 || oid == 3802 ==> cell_datum(
            oid,
            ty,
            Cell::Failed,
        ) == DatumView::Null,
        !(oid == 16 || oid == 21 || oid == 23 || oid == 20 || oid == 700 || oid == 701 || oid
            == 1043 || oid == 25 || oid == 1042 || oid == 19 || oid == 114 || oid == 3802)
            ==> cell_datum(oid, ty, Cell::Failed) == DatumView::Text(
            "<unsupported:"@ + ty + ">"@,
        ),
{
}

/// Days and times that there are are reported as they are written, and others by the name of their
/// type.
pub proof fn law_moment_cell(
    oid: u32,
    ty: Seq<char>,
    date: Date,
    time: Time,
)
    ensures
        is_date(date) ==> cell_datum(oid, ty, Cell::Decoded(Decoded::Date(date)))
            == DatumView::Text(date_text(date)),
        is_time(time) ==> cell_datum(oid, ty, Cell::Decoded(Decoded::Time(time)))
            == DatumView::Text(time_text(time)),
        is_date(date) && is_time(time) ==> cell_datum(
            oid,
            ty,
            Cell::Decoded(Decoded::Timestamp(date, time)),
        ) == DatumView::Text(
            date_text(date) + " "@ + time_text(time),
        ) && cell_datum(oid, ty, Cell::Decoded(Decoded::TimestampTz(date, time)))
            == DatumView::Text(
            date_text(date) + "T"@ + time_text(time) + "+00:00"@,
        ),
        !is_date(date) ==> cell_datum(
            oid,
            ty,
            Cell::Decoded(Decoded::Date(date)),
        ) == DatumView::Text("<unsupported:"@ + ty + ">"@),
{
}

/// A row has the columns that it was read from and no other, each under its name; of two with one
/// name the later counts.
pub proof fn law_columns(columns: Seq<Column>, last: Column, name: Seq<char>)
    ensures
        columns_view(Seq::empty()) == RowView::empty(),
        columns_view(columns.push(last)).contains_key(last.name@),
        columns_view(columns.push(last))[last.name@] == cell_datum(last.oid, last.ty@, last.cell),
        name != last.name@ ==> columns_view(columns.push(last)).contains_key(name) == columns_view(
            columns,
        ).contains_key(name) && columns_view(columns.push(last))[name] == columns_view(
            columns,
        )[name],
{
    assert(columns.push(last).drop_last() =~= columns);
}

/// A row of fields has the names of its fields and no other; of two with one name the later counts.
pub proof fn law_fields(fields: Seq<Field>, last: Field, name: Seq<char>)
    ensures
        fields_view(Seq::empty()) == RowView::empty(),
        fields_view(fields.push(last)).contains_key(last.name@),
        fields_view(fields.push(last))[last.name@] == last.value@,
        name != last.name@ ==> fields_view(fields.push(last)).contains_key(name) == fields_view(
            fields,
        ).contains_key(name) && fields_view(fields.push(last))[name] == fields_view(fields)[name],
{
    assert(fields.push(last).drop_last() =~= fields);
}

/// Rows are shown in their order, each as an object that has its columns and no other member, with
/// their values.
pub proof fn law_rows_shown(rows: Seq<RowView>, i: int, name: Seq<char>)
    requires
        0 <= i < rows.len(),
    ensures
        rows_json(rows) matches JsonView::Array(items) && items.len() == rows.len() && items[i]
            == row_json(rows[i]),
        row_json(rows[i]) matches JsonView::Object(members) && (members.contains_key(name)
            <==> rows[i].contains_key(name)) && (rows[i].contains_key(name) ==> members[name]
            == JsonView::Datum(rows[i][name])),
{
}

/// A row of a table list names its table by the text in its column `table_name`; with anything else
/// there it names none.
pub proof fn law_listed_name(row: RowView)
    ensures
        !row.contains_key("table_name"@) ==> listed_name(row).len() == 0,
        row.contains_key("table_name"@) && row["table_name"@] is Text ==> listed_name(row)
            == row["table_name"@]->Text_0,
        row.contains_key("table_name"@) && !(row["table_name"@] is Text) ==> listed_name(row).len()
            == 0,
{
}

/// The number of rows is the integer in the column `cnt` of the first row; zero where it is missing
/// or no integer; and the default where the statement failed.
pub proof fn law_row_count(rows: Seq<RowView>, error: ApiErrorView, default: int)
    ensures
        reported_count(Err(error), default) == default,
        rows.len() == 0 ==> reported_count(Ok(rows), default) == 0,
        rows.len() > 0 && !rows[0].contains_key("cnt"@) ==> reported_count(Ok(rows), default) == 0,
        rows.len() > 0 && rows[0].contains_key("cnt"@) ==> reported_count(Ok(rows), default)
            == match int_of(rows[0]["cnt"@]) {
            Some(n) => n as int,
            None => 0,
        },
{
}

/// A day of a year with four digits is written with its year, its month and its day, each digit in
/// its place; a year before these has a minus sign, one after them a plus sign.
#[verifier::rlimit(40)]
pub proof fn law_day_written(date: Date)
    requires
        is_date(date),
    ensures
        0 <= date.year <= 9999 ==> ({
            let t = date_text(date);
            &&& t.len() == 10
            &&& t[0] as int == 48 + date.year as int / 1000
            &&& t[1] as int == 48 + date.year as int / 100 % 10
            &&& t[2] as int == 48 + date.year as int / 10 % 10
            &&& t[3] as int == 48 + date.year as int % 10
            &&& t[4] == '-'
            &&& t[5] as int == 48 + date.month as int / 10
            &&& t[6] as int == 48 + date.month as int % 10
            &&& t[7] == '-'
            &&& t[8] as int == 48 + date.day as int / 10
            &&& t[9] as int == 48 + date.day as int % 10
        }),
        date.year < 0 ==> date_text(date)[0] == '-',
        date.year > 9999 ==> date_text(date)[0] == '+',
{
    reveal_strlit("-");
    reveal_strlit("+");
    lemma_two_digits(date.month as nat);
    lemma_two_digits(date.day as nat);
    if 0 <= date.year <= 9999 {
        let year = date.year as nat;
        lemma_three_digits(year / 10);
        lemma_digit(year as int % 10);
        assert(padded(year, 4) =~= padded(year / 10, 3).push(digit((year % 10) as int)));
    }
}

/// A time of day is written with its hour, its minute and its second, and with thousandths where
/// there is no finer part.
#[verifier::rlimit(40)]
pub proof fn law_time_written(time: Time)
    requires
        is_time(time),
        time.nano < 1_000_000_000,
    ensures
        ({
            let t = time_text(time);
            &&& t.len() >= 8
            &&& t[0] as int == 48 + time.hour as int / 10
            &&& t[1] as int == 48 + time.hour as int % 10
            &&& t[2] == ':'
            &&& t[3] as int == 48 + time.minute as int / 10
            &&& t[4] as int == 48 + time.minute as int % 10
            &&& t[5] == ':'
            &&& t[6] as int == 48 + time.second as int / 10
            &&& t[7] as int == 48 + time.second as int % 10
            &&& time.nano == 0 ==> t.len() == 8
            &&& time.nano > 0 && time.nano as int % 1_000_000 == 0 ==> t.len() == 12 && t[8] == '.'
                && t[9] as int == 48 + time.nano as int / 100_000_000 && t[10] as int == 48
                + time.nano as int / 10_000_000 % 10 && t[11] as int == 48 + time.nano as int
                / 1_000_000 % 10
            &&& time.nano as int % 1_000_000 != 0 && time.nano as int % 1_000 == 0 ==> t.len() == 15
            &&& time.nano as int % 1_000 != 0 ==> t.len() == 18
        }),
{
    reveal_strlit(":");
    reveal_strlit(".");
    lemma_two_digits(time.hour as nat);
    lemma_two_digits(time.minute as nat);
    lemma_two_digits(time.second as nat);
    lemma_three_digits((time.nano as int / 1_000_000) as nat);
    lemma_padded_len((time.nano as int / 1_000) as nat, 6);
    lemma_padded_len(time.nano as nat, 9);
    let fraction = fraction_text((time.nano % 1_000_000_000) as nat);
    let head = padded(time.hour as nat, 2) + ":"@ + padded(time.minute as nat, 2) + ":"@ + padded(
        time.second as nat,
        2,
    );
    assert(head.len() == 8);
    assert(time_text(time) =~= head + fraction);
}

proof fn lemma_digit(d: int)
    requires
        0 <= d < 10,
    ensures
        digit(d) as int == 48 + d,
{
    assert(d == 0 || d == 1 || d == 2 || d == 3 || d == 4 || d == 5 || d == 6 || d == 7 || d == 8
        || d == 9);
}

proof fn lemma_padded_len(n: nat, width: nat)
    ensures
        padded(n, width).len() == width,
    decreases width,
{
    if width > 0 {
        lemma_padded_len(n / 10, (width - 1) as nat);
    }
}

proof fn lemma_two_digits(n: nat)
    requires
        n < 100,
    ensures
        padded(n, 2).len() == 2,
        padded(n, 2)[0] as int == 48 + n as int / 10,
        padded(n, 2)[1] as int == 48 + n as int % 10,
{
    reveal_with_fuel(padded, 3);
    lemma_digit(n as int / 10);
    lemma_digit(n as int % 10);
}

proof fn lemma_three_digits(n: nat)
    requires
        n < 1000,
    ensures
        padded(n, 3).len() == 3,
        padded(n, 3)[0] as int == 48 + n as int / 100,
        padded(n, 3)[1] as int == 48 + n as int / 10 % 10,
        padded(n, 3)[2] as int == 48 + n as int % 10,
{
    lemma_two_digits(n / 10);
    lemma_digit(n as int % 10);
    assert(padded(n, 3) =~= padded(n / 10, 2).push(digit((n % 10) as int)));
}

/// A UUID is written with 36 characters: hyphens at their four places, and two hexadecimal digits for
/// each byte between them.
pub proof fn law_uuid_written(bytes: Seq<u8>)
    requires
        bytes.len() == 16,
    ensures
        uuid_text(bytes).len() == 36,
        uuid_text(bytes)[8] == '-',
        uuid_text(bytes)[13] == '-',
        uuid_text(bytes)[18] == '-',
        uuid_text(bytes)[23] == '-',
        uuid_text(bytes).subrange(0, 8) == hex(bytes, 0, 4),
        uuid_text(bytes).subrange(9, 13) == hex(bytes, 4, 6),
        uuid_text(bytes).subrange(14, 18) == hex(bytes, 6, 8),
        uuid_text(bytes).subrange(19, 23) == hex(bytes, 8, 10),
        uuid_text(bytes).subrange(24, 36) == hex(bytes, 10, 16),
{
    reveal_strlit("-");
    lemma_hex_len(bytes, 0, 4);
    lemma_hex_len(bytes, 4, 6);
    lemma_hex_len(bytes, 6, 8);
    lemma_hex_len(bytes, 8, 10);
    lemma_hex_len(bytes, 10, 16);
    assert(uuid_text(bytes).subrange(0, 8) =~= hex(bytes, 0, 4));
    assert(uuid_text(bytes).subrange(9, 13) =~= hex(bytes, 4, 6));
    assert(uuid_text(bytes).subrange(14, 18) =~= hex(bytes, 6, 8));
    assert(uuid_text(bytes).subrange(19, 23) =~= hex(bytes, 8, 10));
    assert(uuid_text(bytes).subrange(24, 36) =~= hex(bytes, 10, 16));
}

proof fn lemma_hex_len(bytes: Seq<u8>, from: int, to: int)
    requires
        from <= to,
    ensures
        hex(bytes, from, to).len() == 2 * (to - from),
    decreases to - from,
{
    if from < to {
        lemma_hex_len(bytes, from + 1, to);
    }
}

/// A cell with a UUID is reported as the UUID is written, and one with bytes as the text that they
/// encode.
pub proof fn law_bytes_cell(oid: u32, ty: Seq<char>, uuid: [u8; 16], bytes: Vec<u8>)
    ensures
        cell_datum(oid, ty, Cell::Decoded(Decoded::Uuid(uuid))) == DatumView::Text(
            uuid_text(uuid@),
        ),
        vstd::utf8::valid_utf8(bytes@) ==> cell_datum(
            oid,
            ty,
            Cell::Decoded(Decoded::Bytes(bytes)),
        ) == DatumView::Text(vstd::utf8::decode_utf8(bytes@)),
        !vstd::utf8::valid_utf8(bytes@) ==> cell_datum(
            oid,
            ty,
            Cell::Decoded(Decoded::Bytes(bytes)),
        ) == DatumView::Text(utf8_lossy(bytes@)),
{
}

} // verus!
