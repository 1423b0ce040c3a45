//! Which databases there are, and which names may stand in a statement.

use vstd::prelude::*;

use crate::error::ApiError;
#[allow(unused_imports)]
use crate::error::{ApiErrorView, Status};
use crate::text::{chars_of, joined, same_text};

verus! {

/// The databases behind the gateway.
pub const DATABASES: [&'static str; 10] = [
    "closed_loop_finance",
    "sec_earnings_workbench",
    "hedge_fund_13f_radar",
    "market_sentiment_fedgpt",
    "autonomous_business_os",
    "multi_agent_cfo_os",
    "stratifi_core",
    "battery_erp",
    "working_capital_optimizer",
    "cash_flow_optimizer",
];

/// Whether `database` is one of the databases behind the gateway.
pub open spec fn is_known(database: Seq<char>) -> bool {
    exists|i: int| 0 <= i < DATABASES@.len() && #[trigger] DATABASES@[i]@ == database
}

/// What is answered where `database` is not known.
pub open spec fn unknown_database(database: Seq<char>) -> ApiErrorView {
    ApiErrorView { status: Status::NotFound, detail: "Unknown database: "@ + database }
}

/// Accepts the databases behind the gateway and no other.
pub fn ensure_database(database: &str) -> (checked: Result<(), ApiError>)
    ensures
        match checked {
            Ok(()) => is_known(database@),
            Err(error) => !is_known(database@) && error@ == unknown_database(database@),
        },
{
    for i in 0..DATABASES.len()
        invariant
            forall|k: int| 0 <= k < i ==> #[trigger] DATABASES@[k]@ != database@,
    {
        if same_text(DATABASES[i], database) {
            return Ok(());
        }
    }
    Err(ApiError::not_found(joined("Unknown database: ", database).as_str()))
}

/// Whether `c` may stand in an identifier: an ASCII letter, an ASCII digit or an underscore.
pub open spec fn is_word_char(c: char) -> bool {
    'a' <= c <= 'z' || 'A' <= c <= 'Z' || '0' <= c <= '9' || c == '_'
}

/// Whether `value` may stand as an identifier: at least one character, and only word characters.
pub open spec fn valid_identifier(value: Seq<char>) -> bool {
    value.len() > 0 && forall|i: int| 0 <= i < value.len() ==> is_word_char(#[trigger] value[i])
}

/// Whether `value` may stand as an identifier.
pub fn is_valid_identifier(value: &str) -> (valid: bool)
    ensures
        valid == valid_identifier(value@),
{
    let chars = chars_of(value);
    for i in 0..chars.len()
        invariant
            chars@ == value@,
            forall|k: int| 0 <= k < i ==> is_word_char(#[trigger] value@[k]),
    {
        let c = chars[i];
        if !(('a' <= c && c <= 'z') || ('A' <= c && c <= 'Z') || ('0' <= c && c <= '9') || c
            == '_') {
            assert(!is_word_char(value@[i as int]));
            return false;
        }
    }
    chars.len() > 0
}

/// What is answered where a name of the given kind may not stand as an identifier.
pub open spec fn invalid_name(kind: Seq<char>) -> ApiErrorView {
    ApiErrorView { status: Status::BadRequest, detail: "Invalid "@ + kind + " name"@ }
}

/// Accepts the names that may stand as an identifier and no other.
pub fn ensure_identifier(kind: &str, value: &str) -> (checked: Result<(), ApiError>)
    ensures
        match checked {
            Ok(()) => valid_identifier(value@),
            Err(error) => !valid_identifier(value@) && error@ == invalid_name(kind@),
        },
{
    if is_valid_identifier(value) {
        Ok(())
    } else {
        Err(ApiError::bad_request(joined(joined("Invalid ", kind).as_str(), " name").as_str()))
    }
}

/// `name` between double quotes.
pub open spec fn quoted(name: Seq<char>) -> Seq<char> {
    seq!['"'] + name + seq!['"']
}

/// `value` between double quotes.
pub fn quote_ident(value: &str) -> (name: String)
    ensures
        name@ == quoted(value@),
{
    let mut name = String::new();
    name.push('"');
    name.append(value);
    name.push('"');
    assert(name@ =~= quoted(value@));
    name
}

} // verus!
