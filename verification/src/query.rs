//! The statements that the gateway has the databases run.

use vstd::prelude::*;

use crate::error::{ApiError, ApiErrorView};
use crate::json::{rows_view, Row, RowView, Datum, DatumView};
use crate::text::decimal_text;
#[allow(unused_imports)]
use crate::text::decimal;

verus! {

/// A parameter of a statement.
#[derive(Debug)]
pub enum OwnedParam {
    Null,
    Bool(bool),
    I64(i64),
    /// A floating-point number, as its JSON text.
    F64(String),
    Text(String),
    /// An array or an object, as its JSON text.
    Json(String),
}

/// What an [`OwnedParam`] is.
pub enum ParamView {
    Null,
    Bool(bool),
    I64(int),
    F64(Seq<char>),
    Text(Seq<char>),
    Json(Seq<char>),
}

impl View for OwnedParam {
    type V = ParamView;

    open spec fn view(&self) -> ParamView {
        match self {
            OwnedParam::Null => ParamView::Null,
            OwnedParam::Bool(b) => ParamView::Bool(*b),
            OwnedParam::I64(n) => ParamView::I64(*n as int),
            OwnedParam::F64(t) => ParamView::F64(t@),
            OwnedParam::Text(t) => ParamView::Text(t@),
            OwnedParam::Json(t) => ParamView::Json(t@),
        }
    }
}

/// A statement with its parameters, and the database that is to run it.
#[derive(Debug)]
pub struct Query {
    pub database: String,
    pub sql: String,
    pub params: Vec<OwnedParam>,
    /// Whether the statement writes; one that writes returns no rows.
    pub write: bool,
}

/// What a [`Query`] is.
pub struct QueryView {
    pub database: Seq<char>,
    pub sql: Seq<char>,
    pub params: Seq<ParamView>,
    pub write: bool,
}

/// What each of `params` is.
pub open spec fn params_view(params: Seq<OwnedParam>) -> Seq<ParamView> {
    Seq::new(params.len(), |i: int| params[i]@)
}

impl View for Query {
    type V = QueryView;

    open spec fn view(&self) -> QueryView {
        QueryView {
            database: self.database@,
            sql: self.sql@,
            params: params_view(self.params@),
            write: self.write,
        }
    }
}

/// A statement that reads, without parameters.
pub open spec fn plain_query(database: Seq<char>, sql: Seq<char>) -> QueryView {
    QueryView { database, sql, params: Seq::empty(), write: false }
}

/// A statement that reads, with one text for its parameter.
pub open spec fn text_query(database: Seq<char>, sql: Seq<char>, param: Seq<char>) -> QueryView {
    QueryView { database, sql, params: seq![ParamView::Text(param)], write: false }
}

impl Query {
    /// A statement that reads, without parameters.
    pub fn plain(database: &str, sql: &str) -> (query: Query)
        ensures
            query@ == plain_query(database@, sql@),
    {
        let query = Query {
            database: database.to_string(),
            sql: sql.to_string(),
            params: Vec::new(),
            write: false,
        };
        assert(query@.params =~= Seq::empty());
        query
    }

    /// A statement that reads, with one text for its parameter.
    pub fn with_text(database: &str, sql: &str, param: &str) -> (query: Query)
        ensures
            query@ == text_query(database@, sql@, param@),
    {
        let mut query = Query::plain(database, sql);
        query.bind(OwnedParam::Text(param.to_string()));
        assert(query@.params =~= seq![ParamView::Text(param@)]);
        query
    }

    /// Hands one more parameter to the statement.
    pub fn bind(&mut self, param: OwnedParam)
        ensures
            final(self)@ == (QueryView { params: old(self)@.params.push(param@), ..old(self)@ }),
    {
        self.params.push(param);
        assert(self@.params =~= old(self)@.params.push(param@));
    }
}

/// What a statement comes to: the rows, or the error that is to be answered.
pub type Reply = Result<Vec<Row>, ApiError>;

/// What a [`Reply`] is.
pub type ReplyView = Result<Seq<RowView>, ApiErrorView>;

/// What `reply` is.
pub open spec fn reply_view(reply: Reply) -> ReplyView {
    match reply {
        Ok(rows) => Ok(rows_view(rows@)),
        Err(error) => Err(error@),
    }
}

/// The page of a table that a request asks for.
#[derive(Debug)]
pub struct Pagination {
    pub limit: Option<i64>,
    pub offset: Option<i64>,
}

/// The number of rows that a page holds: 50 where nothing is asked for, and from 1 to 1000.
pub open spec fn page_limit(limit: Option<i64>) -> i64 {
    match limit {
        Some(n) => if n < 1 {
            1
        } else if n > 1000 {
            1000
        } else {
            n
        },
        None => 50,
    }
}

/// The number of rows before the page: none where nothing, or less than nothing, is asked for.
pub open spec fn page_offset(offset: Option<i64>) -> i64 {
    match offset {
        Some(n) => if n < 0 {
            0
        } else {
            n
        },
        None => 0,
    }
}

impl Pagination {
    /// The limit and the offset of the page.
    pub fn normalized(&self) -> (page: (i64, i64))
        ensures
            page == (page_limit(self.limit), page_offset(self.offset)),
            1 <= page.0 <= 1000,
            0 <= page.1,
    {
        let limit: i64 = match self.limit {
            Some(n) => if n < 1 {
                1
            } else if n > 1000 {
                1000
            } else {
                n
            },
            None => 50,
        };
        let offset: i64 = match self.offset {
            Some(n) => if n < 0 {
                0
            } else {
                n
            },
            None => 0,
        };
        (limit, offset)
    }
}

/// How a value is handed to a statement. An integer beyond the signed range goes as a
/// floating-point number.
pub open spec fn param_of(value: DatumView) -> ParamView {
    match value {
        DatumView::Null => ParamView::Null,
        DatumView::Bool(b) => ParamView::Bool(b),
        DatumView::Int(n) => ParamView::I64(n),
        DatumView::Uint(n) => if n <= i64::MAX {
            ParamView::I64(n)
        } else {
            ParamView::F64(decimal(n as nat))
        },
        DatumView::Decimal(t) => ParamView::F64(t),
        DatumView::Text(t) => ParamView::Text(t),
        DatumView::Document(t) => ParamView::Json(t),
    }
}

/// Hands a value to a statement.
pub fn value_to_param(value: Datum) -> (param: OwnedParam)
    ensures
        param@ == param_of(value@),
{
    match value {
        Datum::Null => OwnedParam::Null,
        Datum::Bool(b) => OwnedParam::Bool(b),
        Datum::Int(n) => OwnedParam::I64(n),
        Datum::Uint(n) => if n <= 9223372036854775807 {
            OwnedParam::I64(n as i64)
        } else {
            OwnedParam::F64(decimal_text(n))
        },
        Datum::Decimal(t) => OwnedParam::F64(t),
        Datum::Text(t) => OwnedParam::Text(t),
        Datum::Document(t) => OwnedParam::Json(t),
    }
}

} // verus!
