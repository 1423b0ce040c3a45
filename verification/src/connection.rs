//! Reaching a database, and what is answered where that fails.

use vstd::prelude::*;

use crate::config::{AppState, Config};
#[allow(unused_imports)]
use crate::config::{opt_text, text_or};
use crate::error::{ApiError, ApiErrorView};
#[allow(unused_imports)]
use crate::error::Status;
use crate::text::{lower_text, same_text};
#[allow(unused_imports)]
use crate::text::lower;

verus! {

/// The seconds that connecting to a database may take.
pub const CONNECT_TIMEOUT_SECS: u64 = 5;

/// The seconds that a statement may take, all attempts and the waits between them included.
pub const QUERY_TIMEOUT_SECS: u64 = 30;

/// How a database is to be reached.
#[derive(Debug)]
pub struct ConnectionPlan {
    pub host: String,
    pub port: u16,
    pub user: String,
    pub password: String,
    pub dbname: String,
    pub tls: bool,
}

/// What is answered where no password is set.
pub open spec fn no_password() -> ApiErrorView {
    ApiErrorView {
        status: Status::ServiceUnavailable,
        detail: "COCKROACH_PASSWORD is required for live database access"@,
    }
}

/// Whether `plan` is how `database` is reached by `config`: with the password, and without TLS
/// only where that is set to `disable`, in whatever case.
pub open spec fn reaches(plan: ConnectionPlan, config: Config, database: Seq<char>) -> bool {
    &&& opt_text(config.cockroach_password) == Some(plan.password@)
    &&& plan.host@ == config.cockroach_host@
    &&& plan.port == config.cockroach_port
    &&& plan.user@ == config.cockroach_user@
    &&& plan.dbname@ == database
    &&& plan.tls == (lower(config.cockroach_ssl@) != "disable"@)
}

/// How `database` is to be reached: only with a password, and without TLS only where that is set
/// to `disable`, in whatever case.
pub fn connect_database(state: &AppState, database: &str) -> (plan: Result<
    ConnectionPlan,
    ApiError,
>)
    ensures
        match plan {
            Ok(p) => reaches(p, state.settings(), database@),
            Err(error) => state.settings().cockroach_password is None && error@ == no_password(),
        },
{
    let config = state.config();
    match &config.cockroach_password {
        None => Err(
            ApiError::service_unavailable("COCKROACH_PASSWORD is required for live database access"),
        ),
        Some(password) => Ok(
            ConnectionPlan {
                host: config.cockroach_host.clone(),
                port: config.cockroach_port,
                user: config.cockroach_user.clone(),
                password: password.clone(),
                dbname: database.to_string(),
                tls: !same_text(lower_text(config.cockroach_ssl.as_str()).as_str(), "disable"),
            },
        ),
    }
}

/// How a guarded call failed.
#[derive(Debug)]
pub enum ResilienceError<E> {
    /// The last of the attempts failed as the ones before.
    Exhausted { attempts: u32, source: E },
    /// The failure is not one to try again after.
    Terminal(E),
    /// The call took longer than it may, in nanoseconds.
    Timeout { nanos: u64 },
}

impl<E> ResilienceError<E> {
    /// What the call itself failed with.
    pub open spec fn source(self) -> Option<E> {
        match self {
            ResilienceError::Exhausted { attempts, source } => Some(source),
            ResilienceError::Terminal(source) => Some(source),
            ResilienceError::Timeout { nanos } => None,
        }
    }

    /// What the call itself failed with.
    pub fn into_source(self) -> (source: Option<E>)
        ensures
            source == self.source(),
    {
        match self {
            ResilienceError::Exhausted { attempts, source } => Some(source),
            ResilienceError::Terminal(source) => Some(source),
            ResilienceError::Timeout { nanos } => None,
        }
    }
}

/// How a database refused a statement.
#[derive(Debug)]
pub struct SqlError {
    /// The five characters that classify the refusal, or nothing.
    pub sqlstate: String,
    pub message: String,
}

/// The refusal with the given class, if it has one, and message. The class is kept: it tells
/// whether the statement is to be tried again.
pub fn to_sql_error(code: Option<String>, message: String) -> (error: SqlError)
    ensures
        error.sqlstate@ == text_or(opt_text(code), Seq::empty()),
        error.message == message,
{
    let sqlstate = match code {
        Some(code) => code,
        None => String::new(),
    };
    SqlError { sqlstate, message }
}

/// How std writes a duration of so many nanoseconds for debugging.
pub uninterp spec fn duration_text(nanos: u64) -> Seq<char>;

/// Trusts the debugging text of `std::time::Duration`: it depends on the duration alone. How a
/// duration is written is not stated.
#[verifier::external_body]
fn write_duration(nanos: u64) -> (text: String)
    ensures
        text@ == duration_text(nanos),
{
    format!("{:?}", std::time::Duration::from_nanos(nanos))
}

/// What is answered where connecting took longer than it may, by how that time is written.
pub open spec fn connect_timed_out(duration: Seq<char>) -> ApiErrorView {
    ApiErrorView {
        status: Status::ServiceUnavailable,
        detail: "database connect timed out after "@ + duration,
    }
}

/// What is answered where connecting took longer than it may, by how that time is written.
pub fn connect_timeout(duration: &str) -> (answer: ApiError)
    ensures
        answer@ == connect_timed_out(duration@),
{
    let mut detail = "database connect timed out after ".to_string();
    detail.append(duration);
    ApiError::service_unavailable(detail.as_str())
}

/// What is answered where a statement of the given kind took longer than it may, by how that time
/// is written.
pub open spec fn query_timed_out(kind: Seq<char>, duration: Seq<char>) -> ApiErrorView {
    ApiErrorView {
        status: Status::ServiceUnavailable,
        detail: "database "@ + kind + " timed out after "@ + duration,
    }
}

/// What is answered where a statement of the given kind took longer than it may, by how that time
/// is written.
pub fn query_timeout(kind: &str, duration: &str) -> (answer: ApiError)
    ensures
        answer@ == query_timed_out(kind@, duration@),
{
    let mut detail = "database ".to_string();
    detail.append(kind);
    detail.append(" timed out after ");
    detail.append(duration);
    ApiError::service_unavailable(detail.as_str())
}

/// What is answered where a database cannot be connected to.
pub open spec fn connect_failure(error: ResilienceError<String>) -> ApiErrorView {
    match error.source() {
        Some(source) => ApiErrorView { status: Status::ServiceUnavailable, detail: source@ },
        None => connect_timed_out(duration_text(error->nanos)),
    }
}

/// What is answered where a database cannot be connected to: a timeout, or the failure's message.
pub fn connect_error(error: ResilienceError<String>) -> (answer: ApiError)
    ensures
        answer@ == connect_failure(error),
{
    match error {
        ResilienceError::Timeout { nanos } => connect_timeout(write_duration(nanos).as_str()),
        other => match other.into_source() {
            Some(source) => ApiError::service_unavailable(source.as_str()),
            None => ApiError::service_unavailable("database connect failed"),
        },
    }
}

/// What is answered where a statement fails: a timeout of all attempts together is a matter of the
/// service, anything else an error of the server, with the message of the database if there is
/// one.
pub open spec fn query_failure(
    kind: Seq<char>,
    error: ResilienceError<ResilienceError<SqlError>>,
) -> ApiErrorView {
    match error.source() {
        None => query_timed_out(kind, duration_text(error->nanos)),
        Some(inner) => ApiErrorView {
            status: Status::InternalServerError,
            detail: match inner.source() {
                Some(refusal) => refusal.message@,
                None => "database "@ + kind + " failed"@,
            },
        },
    }
}

/// What is answered where a statement of the given kind fails.
pub fn query_error(kind: &str, error: ResilienceError<ResilienceError<SqlError>>) -> (answer:
    ApiError)
    ensures
        answer@ == query_failure(kind@, error),
{
    match error {
        ResilienceError::Timeout { nanos } => query_timeout(kind, write_duration(nanos).as_str()),
        other => {
            let refusal = match other.into_source() {
                Some(inner) => inner.into_source(),
                None => None,
            };
            match refusal {
                Some(refusal) => ApiError::internal(refusal.message.as_str()),
                None => {
                    let mut detail = "database ".to_string();
                    detail.append(kind);
                    detail.append(" failed");
                    ApiError::internal(detail.as_str())
                },
            }
        },
    }
}

} // verus!
