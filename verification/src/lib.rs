//! The decisions of a REST gateway in front of a set of CockroachDB databases.
//!
//! Every endpoint is a [`flow::Flow`]: a request is started with what it carries, asks for one
//! statement after the other, and goes on with what each of them came to, until it is answered.
//! What a request comes to is stated for every sequence of replies. Nothing in here reaches a
//! network or reads a clock.

pub mod auth;
pub mod battery;
pub mod brief;
pub mod calendar;
pub mod cells;
pub mod cockpit;
pub mod config;
pub mod connection;
pub mod counts;
pub mod databases;
pub mod entries;
pub mod error;
pub mod flow;
pub mod health;
pub mod identifiers;
pub mod insert;
pub mod json;
pub mod laws;
pub mod lookup;
pub mod numbers;
pub mod order;
pub mod page;
pub mod plan;
pub mod query;
pub mod radar;
pub mod ranking;
pub mod record;
pub mod samples;
pub mod sectors;
pub mod sql;
pub mod statement;
pub mod tables;
pub mod text;

pub use config::{AppState, Config};
pub use error::ApiError;
pub use identifiers::{is_valid_identifier, DATABASES};
