//! How the gateway is set up.

use std::sync::Arc;

use vstd::prelude::*;

use crate::text::parse_u16;
#[allow(unused_imports)]
use crate::text::{read_u16, trim_end, trim_start};

verus! {

/// The environment variables that set the gateway up, each where it is set and is text.
#[derive(Debug)]
pub struct Environment {
    /// `PORT`
    pub port: Option<String>,
    /// `API_KEY`
    pub api_key: Option<String>,
    /// `COCKROACH_HOST`
    pub cockroach_host: Option<String>,
    /// `COCKROACH_PORT`
    pub cockroach_port: Option<String>,
    /// `COCKROACH_USER`
    pub cockroach_user: Option<String>,
    /// `COCKROACH_PASSWORD`
    pub cockroach_password: Option<String>,
    /// `COCKROACH_SSL`
    pub cockroach_ssl: Option<String>,
}

/// The set-up of the gateway.
#[derive(Debug, Clone)]
pub struct Config {
    pub port: u16,
    pub api_key: Option<String>,
    pub cockroach_host: String,
    pub cockroach_port: u16,
    pub cockroach_user: String,
    pub cockroach_password: Option<String>,
    pub cockroach_ssl: String,
}

/// The host where none is set.
pub const DEFAULT_HOST: &'static str = "vortex-giraffe-15678.jxf.gcp-us-east1.cockroachlabs.cloud";

/// The characters of an optional string.
pub open spec fn opt_text(value: Option<String>) -> Option<Seq<char>> {
    match value {
        Some(s) => Some(s@),
        None => None,
    }
}

/// The port that `value` writes, or `default` where it writes none.
pub open spec fn port_or(value: Option<Seq<char>>, default: u16) -> u16 {
    match value {
        Some(s) => match read_u16(s) {
            Some(port) => port,
            None => default,
        },
        None => default,
    }
}

/// The text, or `default` where there is none.
pub open spec fn text_or(value: Option<Seq<char>>, default: Seq<char>) -> Seq<char> {
    match value {
        Some(s) => s,
        None => default,
    }
}

/// The text without white space at its ends, if anything is left of it.
pub open spec fn non_blank(value: Option<Seq<char>>) -> Option<Seq<char>> {
    match value {
        Some(s) => if trim_end(trim_start(s)).len() == 0 {
            None
        } else {
            Some(trim_end(trim_start(s)))
        },
        None => None,
    }
}

fn port_from(value: &Option<String>, default: u16) -> (port: u16)
    ensures
        port == port_or(opt_text(*value), default),
{
    match value {
        Some(s) => match parse_u16(s.as_str()) {
            Some(port) => port,
            None => default,
        },
        None => default,
    }
}

fn text_from(value: Option<String>, default: &str) -> (text: String)
    ensures
        text@ == text_or(opt_text(value), default@),
{
    match value {
        Some(s) => s,
        None => default.to_string(),
    }
}

/// The value of a variable without white space at its ends; a blank one counts as unset.
pub fn non_empty_env(value: &Option<String>) -> (text: Option<String>)
    ensures
        opt_text(text) == non_blank(opt_text(*value)),
{
    match value {
        Some(s) => {
            let trimmed = s.as_str().trim();
            if trimmed.is_empty() {
                None
            } else {
                Some(trimmed.to_string())
            }
        },
        None => None,
    }
}

impl Config {
    /// Sets the gateway up from the environment. A variable that is not set, and a port that is
    /// no number of 16 bits, leave the default.
    pub fn from_env(env: Environment) -> (config: Config)
        ensures
            config.port == port_or(opt_text(env.port), 8080),
            opt_text(config.api_key) == non_blank(opt_text(env.api_key)),
            config.cockroach_host@ == text_or(opt_text(env.cockroach_host), DEFAULT_HOST@),
            config.cockroach_port == port_or(opt_text(env.cockroach_port), 26257),
            config.cockroach_user@ == text_or(opt_text(env.cockroach_user), "cubiczan"@),
            opt_text(config.cockroach_password) == non_blank(opt_text(env.cockroach_password)),
            config.cockroach_ssl@ == text_or(opt_text(env.cockroach_ssl), "require"@),
    {
        Config {
            port: port_from(&env.port, 8080),
            api_key: non_empty_env(&env.api_key),
            cockroach_host: text_from(env.cockroach_host, DEFAULT_HOST),
            cockroach_port: port_from(&env.cockroach_port, 26257),
            cockroach_user: text_from(env.cockroach_user, "cubiczan"),
            cockroach_password: non_empty_env(&env.cockroach_password),
            cockroach_ssl: text_from(env.cockroach_ssl, "require"),
        }
    }
}

/// What every request is answered by: the set-up, shared.
#[derive(Debug, Clone)]
pub struct AppState {
    config: Arc<Config>,
}

impl AppState {
    /// The set-up behind the state.
    pub closed spec fn settings(&self) -> Config {
        *self.config
    }

    pub fn new(config: Arc<Config>) -> (state: AppState)
        ensures
            state.settings() == *config,
    {
        AppState { config }
    }

    /// The set-up behind the state.
    pub fn config(&self) -> (config: &Config)
        ensures
            *config == self.settings(),
    {
        &*self.config
    }
}

} // verus!
