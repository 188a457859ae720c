//! Server settings, read from the environment with a default for each.
use vstd::prelude::*;

use crate::text::{parse_u64, parse_unsigned};

verus! {

/// Server settings.
#[derive(Debug, Clone)]
pub struct AppConfig {
    pub port: u16,
    pub db_path: String,
    pub concurrency: usize,
    pub timeout_secs: u64,
    pub max_nodes: usize,
    pub web_dist: String,
    /// Session lifetime in days; 0 keeps sessions forever.
    pub session_ttl_days: u64,
}

/// The raw values of the settings' environment variables (`None` where a
/// variable is unset or not Unicode).
#[derive(Debug, Clone)]
pub struct EnvValues {
    pub port: Option<String>,
    pub database_path: Option<String>,
    pub concurrency: Option<String>,
    pub timeout_secs: Option<String>,
    pub max_nodes: Option<String>,
    pub web_dist: Option<String>,
    pub session_ttl_days: Option<String>,
}

/// A number setting: the variable's value where it parses as a number that
/// fits under `max`, else the default.
pub open spec fn number_setting(v: Option<String>, max: nat, default: nat) -> nat {
    match v {
        Some(s) => match parse_unsigned(s@, max) {
            Some(n) => n,
            None => default,
        },
        None => default,
    }
}

/// A text setting: the variable's value where set, else the default.
pub open spec fn text_setting(v: Option<String>, default: Seq<char>) -> Seq<char> {
    match v {
        Some(s) => s@,
        None => default,
    }
}

/// `s.parse::<u16>()`, as an `Option`.
pub fn parse_u16(s: &str) -> (r: Option<u16>)
    ensures
        match r {
            Some(v) => parse_unsigned(s@, u16::MAX as nat) == Some(v as nat),
            None => parse_unsigned(s@, u16::MAX as nat) is None,
        },
{
    match parse_u64(s) {
        Some(v) => if v <= u16::MAX as u64 {
            Some(v as u16)
        } else {
            None
        },
        None => None,
    }
}

/// `s.parse::<usize>()`, as an `Option`.
pub fn parse_usize(s: &str) -> (r: Option<usize>)
    ensures
        match r {
            Some(v) => parse_unsigned(s@, usize::MAX as nat) == Some(v as nat),
            None => parse_unsigned(s@, usize::MAX as nat) is None,
        },
{
    match parse_u64(s) {
        Some(v) => if v <= usize::MAX as u64 {
            Some(v as usize)
        } else {
            None
        },
        None => None,
    }
}

fn number_or_u64(v: &Option<String>, default: u64) -> (r: u64)
    ensures
        r == number_setting(*v, u64::MAX as nat, default as nat),
{
    match v {
        Some(s) => match parse_u64(s.as_str()) {
            Some(n) => n,
            None => default,
        },
        None => default,
    }
}

fn number_or_usize(v: &Option<String>, default: usize) -> (r: usize)
    ensures
        r == number_setting(*v, usize::MAX as nat, default as nat),
{
    match v {
        Some(s) => match parse_usize(s.as_str()) {
            Some(n) => n,
            None => default,
        },
        None => default,
    }
}

impl AppConfig {
    /// The settings from the environment's values: `PORT` (8080),
    /// `DATABASE_PATH` (`./submerge.db`), `CONCURRENCY` (8), `TIMEOUT_SECS`
    /// (15), `MAX_NODES` (2000), `WEB_DIST` (`./web/dist`),
    /// `SESSION_TTL_DAYS` (30).
    pub fn from_values(env: EnvValues) -> (r: AppConfig)
        ensures
            r.port == number_setting(env.port, u16::MAX as nat, 8080),
            r.db_path@ == text_setting(env.database_path, "./submerge.db"@),
            r.concurrency == number_setting(env.concurrency, usize::MAX as nat, 8),
            r.timeout_secs == number_setting(env.timeout_secs, u64::MAX as nat, 15),
            r.max_nodes == number_setting(env.max_nodes, usize::MAX as nat, 2000),
            r.web_dist@ == text_setting(env.web_dist, "./web/dist"@),
            r.session_ttl_days == number_setting(env.session_ttl_days, u64::MAX as nat, 30),
    {
        let port = match &env.port {
            Some(s) => match parse_u16(s.as_str()) {
                Some(n) => n,
                None => 8080,
            },
            None => 8080,
        };
        let concurrency = number_or_usize(&env.concurrency, 8);
        let timeout_secs = number_or_u64(&env.timeout_secs, 15);
        let max_nodes = number_or_usize(&env.max_nodes, 2000);
        let session_ttl_days = number_or_u64(&env.session_ttl_days, 30);
        let db_path = match env.database_path {
            Some(p) => p,
            None => String::from_str("./submerge.db"),
        };
        let web_dist = match env.web_dist {
            Some(p) => p,
            None => String::from_str("./web/dist"),
        };
        AppConfig {
            port,
            db_path,
            concurrency,
            timeout_secs,
            max_nodes,
            web_dist,
            session_ttl_days,
        }
    }
}

} // verus!
