//! Process configuration: plain values constructed once at startup and passed
//! by reference into the token service and the identity extractor.

use vstd::prelude::*;

use crate::text::str_eq;

verus! {

/// Connection settings for the record store.
#[derive(Debug, Clone)]
pub struct DatabaseConfig {
    pub url: String,
}

/// Settings for the token service: the signing secret and the validity window.
#[derive(Debug, Clone)]
pub struct JwtConfig {
    pub secret: String,
    pub exp_in_sec: i64,
}

/// The full application configuration.
#[derive(Debug, Clone)]
pub struct AppConfig {
    pub port: u16,
    pub log_level: String,
    pub db: DatabaseConfig,
    pub jwt: JwtConfig,
}

/// The configuration as handed to every service.
#[derive(Debug, Clone)]
pub struct AppContext {
    pub config: AppConfig,
}

impl AppConfig {
    /// Builds the configuration from plain values the caller read from its
    /// environment, converting the token validity window into seconds.
    pub fn init(
        port: u16,
        log_level: String,
        db_url: String,
        jwt_secret: String,
        exp_value: i64,
        exp_unit: String,
    ) -> (c: AppConfig)
        requires
            spec_unit_factor(exp_unit@) != 0,
            i64::MIN <= exp_value * spec_unit_factor(exp_unit@) <= i64::MAX,
        ensures
            c.port == port,
            c.log_level == log_level,
            c.db.url == db_url,
            c.jwt.secret == jwt_secret,
            c.jwt.exp_in_sec == exp_value * spec_unit_factor(exp_unit@),
    {
        let exp_in_sec = value_to_seconds(exp_value, exp_unit);
        AppConfig {
            port,
            log_level,
            db: DatabaseConfig { url: db_url },
            jwt: JwtConfig { secret: jwt_secret, exp_in_sec },
        }
    }
}

/// The number of seconds one unit stands for, or 0 for an unknown unit.
pub open spec fn spec_unit_factor(unit: Seq<char>) -> int {
    if unit == "seconds"@ {
        1
    } else if unit == "minutes"@ {
        60
    } else if unit == "hours"@ {
        3600
    } else if unit == "days"@ {
        86400
    } else if unit == "weeks"@ {
        604800
    } else if unit == "months"@ {
        2592000
    } else if unit == "years"@ {
        31536000
    } else {
        0
    }
}

/// Converts a duration given as a value and a unit name into seconds.
pub fn value_to_seconds(value: i64, unit: String) -> (r: i64)
    requires
        spec_unit_factor(unit@) != 0,
        i64::MIN <= value * spec_unit_factor(unit@) <= i64::MAX,
    ensures
        r == value * spec_unit_factor(unit@),
{
    if str_eq(unit.as_str(), "seconds") {
        value
    } else if str_eq(unit.as_str(), "minutes") {
        value * 60
    } else if str_eq(unit.as_str(), "hours") {
        value * 3600
    } else if str_eq(unit.as_str(), "days") {
        value * 86400
    } else if str_eq(unit.as_str(), "weeks") {
        value * 604800
    } else if str_eq(unit.as_str(), "months") {
        value * 2592000
    } else if str_eq(unit.as_str(), "years") {
        value * 31536000
    } else {
        proof {
            assert(spec_unit_factor(unit@) == 0);
        }
        0
    }
}

} // verus!
