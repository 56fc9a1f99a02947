//! Process-wide configuration snapshot. Reading it from files or the
//! environment is the caller's business; this module holds the plain data
//! and the defaults the token subsystem falls back to.

use vstd::prelude::*;

verus! {

/// Where telemetry spans would be shipped.
pub struct OtlpTarget {
    pub address: String,
    pub authorization: Option<String>,
}

/// Relational backend connection settings.
pub struct Database {
    pub url: Option<String>,
}

/// Log verbosity and telemetry settings.
pub struct Logging {
    pub log_level: Option<String>,
    pub otlp_target: Option<OtlpTarget>,
}

/// Where this configuration snapshot was read from.
pub struct ConfigInfo {
    pub location: Option<String>,
    pub env_prefix: Option<String>,
}

/// One immutable configuration snapshot; readers take it whole, once per
/// logical operation, so a concurrent reload never shows them a mix.
pub struct Settings {
    pub config_info: ConfigInfo,
    pub database: Database,
    pub logging: Logging,
    pub token_secret: Option<String>,
    pub token_timeout_seconds: Option<i64>,
}

impl Settings {
    /// The signing secret in force: the configured one, or the fallback.
    pub open spec fn spec_token_secret(&self) -> Seq<char> {
        match self.token_secret {
            Some(s) => s@,
            None => "secret"@,
        }
    }

    /// The token lifetime in force, in seconds: the configured one, or an
    /// hour.
    pub open spec fn spec_token_timeout(&self) -> i64 {
        match self.token_timeout_seconds {
            Some(t) => t,
            None => 3600,
        }
    }

    pub fn token_secret_or_default(&self) -> (r: String)
        ensures
            r@ == self.spec_token_secret(),
    {
        match &self.token_secret {
            Some(s) => s.clone(),
            None => "secret".to_owned(),
        }
    }

    pub fn token_timeout_or_default(&self) -> (r: i64)
        ensures
            r == self.spec_token_timeout(),
    {
        match self.token_timeout_seconds {
            Some(t) => t,
            None => 3600,
        }
    }
}

impl Default for Settings {
    /// A snapshot with nothing configured: every lookup falls back.
    fn default() -> (s: Settings)
        ensures
            s.token_secret is None,
            s.token_timeout_seconds is None,
            s.database.url is None,
            s.config_info.location is None,
    {
        Settings {
            config_info: ConfigInfo { location: None, env_prefix: None },
            database: Database { url: None },
            logging: Logging { log_level: None, otlp_target: None },
            token_secret: None,
            token_timeout_seconds: None,
        }
    }
}

} // verus!
