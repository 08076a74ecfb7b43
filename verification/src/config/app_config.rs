//! The application's settings: which environment it runs in, what it connects to,
//! and the rules that settings must meet.
use crate::text::decimal;
use crate::text::decimal_string;
use crate::text::join;
use crate::text::ascii_lower;
use crate::text::is_ascii_text;
use crate::text::lowercase_of;
use crate::text::str_equals;
use crate::text::to_lowercase;
use vstd::prelude::*;

verus! {

#[derive(Debug, Clone, Copy, PartialEq, Eq, Structural)]
pub enum AppEnvironment {
    Development,
    Sandbox,
    Prod,
}

/// The name of an environment, as its settings file is named.
pub open spec fn environment_name(e: AppEnvironment) -> Seq<char> {
    match e {
        AppEnvironment::Development => "development"@,
        AppEnvironment::Sandbox => "sandbox"@,
        AppEnvironment::Prod => "prod"@,
    }
}

/// The environment that a lower-case name denotes, if any.
pub open spec fn environment_from_lowercase(s: Seq<char>) -> Option<AppEnvironment> {
    if s == "development"@ || s == "dev"@ {
        Some(AppEnvironment::Development)
    } else if s == "sandbox"@ {
        Some(AppEnvironment::Sandbox)
    } else if s == "prod"@ || s == "production"@ {
        Some(AppEnvironment::Prod)
    } else {
        None
    }
}

/// Why settings were refused.
#[derive(Debug)]
pub enum AppConfigError {
    /// The environment name (in lower case) that denotes no environment.
    UnknownEnvironment(String),
    MaxPoolSizeZero,
    MinPoolSizeExceedsMax,
    EmptyBootstrapServers,
}

/// The text of a settings error.
pub open spec fn config_error_message(e: AppConfigError) -> Seq<char> {
    match e {
        AppConfigError::UnknownEnvironment(v) => "Unknown APP_ENV value: '"@ + v@
            + "'. Expected: development, sandbox, prod"@,
        AppConfigError::MaxPoolSizeZero => "postgres.max_pool_size must be > 0"@,
        AppConfigError::MinPoolSizeExceedsMax => "postgres.min_pool_size cannot exceed max_pool_size"@,
        AppConfigError::EmptyBootstrapServers => "kafka.bootstrap_servers cannot be empty"@,
    }
}

impl AppConfigError {
    /// The text of the error.
    pub fn message(&self) -> (s: String)
        ensures
            s@ == config_error_message(*self),
    {
        match self {
            AppConfigError::UnknownEnvironment(v) => {
                let head = join("Unknown APP_ENV value: '", v.as_str());
                join(head.as_str(), "'. Expected: development, sandbox, prod")
            },
            AppConfigError::MaxPoolSizeZero => String::from_str(
                "postgres.max_pool_size must be > 0",
            ),
            AppConfigError::MinPoolSizeExceedsMax => String::from_str(
                "postgres.min_pool_size cannot exceed max_pool_size",
            ),
            AppConfigError::EmptyBootstrapServers => String::from_str(
                "kafka.bootstrap_servers cannot be empty",
            ),
        }
    }
}

impl AppEnvironment {
    /// The environment's name.
    pub fn as_str(&self) -> (s: &'static str)
        ensures
            s@ == environment_name(*self),
    {
        match self {
            AppEnvironment::Development => "development",
            AppEnvironment::Sandbox => "sandbox",
            AppEnvironment::Prod => "prod",
        }
    }

    pub fn is_prod(&self) -> (b: bool)
        ensures
            b == (*self == AppEnvironment::Prod),
    {
        *self == AppEnvironment::Prod
    }

    /// The environment that an already lower-cased name denotes; any other name is
    /// refused, the error holding the name.
    pub fn from_lowercase(s: String) -> (r: Result<AppEnvironment, AppConfigError>)
        ensures
            match environment_from_lowercase(s@) {
                Some(e) => r == Ok::<AppEnvironment, AppConfigError>(e),
                None => match r {
                    Err(AppConfigError::UnknownEnvironment(v)) => v@ == s@,
                    _ => false,
                },
            },
    {
        if str_equals(s.as_str(), "development") || str_equals(s.as_str(), "dev") {
            Ok(AppEnvironment::Development)
        } else if str_equals(s.as_str(), "sandbox") {
            Ok(AppEnvironment::Sandbox)
        } else if str_equals(s.as_str(), "prod") || str_equals(s.as_str(), "production") {
            Ok(AppEnvironment::Prod)
        } else {
            Err(AppConfigError::UnknownEnvironment(s))
        }
    }

    /// The environment that a name denotes, in any letter case; any other name is
    /// refused, the error holding the lower-cased name.
    pub fn try_from(s: String) -> (r: Result<AppEnvironment, AppConfigError>)
        ensures
            match environment_from_lowercase(lowercase_of(s@)) {
                Some(e) => r == Ok::<AppEnvironment, AppConfigError>(e),
                None => match r {
                    Err(AppConfigError::UnknownEnvironment(v)) => v@ == lowercase_of(s@),
                    _ => false,
                },
            },
            is_ascii_text(s@) ==> match environment_from_lowercase(
                s@.map_values(|c: char| ascii_lower(c)),
            ) {
                Some(e) => r == Ok::<AppEnvironment, AppConfigError>(e),
                None => r is Err,
            },
    {
        let lower = to_lowercase(s.as_str());
        Self::from_lowercase(lower)
    }
}

#[derive(Debug)]
pub struct ServerConfig {
    pub host: String,
    pub port: u16,
}

#[derive(Debug)]
pub struct PostgresConfig {
    pub host: String,
    pub port: u16,
    pub db_name: String,
    pub username: String,
    pub password: String,
    pub max_size: usize,
    pub max_pool_size: usize,
    pub min_pool_size: usize,
    pub connect_timeout_secs: u64,
}

#[derive(Debug)]
pub struct KafkaConfig {
    pub bootstrap_servers: String,
    pub schema_registry_url: String,
    pub retries: u32,
}

#[derive(Debug)]
pub struct AppConfig {
    pub server: ServerConfig,
    pub postgres: PostgresConfig,
    pub kafka: KafkaConfig,
}

/// The first rule that the settings break, if any: the pool must allow at least one
/// connection, its minimum may not exceed its maximum, and there must be brokers.
pub open spec fn first_broken_rule(c: AppConfig) -> Option<AppConfigError> {
    if c.postgres.max_pool_size == 0 {
        Some(AppConfigError::MaxPoolSizeZero)
    } else if c.postgres.min_pool_size > c.postgres.max_pool_size {
        Some(AppConfigError::MinPoolSizeExceedsMax)
    } else if c.kafka.bootstrap_servers@.len() == 0 {
        Some(AppConfigError::EmptyBootstrapServers)
    } else {
        None
    }
}

/// The connection string of the database settings, in `key=value` form.
pub open spec fn connection_string(p: PostgresConfig) -> Seq<char> {
    "host="@ + p.host@ + " port="@ + decimal(p.port as nat) + " dbname="@ + p.db_name@
        + " user="@ + p.username@ + " password="@ + p.password@ + " connect_timeout="@
        + decimal(p.connect_timeout_secs as nat)
}

impl AppConfig {
    /// Whether the settings keep the rules; the first broken rule is the error.
    pub fn validate(&self) -> (r: Result<(), AppConfigError>)
        ensures
            match first_broken_rule(*self) {
                None => r is Ok,
                Some(e) => r is Err && r->Err_0 == e,
            },
    {
        if self.postgres.max_pool_size == 0 {
            return Err(AppConfigError::MaxPoolSizeZero);
        }
        if self.postgres.min_pool_size > self.postgres.max_pool_size {
            return Err(AppConfigError::MinPoolSizeExceedsMax);
        }
        if self.kafka.bootstrap_servers.as_str().is_empty() {
            return Err(AppConfigError::EmptyBootstrapServers);
        }
        Ok(())
    }

    /// The string to connect to the database with.
    pub fn postgres_connection_string(&self) -> (s: String)
        ensures
            s@ == connection_string(self.postgres),
    {
        let p = &self.postgres;
        let s = join("host=", p.host.as_str());
        let s = join(s.as_str(), " port=");
        let port = decimal_string(p.port as u64);
        let s = join(s.as_str(), port.as_str());
        let s = join(s.as_str(), " dbname=");
        let s = join(s.as_str(), p.db_name.as_str());
        let s = join(s.as_str(), " user=");
        let s = join(s.as_str(), p.username.as_str());
        let s = join(s.as_str(), " password=");
        let s = join(s.as_str(), p.password.as_str());
        let s = join(s.as_str(), " connect_timeout=");
        let timeout = decimal_string(p.connect_timeout_secs);
        join(s.as_str(), timeout.as_str())
    }
}

/// Each environment's name denotes it again, and only it.
pub proof fn lemma_environment_name_round_trip(e: AppEnvironment)
    ensures
        environment_from_lowercase(environment_name(e)) == Some(e),
{
    reveal_strlit("development");
    reveal_strlit("dev");
    reveal_strlit("sandbox");
    reveal_strlit("prod");
    reveal_strlit("production");
    assert("development"@.len() == 11);
    assert("dev"@.len() == 3);
    assert("sandbox"@.len() == 7);
    assert("prod"@.len() == 4);
    assert("production"@.len() == 10);
}

} // verus!
