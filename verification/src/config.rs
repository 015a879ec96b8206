use vstd::prelude::*;
use crate::digits::{parse_u16, spec_parse_u16};

verus! {

/// The immutable service configuration, assembled once at startup from the
/// process environment and read-only afterwards.
#[derive(Clone, Debug)]
pub struct Config {
    pub psql_host: String,
    pub psql_port: u16,
    pub psql_db: String,
    pub psql_user: String,
    pub psql_password: String,
    pub psql_view_name: String,
    pub api_port: u16,
}

/// Why configuration assembly failed. Each variant corresponds to exactly one
/// missing or malformed required value.
#[derive(Clone, Copy, Debug, PartialEq, Eq, Structural)]
pub enum ConfigError {
    MissingPsqlPort,
    MissingApiPort,
    MissingPsqlHost,
    InvalidPsqlPort,
    MissingPsqlDb,
    MissingPsqlUser,
    MissingPsqlPassword,
    MissingPsqlViewName,
    InvalidApiPort,
}

impl ConfigError {
    /// The descriptive message reported for this failure.
    pub open spec fn spec_describe(self) -> Seq<char> {
        match self {
            ConfigError::MissingPsqlPort => "Failed to find psql_port environment variable"@,
            ConfigError::MissingApiPort => "Failed to find prediction_api_port environment variable"@,
            ConfigError::MissingPsqlHost => "Failed to find psql_host environment variable"@,
            ConfigError::InvalidPsqlPort => "PSQL_PORT must be a valid u16 integer"@,
            ConfigError::MissingPsqlDb => "Failed to find psql_db environment variable"@,
            ConfigError::MissingPsqlUser => "Failed to find psql_user environment variable"@,
            ConfigError::MissingPsqlPassword => "Failed to find psql_password environment variable"@,
            ConfigError::MissingPsqlViewName => "Failed to find psql_view_name environment variable"@,
            ConfigError::InvalidApiPort => "api_port must be a valid u16 integer"@,
        }
    }

    pub fn describe(&self) -> (r: &'static str)
        ensures
            r@ == self.spec_describe(),
    {
        match self {
            ConfigError::MissingPsqlPort => "Failed to find psql_port environment variable",
            ConfigError::MissingApiPort => "Failed to find prediction_api_port environment variable",
            ConfigError::MissingPsqlHost => "Failed to find psql_host environment variable",
            ConfigError::InvalidPsqlPort => "PSQL_PORT must be a valid u16 integer",
            ConfigError::MissingPsqlDb => "Failed to find psql_db environment variable",
            ConfigError::MissingPsqlUser => "Failed to find psql_user environment variable",
            ConfigError::MissingPsqlPassword => "Failed to find psql_password environment variable",
            ConfigError::MissingPsqlViewName => "Failed to find psql_view_name environment variable",
            ConfigError::InvalidApiPort => "api_port must be a valid u16 integer",
        }
    }
}

/// What `Config::from_values` returns: the first missing or malformed value,
/// in the order the fields are examined, or the assembled configuration.
pub open spec fn spec_from_values(
    psql_host: Option<String>,
    psql_port: Option<String>,
    psql_db: Option<String>,
    psql_user: Option<String>,
    psql_password: Option<String>,
    psql_view_name: Option<String>,
    api_port: Option<String>,
) -> Result<Config, ConfigError> {
    if psql_port is None {
        Err(ConfigError::MissingPsqlPort)
    } else if api_port is None {
        Err(ConfigError::MissingApiPort)
    } else if psql_host is None {
        Err(ConfigError::MissingPsqlHost)
    } else if spec_parse_u16(psql_port->0@) is None {
        Err(ConfigError::InvalidPsqlPort)
    } else if psql_db is None {
        Err(ConfigError::MissingPsqlDb)
    } else if psql_user is None {
        Err(ConfigError::MissingPsqlUser)
    } else if psql_password is None {
        Err(ConfigError::MissingPsqlPassword)
    } else if psql_view_name is None {
        Err(ConfigError::MissingPsqlViewName)
    } else if spec_parse_u16(api_port->0@) is None {
        Err(ConfigError::InvalidApiPort)
    } else {
        Ok(
            Config {
                psql_host: psql_host->0,
                psql_port: spec_parse_u16(psql_port->0@)->0,
                psql_db: psql_db->0,
                psql_user: psql_user->0,
                psql_password: psql_password->0,
                psql_view_name: psql_view_name->0,
                api_port: spec_parse_u16(api_port->0@)->0,
            },
        )
    }
}

impl Config {
    /// Assembles the configuration from the raw environment values, `None`
    /// standing for an absent variable. Fails on the first missing value or
    /// unparsable port, so startup can abort with a descriptive message
    /// before any socket is bound.
    pub fn from_values(
        psql_host: Option<String>,
        psql_port: Option<String>,
        psql_db: Option<String>,
        psql_user: Option<String>,
        psql_password: Option<String>,
        psql_view_name: Option<String>,
        api_port: Option<String>,
    ) -> (r: Result<Config, ConfigError>)
        ensures
            r == spec_from_values(
                psql_host,
                psql_port,
                psql_db,
                psql_user,
                psql_password,
                psql_view_name,
                api_port,
            ),
    {
        let psql_port_str = match psql_port {
            Some(s) => s,
            None => {
                return Err(ConfigError::MissingPsqlPort);
            },
        };
        let api_port_str = match api_port {
            Some(s) => s,
            None => {
                return Err(ConfigError::MissingApiPort);
            },
        };
        let host = match psql_host {
            Some(s) => s,
            None => {
                return Err(ConfigError::MissingPsqlHost);
            },
        };
        let psql_port_num = match parse_u16(psql_port_str.as_str()) {
            Some(p) => p,
            None => {
                return Err(ConfigError::InvalidPsqlPort);
            },
        };
        let db = match psql_db {
            Some(s) => s,
            None => {
                return Err(ConfigError::MissingPsqlDb);
            },
        };
        let user = match psql_user {
            Some(s) => s,
            None => {
                return Err(ConfigError::MissingPsqlUser);
            },
        };
        let password = match psql_password {
            Some(s) => s,
            None => {
                return Err(ConfigError::MissingPsqlPassword);
            },
        };
        let view_name = match psql_view_name {
            Some(s) => s,
            None => {
                return Err(ConfigError::MissingPsqlViewName);
            },
        };
        let api_port_num = match parse_u16(api_port_str.as_str()) {
            Some(p) => p,
            None => {
                return Err(ConfigError::InvalidApiPort);
            },
        };
        Ok(
            Config {
                psql_host: host,
                psql_port: psql_port_num,
                psql_db: db,
                psql_user: user,
                psql_password: password,
                psql_view_name: view_name,
                api_port: api_port_num,
            },
        )
    }
}

/// Configuration assembly succeeds exactly when every required value is
/// present and both ports parse as `u16`: a missing or malformed field
/// always produces an error, never a partially filled configuration.
pub proof fn lemma_missing_field_rejected(
    psql_host: Option<String>,
    psql_port: Option<String>,
    psql_db: Option<String>,
    psql_user: Option<String>,
    psql_password: Option<String>,
    psql_view_name: Option<String>,
    api_port: Option<String>,
)
    ensures
        (spec_from_values(
            psql_host,
            psql_port,
            psql_db,
            psql_user,
            psql_password,
            psql_view_name,
            api_port,
        ) is Ok) <==> (psql_host is Some && psql_port is Some && psql_db is Some
            && psql_user is Some && psql_password is Some && psql_view_name is Some
            && api_port is Some && spec_parse_u16(psql_port->0@) is Some && spec_parse_u16(
            api_port->0@,
        ) is Some),
{
}

} // verus!
