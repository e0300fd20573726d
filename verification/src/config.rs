//! Configuration: defaults, and the values read from the environment.
//!
//! Reading the environment is left to the caller, who hands over what each
//! variable holds, if it is set.

use crate::text::{
    digits_value, lowercase, lowercase_text, parse_u64, parse_usize, reads_as_number, str_eq,
    u64_parse_error_text, unsigned_digits,
};
use vstd::prelude::*;

verus! {

/// Why a configuration was refused.
#[derive(Debug, Clone)]
pub enum ConfigError {
    /// A variable holds a value that is out of range.
    InvalidValue { var: String, message: String },
    /// A variable could not be read as a number; `source` is the parser's message.
    ParseError { var: String, expected_type: String, source: String },
}

/// Settings of the log store and of diagnostics.
#[derive(Debug, Clone)]
pub struct LogConfig {
    pub log_size: usize,
    pub log_colors: bool,
    pub rust_log: String,
}

/// Settings for talking to the child.
#[derive(Debug, Clone)]
pub struct WrappeeConfig {
    pub tool_timeout_secs: u64,
    pub protocol_version: String,
}

/// Which transport faces the client.
#[derive(Debug, Clone)]
pub struct TransportConfig {
    pub transport: String,
}

/// The whole configuration.
#[derive(Debug, Clone)]
pub struct Config {
    pub log: LogConfig,
    pub wrappee: WrappeeConfig,
    pub transport: TransportConfig,
}

/// What the environment holds for each variable that is read, `None` where
/// the variable is not set.
#[derive(Debug, Clone)]
pub struct EnvValues {
    /// `WRAP_MCP_TRANSPORT`
    pub transport: Option<String>,
    /// `WRAP_MCP_LOG_COLORS`
    pub log_colors: Option<String>,
    /// `WRAP_MCP_TOOL_TIMEOUT`
    pub tool_timeout: Option<String>,
    /// `WRAP_MCP_PROTOCOL_VERSION`
    pub protocol_version: Option<String>,
    /// `WRAP_MCP_LOGSIZE`
    pub log_size: Option<String>,
    /// `RUST_LOG`
    pub rust_log: Option<String>,
}

impl Default for LogConfig {
    fn default() -> (r: Self)
        ensures
            r.log_size == 1000,
            !r.log_colors,
            r.rust_log@ == "info"@,
    {
        LogConfig { log_size: 1000, log_colors: false, rust_log: "info".to_owned() }
    }
}

impl Default for WrappeeConfig {
    fn default() -> (r: Self)
        ensures
            r.tool_timeout_secs == 30,
            r.protocol_version@ == "2025.03.26"@,
    {
        WrappeeConfig { tool_timeout_secs: 30, protocol_version: "2025.03.26".to_owned() }
    }
}

impl Default for TransportConfig {
    fn default() -> (r: Self)
        ensures
            r.transport@ == "stdio"@,
    {
        TransportConfig { transport: "stdio".to_owned() }
    }
}

impl Default for Config {
    fn default() -> (r: Self)
        ensures
            r.log.log_size == 1000,
            !r.log.log_colors,
            r.log.rust_log@ == "info"@,
            r.wrappee.tool_timeout_secs == 30,
            r.wrappee.protocol_version@ == "2025.03.26"@,
            r.transport.transport@ == "stdio"@,
    {
        Config {
            log: LogConfig::default(),
            wrappee: WrappeeConfig::default(),
            transport: TransportConfig::default(),
        }
    }
}

impl Default for EnvValues {
    fn default() -> (r: Self)
        ensures
            r.transport is None,
            r.log_colors is None,
            r.tool_timeout is None,
            r.protocol_version is None,
            r.log_size is None,
            r.rust_log is None,
    {
        EnvValues {
            transport: None,
            log_colors: None,
            tool_timeout: None,
            protocol_version: None,
            log_size: None,
            rust_log: None,
        }
    }
}

/// Whether a colour setting switches colours on: `true` in any case of
/// letters, or `1`.
pub open spec fn spec_colors_on(s: Seq<char>) -> bool {
    lowercase_text(s) == "true"@ || s == "1"@
}

/// The timeout that the values ask for, if they are accepted so far.
pub open spec fn spec_timeout(vars: EnvValues) -> int {
    match vars.tool_timeout {
        Some(s) => digits_value(unsigned_digits(s@)) as int,
        None => 30,
    }
}

/// The log size that the values ask for, if they are accepted so far.
pub open spec fn spec_log_size(vars: EnvValues) -> int {
    match vars.log_size {
        Some(s) => digits_value(unsigned_digits(s@)) as int,
        None => 1000,
    }
}

/// The timeout is set and does not read as a 64-bit number.
pub open spec fn spec_timeout_unreadable(vars: EnvValues) -> bool {
    vars.tool_timeout matches Some(s) && !reads_as_number(s@, u64::MAX as int)
}

/// The log size is set and does not read as a `usize`.
pub open spec fn spec_log_size_unreadable(vars: EnvValues) -> bool {
    vars.log_size matches Some(s) && !reads_as_number(s@, usize::MAX as int)
}

impl ConfigError {
    /// The variable that the error is about.
    pub open spec fn spec_var(self) -> Seq<char> {
        match self {
            ConfigError::InvalidValue { var, .. } => var@,
            ConfigError::ParseError { var, .. } => var@,
        }
    }

    /// The error in words.
    pub open spec fn spec_text(self) -> Seq<char> {
        match self {
            ConfigError::InvalidValue { var, message } => "Invalid value for "@ + var@ + ": "@
                + message@,
            ConfigError::ParseError { var, expected_type, source } => "Failed to parse "@ + var@
                + " as "@ + expected_type@ + ": "@ + source@,
        }
    }

    /// The error in words.
    pub fn message(&self) -> (r: String)
        ensures
            r@ == self.spec_text(),
    {
        match self {
            ConfigError::InvalidValue { var, message } => {
                let mut r = "Invalid value for ".to_owned();
                r.append(var.as_str());
                r.append(": ");
                r.append(message.as_str());
                r
            },
            ConfigError::ParseError { var, expected_type, source } => {
                let mut r = "Failed to parse ".to_owned();
                r.append(var.as_str());
                r.append(" as ");
                r.append(expected_type.as_str());
                r.append(": ");
                r.append(source.as_str());
                r
            },
        }
    }
}

impl Config {
    /// Builds the configuration from what the environment holds.
    ///
    /// Each value that is set replaces its default. The timeout and the log
    /// size must read as numbers, else a `ParseError` names the variable and
    /// carries the parser's message; the timeout is looked at first. Both must then be greater than zero, else
    /// an `InvalidValue` names the variable; again the timeout comes first.
    pub fn from_values(vars: EnvValues) -> (r: Result<Config, ConfigError>)
        ensures
            spec_timeout_unreadable(vars) ==> (r matches Err(
                ConfigError::ParseError { var, expected_type, source },
            ) && var@ == "WRAP_MCP_TOOL_TIMEOUT"@ && expected_type@ == "u64"@ && source@
                == u64_parse_error_text(vars.tool_timeout->0@)),
            !spec_timeout_unreadable(vars) && spec_log_size_unreadable(vars) ==> (r matches Err(
                ConfigError::ParseError { var, expected_type, .. },
            ) && var@ == "WRAP_MCP_LOGSIZE"@ && expected_type@ == "usize"@),
            !spec_timeout_unreadable(vars) && !spec_log_size_unreadable(vars) && spec_timeout(vars)
                == 0 ==> (r matches Err(ConfigError::InvalidValue { var, message }) && var@
                == "WRAP_MCP_TOOL_TIMEOUT"@ && message@ == "timeout must be greater than 0"@),
            !spec_timeout_unreadable(vars) && !spec_log_size_unreadable(vars) && spec_timeout(vars)
                != 0 && spec_log_size(vars) == 0 ==> (r matches Err(
                ConfigError::InvalidValue { var, message },
            ) && var@ == "WRAP_MCP_LOGSIZE"@ && message@ == "log size must be greater than 0"@),
            !spec_timeout_unreadable(vars) && !spec_log_size_unreadable(vars) && spec_timeout(vars)
                != 0 && spec_log_size(vars) != 0 ==> (r matches Ok(c) && {
                &&& c.wrappee.tool_timeout_secs == spec_timeout(vars)
                &&& c.log.log_size == spec_log_size(vars)
                &&& c.transport.transport@ == (match vars.transport {
                    Some(s) => s@,
                    None => "stdio"@,
                })
                &&& c.log.log_colors == (match vars.log_colors {
                    Some(s) => spec_colors_on(s@),
                    None => false,
                })
                &&& c.wrappee.protocol_version@ == (match vars.protocol_version {
                    Some(s) => s@,
                    None => "2025.03.26"@,
                })
                &&& c.log.rust_log@ == (match vars.rust_log {
                    Some(s) => s@,
                    None => "info"@,
                })
            }),
    {
        let mut config = Config::default();
        if let Some(transport) = vars.transport {
            config.transport.transport = transport;
        }
        if let Some(log_colors) = vars.log_colors {
            let lower = lowercase(log_colors.as_str());
            config.log.log_colors = str_eq(lower.as_str(), "true") || str_eq(
                log_colors.as_str(),
                "1",
            );
        }
        if let Some(timeout) = vars.tool_timeout {
            match parse_u64(timeout.as_str()) {
                Ok(v) => {
                    config.wrappee.tool_timeout_secs = v;
                },
                Err(source) => {
                    return Err(
                        ConfigError::ParseError {
                            var: "WRAP_MCP_TOOL_TIMEOUT".to_owned(),
                            expected_type: "u64".to_owned(),
                            source,
                        },
                    );
                },
            }
        }
        if let Some(protocol_version) = vars.protocol_version {
            config.wrappee.protocol_version = protocol_version;
        }
        if let Some(log_size) = vars.log_size {
            match parse_usize(log_size.as_str()) {
                Ok(v) => {
                    config.log.log_size = v;
                },
                Err(source) => {
                    return Err(
                        ConfigError::ParseError {
                            var: "WRAP_MCP_LOGSIZE".to_owned(),
                            expected_type: "usize".to_owned(),
                            source,
                        },
                    );
                },
            }
        }
        if let Some(rust_log) = vars.rust_log {
            config.log.rust_log = rust_log;
        }
        if config.wrappee.tool_timeout_secs == 0 {
            return Err(
                ConfigError::InvalidValue {
                    var: "WRAP_MCP_TOOL_TIMEOUT".to_owned(),
                    message: "timeout must be greater than 0".to_owned(),
                },
            );
        }
        if config.log.log_size == 0 {
            return Err(
                ConfigError::InvalidValue {
                    var: "WRAP_MCP_LOGSIZE".to_owned(),
                    message: "log size must be greater than 0".to_owned(),
                },
            );
        }
        Ok(config)
    }
}

} // verus!
