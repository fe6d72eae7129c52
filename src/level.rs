//! Log levels: the names an operator may select and how they are parsed.

use vstd::prelude::*;

verus! {

/// The severities of the logging backend, one for each name it parses.
#[derive(Clone, Copy, Debug, PartialEq, Eq, Structural)]
pub enum Severity {
    Trace,
    Debug,
    Info,
    Warning,
    Error,
    Critical,
}

/// The log levels an operator may select.
#[derive(Clone, Copy, Debug, PartialEq, Eq, Structural)]
pub enum LogLevel {
    Debug,
    Info,
    Warning,
    Error,
}

/// The severity that the logging backend reads from a name, if any.
pub open spec fn severity_named(s: Seq<char>) -> Option<Severity> {
    if s == "trace"@ {
        Some(Severity::Trace)
    } else if s == "debug"@ {
        Some(Severity::Debug)
    } else if s == "info"@ {
        Some(Severity::Info)
    } else if s == "warning"@ {
        Some(Severity::Warning)
    } else if s == "error"@ {
        Some(Severity::Error)
    } else if s == "critical"@ {
        Some(Severity::Critical)
    } else {
        None
    }
}

/// The selectable log level with the given name, if any.
pub open spec fn level_named(s: Seq<char>) -> Option<LogLevel> {
    if s == "debug"@ {
        Some(LogLevel::Debug)
    } else if s == "info"@ {
        Some(LogLevel::Info)
    } else if s == "warning"@ {
        Some(LogLevel::Warning)
    } else if s == "error"@ {
        Some(LogLevel::Error)
    } else {
        None
    }
}

/// Relies on `sloggers::types::Severity::from_str`: it maps each of the six
/// lower-case severity names to its variant and fails on any other text.
#[verifier::external_body]
fn parse_severity(s: &str) -> (r: Option<Severity>)
    ensures
        r == severity_named(s@),
{
    match <sloggers::types::Severity as std::str::FromStr>::from_str(s) {
        Ok(sloggers::types::Severity::Trace) => Some(Severity::Trace),
        Ok(sloggers::types::Severity::Debug) => Some(Severity::Debug),
        Ok(sloggers::types::Severity::Info) => Some(Severity::Info),
        Ok(sloggers::types::Severity::Warning) => Some(Severity::Warning),
        Ok(sloggers::types::Severity::Error) => Some(Severity::Error),
        Ok(sloggers::types::Severity::Critical) => Some(Severity::Critical),
        Err(_) => None,
    }
}

/// Parses a log level name. Only `debug`, `info`, `warning` and `error` are
/// selectable; the backend's other severities are refused like unknown text.
pub fn parse_log_level(s: &str) -> (r: Option<LogLevel>)
    ensures
        r == level_named(s@),
{
    proof {
        reveal_strlit("trace");
        reveal_strlit("debug");
        reveal_strlit("info");
        reveal_strlit("warning");
        reveal_strlit("error");
        reveal_strlit("critical");
        assert("trace"@[0] != "debug"@[0]);
        assert("trace"@[0] != "error"@[0]);
        assert("trace"@.len() != "info"@.len());
        assert("trace"@.len() != "warning"@.len());
    }
    match parse_severity(s) {
        Some(Severity::Debug) => Some(LogLevel::Debug),
        Some(Severity::Info) => Some(LogLevel::Info),
        Some(Severity::Warning) => Some(LogLevel::Warning),
        Some(Severity::Error) => Some(LogLevel::Error),
        _ => None,
    }
}

/// The level used when none is selected.
pub fn default_log_level() -> (r: LogLevel)
    ensures
        r == LogLevel::Info,
{
    LogLevel::Info
}

} // verus!
