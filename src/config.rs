//! Startup configuration: the log level and the targets, validated before
//! any probe loop exists.

use vstd::prelude::*;
use crate::level::{LogLevel, level_named, parse_log_level, default_log_level};
use crate::probe::{Target, DEFAULT_TIMEOUT_MS};

verus! {

/// Why a startup configuration is refused.
#[derive(Clone, Copy, Debug, PartialEq, Eq, Structural)]
pub enum ConfigError {
    /// The log level is none of `debug`, `info`, `warning`, `error`.
    UnknownLogLevel,
    /// No target was given.
    NoTargets,
    /// The target at this position is not a network address.
    BadTarget(usize),
}

/// A validated configuration: the level to log at, one or more targets in
/// the order given (repeats kept), and the per-attempt timeout.
pub struct Config {
    pub level: LogLevel,
    pub targets: Vec<Target>,
    pub timeout_ms: u64,
}

/// The level selected by an optional name: `info` when none is given.
pub open spec fn selected_level(level: Option<Seq<char>>) -> Option<LogLevel> {
    match level {
        Some(s) => level_named(s),
        None => Some(LogLevel::Info),
    }
}

/// Every target was read as an address.
pub open spec fn all_parsed(targets: Seq<Option<Target>>) -> bool {
    forall|i: int| 0 <= i < targets.len() ==> (#[trigger] targets[i]) is Some
}

/// `i` is the first position whose target was not read as an address.
pub open spec fn first_unparsed(targets: Seq<Option<Target>>, i: int) -> bool {
    &&& 0 <= i < targets.len()
    &&& targets[i] is None
    &&& forall|j: int| 0 <= j < i ==> (#[trigger] targets[j]) is Some
}

/// The view of an optional name.
pub open spec fn name_view(level: Option<&str>) -> Option<Seq<char>> {
    match level {
        Some(s) => Some(s@),
        None => None,
    }
}

impl Config {
    /// Validates the startup arguments: the log level is checked first, then
    /// that there is a target, then each target in order (`None` stands for
    /// text that is not an address). The timeout is the default one.
    pub fn from_args(level: Option<&str>, targets: &Vec<Option<Target>>) -> (r: Result<
        Config,
        ConfigError,
    >)
        ensures
            r == Err::<Config, ConfigError>(ConfigError::UnknownLogLevel) <==> selected_level(
                name_view(level),
            ) is None,
            r == Err::<Config, ConfigError>(ConfigError::NoTargets) <==> selected_level(
                name_view(level),
            ) is Some && targets@.len() == 0,
            r matches Err(ConfigError::BadTarget(i)) ==> selected_level(name_view(level)) is Some
                && first_unparsed(targets@, i as int),
            r is Ok <==> selected_level(name_view(level)) is Some && targets@.len() > 0
                && all_parsed(targets@),
            r matches Ok(c) ==> {
                &&& Some(c.level) == selected_level(name_view(level))
                &&& c.timeout_ms == DEFAULT_TIMEOUT_MS
                &&& c.targets@.len() == targets@.len()
                &&& forall|i: int| 0 <= i < targets@.len() ==> Some(c.targets@[i]) == targets@[i]
            },
    {
        let lvl = match level {
            Some(s) => parse_log_level(s),
            None => Some(default_log_level()),
        };
        let lvl = match lvl {
            Some(l) => l,
            None => {
                return Err(ConfigError::UnknownLogLevel);
            },
        };
        if targets.len() == 0 {
            return Err(ConfigError::NoTargets);
        }
        let mut out: Vec<Target> = Vec::new();
        let mut i: usize = 0;
        while i < targets.len()
            invariant
                i <= targets@.len(),
                selected_level(name_view(level)) == Some(lvl),
                out@.len() == i,
                forall|j: int| 0 <= j < i ==> Some(out@[j]) == targets@[j],
            decreases targets@.len() - i,
        {
            match targets[i] {
                Some(t) => {
                    out.push(t);
                },
                None => {
                    assert(first_unparsed(targets@, i as int));
                    assert(!all_parsed(targets@));
                    return Err(ConfigError::BadTarget(i));
                },
            }
            i = i + 1;
        }
        assert(all_parsed(targets@));
        Ok(Config { level: lvl, targets: out, timeout_ms: DEFAULT_TIMEOUT_MS })
    }
}

} // verus!
