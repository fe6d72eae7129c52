use pingmon::config::{Config, ConfigError};
use pingmon::level::{default_log_level, parse_log_level, LogLevel};
use pingmon::probe::{Target, DEFAULT_TIMEOUT_MS};

#[test]
fn selectable_levels_parse() {
    assert_eq!(parse_log_level("debug"), Some(LogLevel::Debug));
    assert_eq!(parse_log_level("info"), Some(LogLevel::Info));
    assert_eq!(parse_log_level("warning"), Some(LogLevel::Warning));
    assert_eq!(parse_log_level("error"), Some(LogLevel::Error));
}

#[test]
fn backend_only_levels_are_refused() {
    assert_eq!(parse_log_level("trace"), None);
    assert_eq!(parse_log_level("critical"), None);
}

#[test]
fn unknown_level_is_refused() {
    assert_eq!(parse_log_level("verbose"), None);
    assert_eq!(parse_log_level(""), None);
    assert_eq!(parse_log_level("Info"), None);
}

#[test]
fn default_level_is_info() {
    assert_eq!(default_log_level(), LogLevel::Info);
}

#[test]
fn invalid_level_fails_startup() {
    let targets = vec![Some(Target::V4(0x7f00_0001))];
    let r = Config::from_args(Some("verbose"), &targets);
    assert!(matches!(r, Err(ConfigError::UnknownLogLevel)));
}

#[test]
fn level_is_checked_before_targets() {
    let targets = vec![None];
    let r = Config::from_args(Some("verbose"), &targets);
    assert!(matches!(r, Err(ConfigError::UnknownLogLevel)));
}

#[test]
fn unparsed_target_fails_startup() {
    let targets = vec![Some(Target::V4(0x0a00_0001)), None, None];
    let r = Config::from_args(Some("info"), &targets);
    assert!(matches!(r, Err(ConfigError::BadTarget(1))));
}

#[test]
fn no_targets_fails_startup() {
    let targets: Vec<Option<Target>> = Vec::new();
    let r = Config::from_args(None, &targets);
    assert!(matches!(r, Err(ConfigError::NoTargets)));
}

#[test]
fn valid_arguments_give_config() {
    let a = Target::V4(0x0808_0808);
    let b = Target::V6(1);
    let targets = vec![Some(a), Some(b), Some(a)];
    match Config::from_args(None, &targets) {
        Ok(c) => {
            assert_eq!(c.level, LogLevel::Info);
            assert_eq!(c.targets, vec![a, b, a]);
            assert_eq!(c.timeout_ms, DEFAULT_TIMEOUT_MS);
            assert_eq!(c.timeout_ms, 300);
        }
        Err(_) => panic!("valid arguments refused"),
    }
}

#[test]
fn selected_level_is_kept() {
    let targets = vec![Some(Target::V4(1))];
    match Config::from_args(Some("error"), &targets) {
        Ok(c) => assert_eq!(c.level, LogLevel::Error),
        Err(_) => panic!("valid arguments refused"),
    }
}
