use simple_logger::{Level, LevelFilter, Metadata, SimpleLogger, Timestamps};
use std::collections::HashMap;

fn create_log(name: &str, level: Level) -> Metadata {
    Metadata::new(level, name)
}

#[test]
fn test_module_levels_allowlist() {
    let logger = SimpleLogger::new()
        .with_level(LevelFilter::Off)
        .with_module_level("my_crate", LevelFilter::Info);

    assert!(logger.enabled(&create_log("my_crate", Level::Info)));
    assert!(logger.enabled(&create_log("my_crate::module", Level::Info)));
    assert!(!logger.enabled(&create_log("my_crate::module", Level::Debug)));
    assert!(!logger.enabled(&create_log("not_my_crate", Level::Debug)));
    assert!(!logger.enabled(&create_log("not_my_crate::module", Level::Error)));
}

#[test]
fn test_module_levels_denylist() {
    let logger = SimpleLogger::new()
        .with_level(LevelFilter::Debug)
        .with_module_level("my_crate", LevelFilter::Trace)
        .with_module_level("chatty_dependency", LevelFilter::Info);

    assert!(logger.enabled(&create_log("my_crate", Level::Info)));
    assert!(logger.enabled(&create_log("my_crate", Level::Trace)));
    assert!(logger.enabled(&create_log("my_crate::module", Level::Info)));
    assert!(logger.enabled(&create_log("my_crate::module", Level::Trace)));
    assert!(logger.enabled(&create_log("not_my_crate", Level::Debug)));
    assert!(!logger.enabled(&create_log("not_my_crate::module", Level::Trace)));
    assert!(logger.enabled(&create_log("chatty_dependency", Level::Info)));
    assert!(!logger.enabled(&create_log("chatty_dependency", Level::Debug)));
    assert!(!logger.enabled(&create_log("chatty_dependency::module", Level::Debug)));
    assert!(logger.enabled(&create_log("chatty_dependency::module", Level::Warn)));
}

#[test]
fn test_module_levels() {
    let logger = SimpleLogger::new()
        .with_level(LevelFilter::Off)
        .with_module_level("a", LevelFilter::Off)
        .with_module_level("a::b::c", LevelFilter::Off)
        .with_module_level("a::b", LevelFilter::Info);

    assert_eq!(logger.enabled(&create_log("a", Level::Info)), false);
    assert_eq!(logger.enabled(&create_log("a::b", Level::Info)), true);
    assert_eq!(logger.enabled(&create_log("a::b::c", Level::Info)), false);
}

#[test]
fn test_max_level() {
    let builder = SimpleLogger::new();
    assert_eq!(builder.max_level(), LevelFilter::Trace);
}

#[test]
fn test_timestamps_defaults() {
    let builder = SimpleLogger::new();
    assert!(*builder.timestamps() == Timestamps::Utc);
}

#[test]
fn test_with_timestamps() {
    let builder = SimpleLogger::new().with_timestamps(false);
    assert!(*builder.timestamps() == Timestamps::Off);
}

#[test]
fn test_with_utc_timestamps() {
    let builder = SimpleLogger::new().with_utc_timestamps();
    assert!(*builder.timestamps() == Timestamps::Utc);
}

#[test]
fn test_with_local_timestamps() {
    let builder = SimpleLogger::new().with_local_timestamps();
    assert!(*builder.timestamps() == Timestamps::Local);
}

#[test]
fn test_with_timestamps_format() {
    let builder = SimpleLogger::new().with_timestamp_format("[hour]:[minute]:[second]");
    assert!(builder.timestamps_format().is_some());
}

#[test]
fn test_with_colors() {
    let mut builder = SimpleLogger::new();
    assert!(builder.colors() == true);

    builder = builder.with_colors(false);
    assert!(builder.colors() == false);
}

#[test]
fn test_issue_90() {
    let logger = SimpleLogger::new()
        .with_level(LevelFilter::Off)
        .with_module_level("serde", LevelFilter::Error)
        .with_module_level("serde_json", LevelFilter::Trace);

    assert_eq!(logger.enabled(&create_log("serde", Level::Trace)), false);
    assert_eq!(logger.enabled(&create_log("serde_json", Level::Trace)), true);
}

#[test]
fn longer_prefix_wins_in_either_order() {
    let first = SimpleLogger::new()
        .with_module_level("a", LevelFilter::Off)
        .with_module_level("a::b", LevelFilter::Info);
    let second = SimpleLogger::new()
        .with_module_level("a::b", LevelFilter::Info)
        .with_module_level("a", LevelFilter::Off);
    for logger in [first, second] {
        assert!(logger.enabled(&create_log("a::b", Level::Info)));
        assert!(!logger.enabled(&create_log("a", Level::Info)));
    }
}

#[test]
fn serde_rules_in_reverse_order() {
    let logger = SimpleLogger::new()
        .with_level(LevelFilter::Off)
        .with_module_level("serde_json", LevelFilter::Trace)
        .with_module_level("serde", LevelFilter::Error);

    assert!(logger.enabled(&create_log("serde_json", Level::Trace)));
    assert!(!logger.enabled(&create_log("serde", Level::Trace)));
    assert!(logger.enabled(&create_log("serde", Level::Error)));
}

#[test]
fn default_applies_without_rules() {
    let logger = SimpleLogger::new().with_level(LevelFilter::Debug);
    assert!(logger.enabled(&create_log("anything", Level::Debug)));
    assert!(!logger.enabled(&create_log("anything", Level::Trace)));
}

#[test]
fn empty_target_falls_back_to_default() {
    let logger = SimpleLogger::new()
        .with_level(LevelFilter::Warn)
        .with_module_level("a", LevelFilter::Trace);
    assert!(!logger.enabled(&create_log("", Level::Info)));
    assert!(logger.enabled(&create_log("", Level::Warn)));
}

#[test]
fn allowlist_end_to_end() {
    let logger = SimpleLogger::new()
        .with_level(LevelFilter::Off)
        .with_module_level("my_crate", LevelFilter::Info);
    assert!(logger.enabled(&create_log("my_crate::module", Level::Info)));
    assert!(!logger.enabled(&create_log("my_crate::module", Level::Debug)));
    assert!(!logger.enabled(&create_log("unrelated", Level::Error)));
}

#[test]
fn enabled_is_monotone_in_level() {
    let logger = SimpleLogger::new()
        .with_level(LevelFilter::Warn)
        .with_module_level("x", LevelFilter::Info);
    let levels = [Level::Error, Level::Warn, Level::Info, Level::Debug, Level::Trace];
    for target in ["x::y", "z"] {
        for i in 0..levels.len() {
            for j in i..levels.len() {
                if logger.enabled(&create_log(target, levels[j])) {
                    assert!(logger.enabled(&create_log(target, levels[i])));
                }
            }
        }
    }
}

#[test]
fn max_level_takes_most_verbose() {
    let logger = SimpleLogger::new()
        .with_level(LevelFilter::Off)
        .with_module_level("a", LevelFilter::Warn)
        .with_module_level("b", LevelFilter::Info);
    assert_eq!(logger.max_level(), LevelFilter::Info);
    let logger = SimpleLogger::new().with_level(LevelFilter::Error);
    assert_eq!(logger.max_level(), LevelFilter::Error);
}

#[test]
fn target_levels_from_map() {
    let mut map = HashMap::new();
    map.insert("serde".to_string(), LevelFilter::Error);
    map.insert("serde_json".to_string(), LevelFilter::Trace);
    let logger = SimpleLogger::new()
        .with_level(LevelFilter::Off)
        .with_module_level("other", LevelFilter::Trace)
        .with_target_levels(map);
    assert!(logger.enabled(&create_log("serde_json::de", Level::Trace)));
    assert!(!logger.enabled(&create_log("serde", Level::Warn)));
    assert!(logger.enabled(&create_log("serde", Level::Error)));
    assert!(!logger.enabled(&create_log("other", Level::Error)));
    assert_eq!(logger.max_level(), LevelFilter::Trace);
}

#[test]
fn level_names_parse_in_any_case() {
    assert_eq!(Level::parse("warn"), Some(Level::Warn));
    assert_eq!(Level::parse("ERROR"), Some(Level::Error));
    assert_eq!(Level::parse("Info"), Some(Level::Info));
    assert_eq!(Level::parse("dEbUg"), Some(Level::Debug));
    assert_eq!(Level::parse("trace"), Some(Level::Trace));
    assert_eq!(Level::parse("off"), None);
    assert_eq!(Level::parse(""), None);
    assert_eq!(Level::parse("verbose"), None);
    assert_eq!(Level::parse(" info"), None);
}

#[test]
fn env_value_sets_default() {
    let logger = SimpleLogger::new().with_level(LevelFilter::Warn).env(Some("debug"));
    assert_eq!(logger.default_level(), LevelFilter::Debug);
    let logger = SimpleLogger::new().with_level(LevelFilter::Warn).env(Some("bogus"));
    assert_eq!(logger.default_level(), LevelFilter::Warn);
    let logger = SimpleLogger::new().with_level(LevelFilter::Warn).env(Some("off"));
    assert_eq!(logger.default_level(), LevelFilter::Warn);
    let logger = SimpleLogger::new().with_level(LevelFilter::Warn).env(None);
    assert_eq!(logger.default_level(), LevelFilter::Warn);
    assert_eq!(SimpleLogger::from_env(None).default_level(), LevelFilter::Error);
    assert_eq!(SimpleLogger::from_env(Some("TRACE")).default_level(), LevelFilter::Trace);
}

#[test]
fn builders_set_their_option() {
    let logger = SimpleLogger::default();
    assert_eq!(logger.default_level(), LevelFilter::Trace);
    assert!(!logger.threads());
    assert!(logger.colors());
    assert!(logger.timestamps_format().is_none());
    let logger = logger.with_threads(true).without_timestamps();
    assert!(logger.threads());
    assert!(*logger.timestamps() == Timestamps::Off);
    let logger = logger.with_utc_offset(7200);
    assert!(*logger.timestamps() == Timestamps::UtcOffset(7200));
    let logger = logger.with_timestamps(true);
    assert!(*logger.timestamps() == Timestamps::Local);
}
