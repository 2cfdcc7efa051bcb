use cleanx::cli::{Commands, OutputFormat};
use cleanx::config::{
    default_max_depth, default_min_size, default_true, CleanConfig, Config, ScanConfig, SetError,
    UiConfig,
};

#[test]
fn settings_by_default() {
    assert_eq!(default_min_size(), 1_048_576);
    assert_eq!(default_max_depth(), 3);
    assert!(default_true());
    let c = Config::default();
    assert_eq!(c.scan.min_size_bytes, 1_048_576);
    assert_eq!(c.scan.max_depth, 3);
    assert!(c.scan.excluded_paths.is_empty());
    assert!(c.scan.scan_paths.is_empty());
    assert!(c.clean.dry_run_by_default);
    assert!(c.clean.log_history);
    assert!(c.clean.confirm_before_clean);
    assert!(!c.ui.show_sizes_in_bytes);
    assert!(c.ui.color_output);
    assert_eq!(ScanConfig::default().max_depth, 3);
    assert!(CleanConfig::default().log_history);
    assert!(UiConfig::default().color_output);
    assert_eq!(OutputFormat::default(), OutputFormat::Human);
}

#[test]
fn excluded_paths_are_added_once() {
    let mut c = Config::default();
    c.add_excluded_path("/a".to_string());
    c.add_excluded_path("/b".to_string());
    c.add_excluded_path("/a".to_string());
    assert_eq!(c.scan.excluded_paths, vec!["/a", "/b"]);
    assert_eq!(c.scan.min_size_bytes, 1_048_576);
}

#[test]
fn changing_a_setting() {
    let mut c = Config::default();
    assert_eq!(c.set("min_size", "4096"), Ok(()));
    assert_eq!(c.scan.min_size_bytes, 4096);
    assert_eq!(c.set("max_depth", "7"), Ok(()));
    assert_eq!(c.scan.max_depth, 7);
    assert_eq!(c.set("min_size", "18446744073709551615"), Ok(()));
    assert_eq!(c.scan.min_size_bytes, u64::MAX);
    assert_eq!(c.set("min_size", "0"), Ok(()));
    assert_eq!(c.scan.min_size_bytes, 0);
}

#[test]
fn malformed_settings_are_refused() {
    let mut c = Config::default();
    for value in ["", "1MB", "-1", "1.5", "18446744073709551616", " 5"] {
        assert_eq!(c.set("min_size", value), Err(SetError::InvalidNumber), "{:?}", value);
        assert_eq!(c.set("max_depth", value), Err(SetError::InvalidNumber), "{:?}", value);
    }
    assert_eq!(c.set("depth", "3"), Err(SetError::UnknownKey));
    assert_eq!(c.set("", "3"), Err(SetError::UnknownKey));
    assert_eq!(c.set("MIN_SIZE", "3"), Err(SetError::UnknownKey));
    assert_eq!(c.scan.min_size_bytes, 1_048_576);
    assert_eq!(c.scan.max_depth, 3);
}

#[test]
fn scanners_get_the_settings() {
    let mut c = Config::default();
    c.scan.min_size_bytes = 10;
    c.scan.max_depth = 2;
    c.add_excluded_path("/skip".to_string());
    let s = c.scan_settings();
    assert_eq!(s.min_size, 10);
    assert_eq!(s.max_depth, 2);
    assert_eq!(s.excluded_paths, vec!["/skip"]);
    assert!(!s.follow_symlinks);
}

#[test]
fn where_the_tool_keeps_its_files() {
    assert_eq!(
        Config::data_dir_under(Some("/Users/u/Library/Application Support".to_string())),
        "/Users/u/Library/Application Support/cleanx"
    );
    assert_eq!(Config::data_dir_under(None), "./cleanx");
    assert_eq!(
        Config::config_path_under(Some("/Users/u/.config".to_string())),
        "/Users/u/.config/cleanx/config.toml"
    );
    assert_eq!(Config::config_path_under(None), "./cleanx/config.toml");
    assert!(Config::data_dir().ends_with("cleanx"));
    assert!(Config::config_path().ends_with("config.toml"));
}

#[test]
fn explorer_uses_at_least_one_thread() {
    assert_eq!(Commands::thread_count(0), 1);
    assert_eq!(Commands::thread_count(1), 1);
    assert_eq!(Commands::thread_count(12), 12);
}
