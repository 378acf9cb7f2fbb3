//! The configuration.

use stui::config::{
    config_dir, config_path, load_from, save_to, write_probe_name, Config, DirSource, ReadOutcome,
    SessionMeta,
};

#[test]
fn none_path_means_no_config_layer() {
    let loaded = load_from(ReadOutcome::NoPath);
    assert!(loaded.warnings.is_empty());
    assert!(!loaded.read_only);
    assert_eq!(loaded.config, Config::new());
    assert_eq!(save_to(&loaded.config, None), None);
}

#[test]
fn missing_file_is_silent_defaults() {
    let loaded = load_from(ReadOutcome::Missing);
    assert!(loaded.warnings.is_empty());
    assert!(!loaded.read_only);
    assert_eq!(loaded.config, Config::new());
}

#[test]
fn corrupt_file_is_backed_up_and_defaults_are_used() {
    let loaded = load_from(ReadOutcome::Corrupt {
        error: "expected value".into(),
        backup: Ok("/home/u/.config/screen-tui/config.json.bak".into()),
    });
    assert_eq!(loaded.config, Config::new(), "defaults after corruption");
    assert_eq!(loaded.warnings.len(), 1);
    assert!(loaded.warnings[0].contains("backed up"), "{}", loaded.warnings[0]);
    assert!(loaded.warnings[0].contains("corrupt"));
    assert!(loaded.warnings[0].contains("config.json.bak"));
    assert!(!loaded.read_only, "corrupt file may be overwritten on save");

    let loaded = load_from(ReadOutcome::Corrupt {
        error: "expected value".into(),
        backup: Err("denied".into()),
    });
    assert!(loaded.warnings[0].contains("denied"));
}

#[test]
fn an_unreadable_file_is_told() {
    let loaded = load_from(ReadOutcome::Unreadable {
        path: "/x".into(),
        error: "denied".into(),
    });
    assert_eq!(loaded.warnings, vec!["cannot read /x: denied; using defaults"]);
}

#[test]
fn unknown_higher_version_is_read_only() {
    let mut config = Config::new();
    config.version = 99;
    config.ui.refresh_ms = 777;
    let loaded = load_from(ReadOutcome::Parsed(config));
    assert!(loaded.read_only, "higher version must be read-only");
    assert_eq!(loaded.config.ui.refresh_ms, 777, "values still readable");
    assert_eq!(loaded.warnings.len(), 1);
    assert!(loaded.warnings[0].contains("read-only"), "{}", loaded.warnings[0]);
    assert!(loaded.warnings[0].contains("99"));
    assert_eq!(save_to(&loaded.config, Some("/x/config.json".into())), None);
}

#[test]
fn a_current_version_is_written_where_it_was_read() {
    let mut config = Config::new();
    config.ui.refresh_ms = 777;
    let loaded = load_from(ReadOutcome::Parsed(config));
    assert!(!loaded.read_only);
    assert!(loaded.warnings.is_empty());
    assert_eq!(loaded.config.ui.refresh_ms, 777);
    assert_eq!(
        save_to(&loaded.config, Some("/x/config.json".into())).as_deref(),
        Some("/x/config.json")
    );
}

#[test]
fn env_override_wins_and_empty_is_treated_as_unset() {
    let text = |s: &str| Some(s.to_string());
    let (dir, source) = config_dir(text("/own"), text("/xdg"), text("/home/u")).unwrap();
    assert_eq!((dir.as_str(), source), ("/own", DirSource::Env));
    let (dir, source) = config_dir(text(""), text("/xdg"), text("/home/u")).unwrap();
    assert_eq!((dir.as_str(), source), ("/xdg/screen-tui", DirSource::Xdg));
    let (dir, source) = config_dir(None, text(""), text("/home/u")).unwrap();
    assert_eq!(
        (dir.as_str(), source),
        ("/home/u/.config/screen-tui", DirSource::Home)
    );
}

#[test]
fn config_path_is_none_without_home() {
    assert_eq!(config_path(None, None, None), None);
    assert_eq!(
        config_path(Some("/own".into()), None, None).as_deref(),
        Some("/own/config.json")
    );
}

#[test]
fn records_on_sessions_are_kept_in_order() {
    let mut config = Config::new();
    for name in ["b", "c", "a"] {
        config
            .sessions
            .insert(name.to_string(), SessionMeta::default());
    }
    assert_eq!(config.sessions.keys(), vec!["a", "b", "c"]);
    config.sessions.remove("b");
    assert!(!config.sessions.contains_key("b"));
    assert_eq!(config.sessions.len(), 2);
    assert_eq!(write_probe_name(7), write_probe_name(7));
    assert_ne!(write_probe_name(7), write_probe_name(8));
}

#[test]
fn the_defaults_are_the_documented_ones() {
    let config = Config::new();
    assert_eq!(config.language, "auto");
    assert_eq!(config.max_recent_dirs, 10);
    assert!(config.defaults.attach_after_create);
    assert_eq!(config.ui.narrow_cols, 72);
    assert_eq!(config.ui.wide_cols, 100);
}
