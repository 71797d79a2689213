use ripsed::config::{default_context_lines, default_max_entries, Config};

#[test]
fn config_default_has_expected_values() {
    let config = Config::default();
    assert!(!config.defaults.backup);
    assert!(config.defaults.gitignore);
    assert!(config.defaults.max_depth.is_none());
    assert!(config.agent.dry_run);
    assert_eq!(config.agent.context_lines, 3);
    assert!(config.ignore.patterns.is_empty());
    assert_eq!(config.undo.max_entries, 100);
}

#[test]
fn config_default_helpers() {
    assert_eq!(default_context_lines(), 3);
    assert_eq!(default_max_entries(), 100);
}
