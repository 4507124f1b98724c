use novus_writer::autosave::{next_step, AutosaveConfig, AutosaveEvent, AutosaveStep};
use novus_writer::database::DatabaseConfig;

#[test]
fn test_autosave_config_default() {
    let config = AutosaveConfig::default();
    assert_eq!(config.interval_seconds, 30);
    assert_eq!(config.max_autosaves, 10);
}

#[test]
fn autosave_steps() {
    let config = AutosaveConfig { interval_seconds: 5, max_autosaves: 3 };
    assert_eq!(next_step(&config, AutosaveEvent::Tick), AutosaveStep::CleanUp(3));
    assert_eq!(next_step(&config, AutosaveEvent::ShutdownChanged(true)), AutosaveStep::Stop);
    assert_eq!(next_step(&config, AutosaveEvent::ShutdownChanged(false)), AutosaveStep::Wait);
}

#[test]
fn database_config_default() {
    let c = DatabaseConfig::default();
    assert_eq!(c.max_connections, 10);
    assert_eq!(c.min_connections, 2);
    assert_eq!(c.acquire_timeout_secs, 30);
    assert_eq!(c.idle_timeout_secs, 600);
}

#[test]
fn in_list_placeholders_counts() {
    assert_eq!(novus_writer::database::in_list_placeholders(0), "");
    assert_eq!(novus_writer::database::in_list_placeholders(1), "?");
    assert_eq!(novus_writer::database::in_list_placeholders(3), "?,?,?");
    assert_eq!(novus_writer::database::in_list_placeholders(3), vec!["?"; 3].join(","));
}
