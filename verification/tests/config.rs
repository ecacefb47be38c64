use benteveo::config::{
    default_break_minutes, default_schema_version, default_true, default_volume,
    default_work_minutes, AppConfig, NoiseKind, PomodoroPhase, PomodoroProfile, TaskRecord,
    UnsupportedSchemaVersion, CURRENT_SCHEMA_VERSION,
};

#[test]
fn defaults_match_the_plan() {
    let config = AppConfig::default();
    assert_eq!(config.schema_version, CURRENT_SCHEMA_VERSION);
    assert_eq!(config.preferences.noise.kind, NoiseKind::White);
    assert_eq!(config.preferences.noise.volume, 50);
    assert!(!config.preferences.noise.playing);
    assert_eq!(config.preferences.pomodoro.profile, PomodoroProfile::Classic);
    assert_eq!(config.preferences.pomodoro.work_minutes, 25);
    assert_eq!(config.preferences.pomodoro.break_minutes, 5);
    assert!(config.preferences.tasks.show_completed);
    assert_eq!(config.pomodoro.phase, PomodoroPhase::Stopped);
    assert_eq!(config.pomodoro.session_date, None);
    assert!(config.tasks.is_empty());
    assert_eq!(default_schema_version(), 1);
    assert_eq!(default_volume(), 50);
    assert_eq!(default_work_minutes(), 25);
    assert_eq!(default_break_minutes(), 5);
    assert!(default_true());
}

#[test]
fn migrate_fills_old_versions_and_refuses_future_ones() {
    let mut old = AppConfig::default();
    old.schema_version = 0;
    old.tasks.push(TaskRecord {
        id: 1,
        text: "Leer PLAN.md".into(),
        completed: false,
        position: 0,
        created_at: 1_789_862_400,
    });
    let migrated = old.clone().migrate().expect("old documents migrate");
    assert_eq!(migrated.schema_version, 1);
    assert_eq!(migrated.tasks, old.tasks);

    let current = AppConfig::default();
    assert_eq!(current.clone().migrate(), Ok(current));

    let mut future = AppConfig::default();
    future.schema_version = 99;
    assert_eq!(future.migrate(), Err(UnsupportedSchemaVersion { version: 99 }));
}

#[test]
fn migrating_twice_is_migrating_once() {
    let mut old = AppConfig::default();
    old.schema_version = 0;
    let once = old.migrate().unwrap();
    assert_eq!(once.clone().migrate(), Ok(once));
}

#[test]
fn unsupported_version_message() {
    assert_eq!(
        UnsupportedSchemaVersion { version: 99 }.message(),
        "unsupported configuration schema version 99"
    );
}
