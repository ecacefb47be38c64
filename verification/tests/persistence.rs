use benteveo::config::{AppConfig, UnsupportedSchemaVersion};
use benteveo::services::persistence::{
    backup_file_name, decide_load, first_free_backup, prepare_for_save, recovered_report, temporary_file_name,
    LoadDecision, LoadReport, StoredDocument, CONFIG_FILE_NAME,
};

#[test]
fn missing_file_yields_defaults() {
    assert_eq!(
        decide_load(StoredDocument::Missing),
        LoadDecision::Ready(LoadReport {
            config: AppConfig::default(),
            recovered_from_corruption: false,
            backup_path: None,
        })
    );
}

#[test]
fn parsed_documents_are_migrated_or_refused() {
    let mut old = AppConfig::default();
    old.schema_version = 0;
    match decide_load(StoredDocument::Parsed(old)) {
        LoadDecision::Ready(report) => {
            assert_eq!(report.config.schema_version, 1);
            assert!(!report.recovered_from_corruption);
        }
        other => panic!("unexpected decision {other:?}"),
    }
    let mut future = AppConfig::default();
    future.schema_version = 99;
    assert_eq!(
        decide_load(StoredDocument::Parsed(future)),
        LoadDecision::Unsupported(UnsupportedSchemaVersion { version: 99 })
    );
}

#[test]
fn corrupt_files_are_backed_up() {
    assert_eq!(decide_load(StoredDocument::Corrupt), LoadDecision::BackUpCorrupt);
    let report = recovered_report("/tmp/config.json.bak".to_string());
    assert!(report.recovered_from_corruption);
    assert_eq!(report.backup_path.as_deref(), Some("/tmp/config.json.bak"));
    assert_eq!(report.config, AppConfig::default());
}

#[test]
fn saved_documents_carry_the_current_version_and_load_back() {
    let mut config = AppConfig::default();
    config.schema_version = 0;
    config.preferences.noise.volume = 80;
    let saved = prepare_for_save(config);
    assert_eq!(saved.schema_version, 1);
    assert_eq!(
        decide_load(StoredDocument::Parsed(saved.clone())),
        LoadDecision::Ready(LoadReport {
            config: saved,
            recovered_from_corruption: false,
            backup_path: None,
        })
    );
}

#[test]
fn backup_and_temporary_names() {
    assert_eq!(backup_file_name(Some("config.json"), 0), "config.json.bak");
    assert_eq!(backup_file_name(Some("config.json"), 1), "config.json.bak.1");
    assert_eq!(backup_file_name(None, 12), "config.json.bak.12");
    assert_eq!(
        temporary_file_name(Some("config.json"), "42-1000"),
        ".config.json.42-1000.tmp"
    );
    assert_eq!(temporary_file_name(None, "x"), ".config.json.x.tmp");
    assert_eq!(CONFIG_FILE_NAME, "config.json");
}

#[test]
fn a_damaged_file_is_set_aside_under_the_first_free_backup_name() {
    let none: Vec<String> = Vec::new();
    assert_eq!(first_free_backup(Some("config.json"), &none), Some(0));
    let taken = vec![
        "config.json".to_string(),
        "config.json.bak".to_string(),
        "config.json.bak.1".to_string(),
        "config.json.bak.3".to_string(),
    ];
    assert_eq!(first_free_backup(Some("config.json"), &taken), Some(2));
    assert_eq!(first_free_backup(Some("other.json"), &taken), Some(0));
}
