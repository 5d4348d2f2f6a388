use engine_client::settings::{
    backup_file_name, coalesce, load_status, settings_path, settings_path_in, LoadStatus,
    SaveStatus, SettingsError, SETTINGS_FILENAME,
};

#[test]
fn settings_path_from_args_uses_config_dir_override() {
    let dir = tempfile::tempdir().unwrap();
    let dir_text = dir.path().to_string_lossy().into_owned();
    assert_eq!(
        settings_path(Some(dir_text.clone())).unwrap(),
        dir.path().join(SETTINGS_FILENAME).to_string_lossy().into_owned()
    );
    assert_eq!(settings_path_in("/var/lib/spacewars"), "/var/lib/spacewars/settings.toml");
}

#[test]
fn only_an_up_to_date_existing_file_skips_writeback() {
    assert!(!LoadStatus::Existing.needs_writeback());
    assert!(LoadStatus::Missing.needs_writeback());
    assert!(LoadStatus::Migrated.needs_writeback());
    assert!(LoadStatus::RecoveredMalformed {
        backup_path: "settings.toml.bad".into(),
        reason: "bad".into(),
    }
    .needs_writeback());
    assert_eq!(load_status(b"a = 1\n", b"a = 1\n"), LoadStatus::Existing);
    assert_eq!(load_status(b"a = 1\n", b"a=1"), LoadStatus::Migrated);
}

#[test]
fn malformed_backups_get_numbered_names() {
    assert_eq!(backup_file_name("settings.toml", 0), "settings.toml.bad");
    assert_eq!(backup_file_name("settings.toml", 1), "settings.toml.bad.1");
    assert_eq!(backup_file_name("settings.toml", 999), "settings.toml.bad.999");
}

#[test]
fn settings_errors_have_messages() {
    assert_eq!(SettingsError::NoConfigDir.message(), "could not resolve a config directory");
    assert_eq!(SettingsError::Io("denied".into()).message(), "settings I/O error: denied");
    assert_eq!(
        SettingsError::BackupPathExhausted("/x/settings.toml".into()).message(),
        "could not choose a backup path for malformed settings at /x/settings.toml"
    );
}

#[test]
fn stale_completion_cannot_settle_a_newer_save() {
    let mut status = SaveStatus::new();
    let first = status.begin_save();
    // The first write is in flight while two newer snapshots queue up.
    let second = status.begin_save();
    let third = status.begin_save();
    assert!(status.pending());
    let (newest, superseded) = coalesce(vec![second, third]);
    assert_eq!(newest, Some(third));
    assert_eq!(superseded, 1);

    status.finish_save(first, &Ok(()));
    assert!(status.pending(), "an old completion cannot acknowledge a newer write");
    status.finish_save(third, &Ok(()));
    assert!(!status.pending());
    assert!(status.error().is_none());
    assert_eq!(coalesce(Vec::<u64>::new()), (None, 0));
}

#[test]
fn failed_save_reports_error_until_a_retry_succeeds() {
    let mut status = SaveStatus::new();
    let revision = status.begin_save();
    status.finish_save(revision, &Err("Is a directory".into()));
    assert!(!status.pending());
    assert_eq!(status.error(), Some("Is a directory".to_string()));
    assert_eq!(
        status.error_text(),
        "Applied for this session; could not save settings: Is a directory"
    );
    let retry = status.begin_save();
    assert!(status.error().is_none());
    status.finish_save(retry, &Ok(()));
    assert!(status.error().is_none());
    assert_eq!(status.error_text(), "");
    status.writer_unavailable();
    assert_eq!(status.error(), Some("Settings worker is unavailable.".to_string()));
}

#[test]
fn joining_follows_the_unix_path_rules() {
    for dir in ["/var/lib/spacewars", "/var/lib/spacewars/", "", "relative/dir", "/"] {
        assert_eq!(
            settings_path_in(dir),
            std::path::Path::new(dir).join(SETTINGS_FILENAME).to_string_lossy().into_owned()
        );
    }
    assert_eq!(settings_path_in("/var/lib/spacewars/"), "/var/lib/spacewars/settings.toml");
    assert_eq!(settings_path_in(""), "settings.toml");
}
