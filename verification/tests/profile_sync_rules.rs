use xareon::error::AppError;
use xareon::storage::digest::sha256_hex;
use xareon::storage::legacy_migration::{
    check_legacy_integrity, profile_is_empty, should_migrate, ProfileContents,
};
use xareon::storage::profile_sync::{
    backup_id, check_backup, check_backup_database, check_backup_file, info_from_state, make_manifest, record_restore, record_upload, select_folder,
    selected_folder, status_for_backup_error, ProfileSyncStorage, sync_info, sync_status, BackupRead, LocalSyncState, SyncStatus,
};

const SHA_A: &str = "ba7816bf8f01cfea414140de5dae2223b00361a396177a9cb410ff61f20015ad";

#[test]
fn checksums_are_lowercase_sha256_hex() {
    assert_eq!(sha256_hex(b"abc"), SHA_A);
    assert_eq!(
        sha256_hex(b""),
        "e3b0c44298fc1c149afbf4c8996fb92427ae41e4649b934ca495991b7852b855"
    );
}

#[test]
fn upload_then_local_change_then_restore() {
    let state = select_folder(LocalSyncState::default(), "/drive".into(), false);
    let manifest = make_manifest(1_700_000_000, "linux", 8, 4096, SHA_A);
    assert_eq!(manifest.backup_id, "1700000000-ba7816bf8f01");
    let uploaded = record_upload(state, &manifest);
    let baseline = uploaded.baseline_sha256.as_deref();
    assert_eq!(sync_status(SHA_A, &manifest.sha256, baseline), SyncStatus::UpToDate);
    assert_eq!(sync_status("changed", &manifest.sha256, baseline), SyncStatus::LocalNewer);
    let restored = record_restore(uploaded, &manifest, 1_700_000_100);
    assert_eq!(restored.last_restore_at, Some(1_700_000_100));
    assert_eq!(restored.last_upload_at, Some(1_700_000_000));
    assert_eq!(
        sync_status(SHA_A, &manifest.sha256, restored.baseline_sha256.as_deref()),
        SyncStatus::UpToDate
    );
}

#[test]
fn another_device_upload_is_newer_and_both_changes_conflict() {
    assert_eq!(sync_status("first", "second", Some("first")), SyncStatus::BackupNewer);
    assert_eq!(sync_status("mine", "second", Some("first")), SyncStatus::Conflict);
    assert_eq!(sync_status("mine", "second", None), SyncStatus::Conflict);
    assert_eq!(sync_status("same", "same", None), SyncStatus::UpToDate);
}

#[test]
fn picking_another_folder_forgets_the_baseline() {
    let mut state = LocalSyncState::default();
    state.folder = Some("/a".into());
    state.baseline_sha256 = Some("x".into());
    state.baseline_backup_id = Some("id".into());
    let same = select_folder(state.clone(), "/a".into(), true);
    assert_eq!(same.baseline_sha256.as_deref(), Some("x"));
    let other = select_folder(state, "/b".into(), false);
    assert_eq!(other.folder.as_deref(), Some("/b"));
    assert_eq!(other.baseline_sha256, None);
    assert_eq!(other.baseline_backup_id, None);
    assert_eq!(
        selected_folder(&LocalSyncState::default()),
        Err(AppError::Validation("select a Google Drive folder first".into()))
    );
    assert_eq!(selected_folder(&other), Ok("/b".to_string()));
}

#[test]
fn backups_are_checked_against_their_manifest() {
    let manifest = make_manifest(10, "macos", 8, 100, SHA_A);
    assert_eq!(check_backup(&manifest, 100, SHA_A, "ok", 8), Ok(()));
    let checksum = Err(AppError::Validation("backup checksum does not match its manifest".into()));
    assert_eq!(check_backup(&manifest, 99, SHA_A, "ok", 8), checksum);
    assert_eq!(check_backup(&manifest, 100, "other", "ok", 8), checksum);
    assert_eq!(
        check_backup(&manifest, 100, SHA_A, "*** broken", 8),
        Err(AppError::Validation("backup integrity check failed: *** broken".into()))
    );
    let version = Err(AppError::Validation("backup schema version is not supported".into()));
    assert_eq!(check_backup(&manifest, 100, SHA_A, "ok", 7), version);
    let newer = make_manifest(10, "macos", 9, 100, SHA_A);
    assert_eq!(check_backup(&newer, 100, SHA_A, "ok", 9), version);
}

#[test]
fn backup_errors_map_to_statuses() {
    let missing = AppError::Validation("backup is not available".into());
    assert_eq!(status_for_backup_error(&missing), (SyncStatus::BackupUnavailable, None));
    let broken = AppError::Validation("backup checksum does not match its manifest".into());
    assert_eq!(
        status_for_backup_error(&broken),
        (
            SyncStatus::InvalidBackup,
            Some("validation error: backup checksum does not match its manifest".to_string())
        )
    );
    let io = AppError::Io("denied".into());
    assert_eq!(status_for_backup_error(&io).0, SyncStatus::InvalidBackup);
}

#[test]
fn info_reports_state_and_backup() {
    let mut state = LocalSyncState::default();
    state.folder = Some("/drive".into());
    state.last_upload_at = Some(5);
    let manifest = make_manifest(42, "windows", 8, 1, SHA_A);
    let info = info_from_state(&state, SyncStatus::LocalNewer, None, Some(&manifest));
    assert_eq!(info.folder.as_deref(), Some("/drive"));
    assert_eq!(info.status, SyncStatus::LocalNewer);
    assert_eq!(info.last_upload_at, Some(5));
    assert_eq!(info.backup_created_at, Some(42));
    assert_eq!(info.backup_platform.as_deref(), Some("windows"));
    let bare = info_from_state(&LocalSyncState::default(), SyncStatus::FolderNotSelected, None, None);
    assert_eq!(bare.backup_created_at, None);
    assert_eq!(bare.folder, None);
    assert_eq!(backup_id(-3, SHA_A), "-3-ba7816bf8f01");
}

#[test]
fn legacy_profile_replaces_only_an_empty_one() {
    let empty = ProfileContents { exists: true, has_games_table: true, games: 0, settings: 0 };
    let used = ProfileContents { exists: true, has_games_table: true, games: 1, settings: 0 };
    let configured = ProfileContents { exists: true, has_games_table: true, games: 0, settings: 2 };
    let foreign = ProfileContents { exists: true, has_games_table: false, games: 0, settings: 0 };
    let missing = ProfileContents { exists: false, has_games_table: false, games: 0, settings: 0 };
    assert!(profile_is_empty(empty) && profile_is_empty(missing));
    assert!(!profile_is_empty(used) && !profile_is_empty(configured) && !profile_is_empty(foreign));
    assert!(should_migrate(true, empty));
    assert!(!should_migrate(false, empty));
    assert!(!should_migrate(true, used));
}

#[test]
fn backup_file_is_checked_before_its_database() {
    let manifest = make_manifest(10, "macos", 8, 100, SHA_A);
    assert_eq!(check_backup_file(&manifest, 100, SHA_A), Ok(()));
    let checksum = Err(AppError::Validation("backup checksum does not match its manifest".into()));
    assert_eq!(check_backup_file(&manifest, 101, SHA_A), checksum);
    assert_eq!(check_backup_file(&manifest, 100, &SHA_A.to_uppercase()), checksum);
    // A file that fails its checksum is reported as such, whatever its database says.
    assert_eq!(check_backup(&manifest, 101, SHA_A, "not a database", 0), checksum);
    assert_eq!(check_backup_database(&manifest, "ok", 8), Ok(()));
    assert_eq!(
        check_backup_database(&manifest, "row 3 missing from index", 8),
        Err(AppError::Validation("backup integrity check failed: row 3 missing from index".into()))
    );
    assert_eq!(
        check_backup_database(&manifest, "ok", 9),
        Err(AppError::Validation("backup schema version is not supported".into()))
    );
}

#[test]
fn legacy_database_must_pass_its_integrity_check() {
    assert_eq!(check_legacy_integrity("ok"), Ok(()));
    assert_eq!(
        check_legacy_integrity("*** in database main ***"),
        Err(AppError::Validation(
            "legacy profile database failed integrity check: *** in database main ***".into()
        ))
    );
    assert!(check_legacy_integrity("OK").is_err());
}

#[test]
fn upload_detects_local_changes_and_restore_recovers_backup() {
    let state = select_folder(LocalSyncState::default(), "/root/drive".into(), false);
    let original = sha256_hex(b"notes: original");
    let changed = sha256_hex(b"notes: changed");

    let manifest = make_manifest(1_700_000_000, "linux", 8, 15, &original);
    let state = record_upload(state, &manifest);
    let info = sync_info(&state, BackupRead::Read(manifest.clone(), original.clone()));
    assert_eq!(info.status, SyncStatus::UpToDate);

    let info = sync_info(&state, BackupRead::Read(manifest.clone(), changed.clone()));
    assert_eq!(info.status, SyncStatus::LocalNewer);

    // Restoring brings the backup's bytes back, so the local checksum is the backup's again.
    let state = record_restore(state, &manifest, 1_700_000_060);
    let info = sync_info(&state, BackupRead::Read(manifest.clone(), original.clone()));
    assert_eq!(info.status, SyncStatus::UpToDate);
    assert_eq!(info.last_restore_at, Some(1_700_000_060));
    assert_eq!(info.backup_platform.as_deref(), Some("linux"));
}

#[test]
fn another_device_upload_is_reported_as_newer_backup() {
    let folder = "/root/drive".to_string();
    let first = select_folder(LocalSyncState::default(), folder.clone(), false);
    let second = select_folder(LocalSyncState::default(), folder, false);
    let first_db = sha256_hex(b"notes: first");
    let second_db = sha256_hex(b"notes: second");

    let uploaded_by_first = make_manifest(100, "macos", 8, 12, &first_db);
    let first = record_upload(first, &uploaded_by_first);
    let second = record_restore(second, &uploaded_by_first, 110);
    let uploaded_by_second = make_manifest(120, "windows", 8, 13, &second_db);
    let _second = record_upload(second, &uploaded_by_second);

    let info = sync_info(&first, BackupRead::Read(uploaded_by_second, first_db));
    assert_eq!(info.status, SyncStatus::BackupNewer);
}

#[test]
fn migrates_legacy_profile_over_an_empty_new_profile() {
    // The new profile has its schema but no games and no settings yet.
    let fresh = ProfileContents { exists: true, has_games_table: true, games: 0, settings: 0 };
    assert!(should_migrate(true, fresh));
}

#[test]
fn never_overwrites_a_non_empty_new_profile() {
    let current = ProfileContents { exists: true, has_games_table: true, games: 1, settings: 0 };
    assert!(!should_migrate(true, current));
}

#[test]
fn the_database_lives_in_the_data_directory() {
    let storage = ProfileSyncStorage::new("/home/u/.config/xareon".into(), "/home/u/.local/share/xareon".into());
    assert_eq!(storage.config_dir, "/home/u/.config/xareon");
    assert_eq!(storage.database_path(), "/home/u/.local/share/xareon/xareon.db");
    let trailing = ProfileSyncStorage::new(String::new(), "/data/".into());
    assert_eq!(trailing.database_path(), "/data/xareon.db");
    let empty = ProfileSyncStorage::new(String::new(), String::new());
    assert_eq!(empty.database_path(), "xareon.db");
}
