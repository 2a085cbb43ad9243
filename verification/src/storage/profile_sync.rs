//! Profile sync through a shared folder: what a backup manifest holds, the
//! local sync state, and how the two decide the sync status.
use vstd::prelude::*;
use crate::error::{AppError, fails_with};
use crate::services::achievement::opt_text;
use crate::repositories::game_process::plain_name;
use crate::text::has_suffix;

verus! {

/// The snapshot file inside the sync folder.
pub const BACKUP_FILE: &'static str = "xareon-backup.sqlite";

/// The manifest file inside the sync folder.
pub const MANIFEST_FILE: &'static str = "xareon-backup.json";

/// The local sync state file inside the config directory.
pub const LOCAL_STATE_FILE: &'static str = "profile-sync.json";

/// The profile database inside the data directory.
pub const DATABASE_FILE: &'static str = "xareon.db";

/// Where profile sync works: this installation's config directory, which
/// holds the local sync state, and its data directory, which holds the
/// profile database and the safety copies.
#[derive(Debug, Clone)]
pub struct ProfileSyncStorage {
    pub config_dir: String,
    pub data_dir: String,
}

impl ProfileSyncStorage {
    /// Profile sync over the given directories.
    pub fn new(config_dir: String, data_dir: String) -> (r: ProfileSyncStorage)
        ensures
            r.config_dir@ == config_dir@,
            r.data_dir@ == data_dir@,
    {
        ProfileSyncStorage { config_dir, data_dir }
    }

    /// The profile database: the data directory joined with its file name.
    pub fn database_path(&self) -> (r: String)
        ensures
            has_suffix(r@, DATABASE_FILE@),
            !self.data_dir@.contains('\\') ==> r@.subrange(0, self.data_dir@.len() as int)
                == self.data_dir@ && r@.len() <= self.data_dir@.len() + 1 + DATABASE_FILE@.len(),
    {
        proof {
            lemma_database_file_is_plain();
        }
        join_path(self.data_dir.as_str(), DATABASE_FILE)
    }
}

/// The database file name is a plain name.
proof fn lemma_database_file_is_plain()
    ensures
        plain_name(DATABASE_FILE@),
{
    reveal_strlit("xareon.db");
    reveal_strlit(".");
    reveal_strlit("..");
    let s = DATABASE_FILE@;
    assert(s.len() == 9);
    assert forall|i: int| 0 <= i < 9 implies s[i] != '/' && s[i] != '\\' && s[i] != ':' by {
        if i == 0 {
        } else if i == 1 {
        } else if i == 2 {
        } else if i == 3 {
        } else if i == 4 {
        } else if i == 5 {
        } else if i == 6 {
        } else if i == 7 {
        } else {
        }
    }
}

/// `Path::join` of a directory and a file name, read back as text. A plain
/// file name ends the result; a directory without `\` (so without a Windows
/// verbatim prefix) starts it, and at most one separator comes between.
/// Which separator, if any, depends on the platform and is not stated.
#[verifier::external_body]
fn join_path(dir: &str, name: &str) -> (r: String)
    ensures
        plain_name(name@) ==> has_suffix(r@, name@),
        plain_name(name@) && !dir@.contains('\\') ==> r@.subrange(0, dir@.len() as int) == dir@
            && r@.len() <= dir@.len() + 1 + name@.len(),
{
    std::path::Path::new(dir).join(name).to_string_lossy().into_owned()
}

/// Describes the snapshot in the sync folder.
#[derive(Debug, Clone)]
pub struct BackupManifest {
    pub backup_id: String,
    pub created_at: i64,
    pub platform: String,
    pub schema_version: i64,
    pub size_bytes: u64,
    pub sha256: String,
}

/// What this installation remembers about syncing: the folder and the
/// checksum both sides agreed on last (the baseline).
#[derive(Debug, Clone)]
pub struct LocalSyncState {
    pub folder: Option<String>,
    pub last_upload_at: Option<i64>,
    pub last_restore_at: Option<i64>,
    pub baseline_sha256: Option<String>,
    pub baseline_backup_id: Option<String>,
}

impl Default for LocalSyncState {
    fn default() -> (r: LocalSyncState)
        ensures
            r.folder is None,
            r.last_upload_at is None,
            r.last_restore_at is None,
            r.baseline_sha256 is None,
            r.baseline_backup_id is None,
    {
        LocalSyncState {
            folder: None,
            last_upload_at: None,
            last_restore_at: None,
            baseline_sha256: None,
            baseline_backup_id: None,
        }
    }
}

/// How the local profile relates to the backup in the sync folder.
#[derive(Debug, Clone, Copy, PartialEq, Eq, Structural)]
pub enum SyncStatus {
    FolderNotSelected,
    BackupUnavailable,
    UpToDate,
    LocalNewer,
    BackupNewer,
    Conflict,
    InvalidBackup,
}

/// What the settings page shows about sync.
#[derive(Debug, Clone)]
pub struct ProfileSyncInfo {
    pub folder: Option<String>,
    pub status: SyncStatus,
    pub status_detail: Option<String>,
    pub last_upload_at: Option<i64>,
    pub last_restore_at: Option<i64>,
    pub backup_created_at: Option<i64>,
    pub backup_platform: Option<String>,
}

/// The sync status from the local checksum, the backup's checksum and the
/// baseline: equal checksums are up to date; otherwise the side that still
/// holds the baseline is the older one, and without a usable baseline the
/// two sides conflict.
pub open spec fn status_of(local: Seq<char>, backup: Seq<char>, baseline: Option<Seq<char>>) -> SyncStatus {
    if local == backup {
        SyncStatus::UpToDate
    } else {
        match baseline {
            Some(b) => if local == b && backup != b {
                SyncStatus::BackupNewer
            } else if local != b && backup == b {
                SyncStatus::LocalNewer
            } else if local != b && backup != b {
                SyncStatus::Conflict
            } else {
                SyncStatus::UpToDate
            },
            None => SyncStatus::Conflict,
        }
    }
}

/// Compare the local snapshot's checksum with the backup's.
pub fn sync_status(local_sha256: &str, backup_sha256: &str, baseline_sha256: Option<&str>) -> (r: SyncStatus)
    ensures
        r == status_of(local_sha256@, backup_sha256@, match baseline_sha256 {
            Some(b) => Some(b@),
            None => None,
        }),
{
    let local = local_sha256.to_owned();
    let backup = backup_sha256.to_owned();
    if local == backup {
        SyncStatus::UpToDate
    } else {
        match baseline_sha256 {
            Some(b) => {
                let baseline = b.to_owned();
                let local_is_base = local == baseline;
                let backup_is_base = backup == baseline;
                if local_is_base && !backup_is_base {
                    SyncStatus::BackupNewer
                } else if !local_is_base && backup_is_base {
                    SyncStatus::LocalNewer
                } else if !local_is_base && !backup_is_base {
                    SyncStatus::Conflict
                } else {
                    SyncStatus::UpToDate
                }
            },
            None => SyncStatus::Conflict,
        }
    }
}

/// The sync information of a state, with the status found and, when the
/// backup was read, its creation time and platform.
pub fn info_from_state(
    state: &LocalSyncState,
    status: SyncStatus,
    status_detail: Option<String>,
    manifest: Option<&BackupManifest>,
) -> (r: ProfileSyncInfo)
    ensures
        opt_text(r.folder) == opt_text(state.folder),
        r.status == status,
        opt_text(r.status_detail) == opt_text(status_detail),
        r.last_upload_at == state.last_upload_at,
        r.last_restore_at == state.last_restore_at,
        r.backup_created_at == match manifest {
            Some(m) => Some(m.created_at),
            None => None,
        },
        opt_text(r.backup_platform) == match manifest {
            Some(m) => Some(m.platform@),
            None => None,
        },
{
    ProfileSyncInfo {
        folder: state.folder.clone(),
        status,
        status_detail,
        last_upload_at: state.last_upload_at,
        last_restore_at: state.last_restore_at,
        backup_created_at: match manifest {
            Some(m) => Some(m.created_at),
            None => None,
        },
        backup_platform: match manifest {
            Some(m) => Some(m.platform.clone()),
            None => None,
        },
    }
}

/// The message of a missing backup.
pub open spec fn unavailable_message() -> Seq<char> {
    "backup is not available"@
}

/// The status a failed backup check shows: a missing backup is unavailable;
/// any other failure marks the backup invalid and explains why.
pub fn status_for_backup_error(error: &AppError) -> (r: (SyncStatus, Option<String>))
    ensures
        (error matches AppError::Validation(m) && m@ == unavailable_message()) ==> r.0
            == SyncStatus::BackupUnavailable && r.1 is None,
        !(error matches AppError::Validation(m) && m@ == unavailable_message()) ==> r.0
            == SyncStatus::InvalidBackup && opt_text(r.1) == Some(error.spec_message()),
{
    if let AppError::Validation(m) = error {
        if crate::text::str_eq(m.as_str(), "backup is not available") {
            return (SyncStatus::BackupUnavailable, None);
        }
    }
    (SyncStatus::InvalidBackup, Some(error.message()))
}

/// The folder to sync with, or the request to pick one first.
pub fn selected_folder(state: &LocalSyncState) -> (r: Result<String, AppError>)
    ensures
        state.folder matches Some(f) ==> r matches Ok(g) && g@ == f@,
        state.folder is None ==> fails_with(r, "select a Google Drive folder first"@),
{
    match &state.folder {
        Some(f) => Ok(f.clone()),
        None => Err(AppError::validation("select a Google Drive folder first")),
    }
}

/// The state after the user picks a folder. When it is another folder than
/// before (`same_folder` false), the baseline is forgotten: nothing has been
/// agreed with the new folder yet.
pub fn select_folder(state: LocalSyncState, folder: String, same_folder: bool) -> (r: LocalSyncState)
    ensures
        same_folder ==> opt_text(r.folder) == opt_text(state.folder),
        !same_folder ==> opt_text(r.folder) == Some(folder@),
        same_folder ==> opt_text(r.baseline_sha256) == opt_text(state.baseline_sha256)
            && opt_text(r.baseline_backup_id) == opt_text(state.baseline_backup_id),
        !same_folder ==> r.baseline_sha256 is None && r.baseline_backup_id is None,
        r.last_upload_at == state.last_upload_at,
        r.last_restore_at == state.last_restore_at,
{
    let mut state = state;
    if !same_folder {
        state.folder = Some(folder);
        state.baseline_sha256 = None;
        state.baseline_backup_id = None;
    }
    state
}

/// The identifier of a backup: its creation time and the first twelve hex
/// digits of its checksum.
pub open spec fn backup_id_text(created_at: i64, sha256: Seq<char>) -> Seq<char> {
    crate::text::int_text(created_at as int) + "-"@ + sha256.subrange(0, 12)
}

/// `format!("{created_at}-{}", &sha256[..12])`.
pub fn backup_id(created_at: i64, sha256: &str) -> (r: String)
    requires
        sha256@.len() >= 12,
    ensures
        r@ == backup_id_text(created_at, sha256@),
{
    let mut id = crate::text::i64_text(created_at);
    id.append("-");
    id.append(sha256.substring_char(0, 12));
    id
}

/// The manifest of a snapshot just written.
pub fn make_manifest(
    created_at: i64,
    platform: &str,
    schema_version: i64,
    size_bytes: u64,
    sha256: &str,
) -> (r: BackupManifest)
    requires
        sha256@.len() >= 12,
    ensures
        r.backup_id@ == backup_id_text(created_at, sha256@),
        r.created_at == created_at,
        r.platform@ == platform@,
        r.schema_version == schema_version,
        r.size_bytes == size_bytes,
        r.sha256@ == sha256@,
{
    BackupManifest {
        backup_id: backup_id(created_at, sha256),
        created_at,
        platform: platform.to_owned(),
        schema_version,
        size_bytes,
        sha256: sha256.to_owned(),
    }
}

/// The state after uploading: the uploaded checksum becomes the baseline.
pub fn record_upload(state: LocalSyncState, manifest: &BackupManifest) -> (r: LocalSyncState)
    ensures
        opt_text(r.folder) == opt_text(state.folder),
        r.last_upload_at == Some(manifest.created_at),
        r.last_restore_at == state.last_restore_at,
        opt_text(r.baseline_sha256) == Some(manifest.sha256@),
        opt_text(r.baseline_backup_id) == Some(manifest.backup_id@),
{
    let mut state = state;
    state.last_upload_at = Some(manifest.created_at);
    state.baseline_sha256 = Some(manifest.sha256.clone());
    state.baseline_backup_id = Some(manifest.backup_id.clone());
    state
}

/// The state after restoring a backup at time `now`: the restored checksum
/// becomes the baseline.
pub fn record_restore(state: LocalSyncState, manifest: &BackupManifest, now: i64) -> (r: LocalSyncState)
    ensures
        opt_text(r.folder) == opt_text(state.folder),
        r.last_upload_at == state.last_upload_at,
        r.last_restore_at == Some(now),
        opt_text(r.baseline_sha256) == Some(manifest.sha256@),
        opt_text(r.baseline_backup_id) == Some(manifest.backup_id@),
{
    let mut state = state;
    state.last_restore_at = Some(now);
    state.baseline_sha256 = Some(manifest.sha256.clone());
    state.baseline_backup_id = Some(manifest.backup_id.clone());
    state
}

/// The problem of a backup file whose size or checksum differs from its
/// manifest.
pub open spec fn file_problem(manifest: BackupManifest, size_bytes: u64, sha256: Seq<char>) -> Option<
    Seq<char>,
> {
    if size_bytes != manifest.size_bytes || sha256 != manifest.sha256@ {
        Some("backup checksum does not match its manifest"@)
    } else {
        None
    }
}

/// The problem of a backup database: a failed integrity check, or a schema
/// version that is not the manifest's or is newer than this code's.
pub open spec fn database_problem(
    manifest: BackupManifest,
    integrity: Seq<char>,
    version: i64,
    current_version: i64,
) -> Option<Seq<char>> {
    if integrity != "ok"@ {
        Some("backup integrity check failed: "@ + integrity)
    } else if version != manifest.schema_version || version > current_version {
        Some("backup schema version is not supported"@)
    } else {
        None
    }
}

/// The first problem a read backup has, as its message.
pub open spec fn backup_problem(
    manifest: BackupManifest,
    size_bytes: u64,
    sha256: Seq<char>,
    integrity: Seq<char>,
    version: i64,
    current_version: i64,
) -> Option<Seq<char>> {
    match file_problem(manifest, size_bytes, sha256) {
        Some(m) => Some(m),
        None => database_problem(manifest, integrity, version, current_version),
    }
}

/// Check the backup file against its manifest: size and checksum must match.
/// This comes first, before the file is opened as a database.
pub fn check_backup_file(manifest: &BackupManifest, size_bytes: u64, sha256: &str) -> (r: Result<
    (),
    AppError,
>)
    ensures
        match file_problem(*manifest, size_bytes, sha256@) {
            Some(m) => fails_with(r, m),
            None => r is Ok,
        },
{
    if size_bytes != manifest.size_bytes || !crate::text::str_eq(sha256, manifest.sha256.as_str()) {
        return Err(AppError::validation("backup checksum does not match its manifest"));
    }
    Ok(())
}

/// Check the backup database: it must pass its integrity check, and its
/// schema version must be the manifest's and not newer than this code's.
pub fn check_backup_database(manifest: &BackupManifest, integrity: &str, version: i64) -> (r: Result<
    (),
    AppError,
>)
    ensures
        match database_problem(
            *manifest,
            integrity@,
            version,
            crate::db::migrations::MIGRATION_COUNT as i64,
        ) {
            Some(m) => fails_with(r, m),
            None => r is Ok,
        },
{
    if !crate::text::str_eq(integrity, "ok") {
        return Err(AppError::Validation(crate::text::concat("backup integrity check failed: ", integrity)));
    }
    if version != manifest.schema_version || version > crate::db::migrations::current_version() {
        return Err(AppError::validation("backup schema version is not supported"));
    }
    Ok(())
}

/// Check a backup against its manifest: the file first, then the database.
pub fn check_backup(
    manifest: &BackupManifest,
    size_bytes: u64,
    sha256: &str,
    integrity: &str,
    version: i64,
) -> (r: Result<(), AppError>)
    ensures
        match backup_problem(
            *manifest,
            size_bytes,
            sha256@,
            integrity@,
            version,
            crate::db::migrations::MIGRATION_COUNT as i64,
        ) {
            Some(m) => fails_with(r, m),
            None => r is Ok,
        },
{
    check_backup_file(manifest, size_bytes, sha256)?;
    check_backup_database(manifest, integrity, version)
}

/// The sync status after this installation uploads and nothing changes since:
/// up to date; once the local profile changes: local is newer.
pub proof fn lemma_upload_then_status(
    uploaded: LocalSyncState,
    manifest: BackupManifest,
    changed: Seq<char>,
)
    requires
        opt_text(uploaded.baseline_sha256) == Some(manifest.sha256@),
        changed != manifest.sha256@,
    ensures
        status_of(manifest.sha256@, manifest.sha256@, opt_text(uploaded.baseline_sha256))
            == SyncStatus::UpToDate,
        status_of(changed, manifest.sha256@, opt_text(uploaded.baseline_sha256))
            == SyncStatus::LocalNewer,
{
}

/// When another installation uploads a different profile over the agreed
/// baseline while this one is unchanged, the backup is newer; when both sides
/// changed, they conflict; and a restore makes both sides agree again.
pub proof fn lemma_other_device_upload(baseline: Seq<char>, other: Seq<char>, local_change: Seq<char>)
    requires
        other != baseline,
        local_change != baseline,
        local_change != other,
    ensures
        status_of(baseline, other, Some(baseline)) == SyncStatus::BackupNewer,
        status_of(local_change, other, Some(baseline)) == SyncStatus::Conflict,
        status_of(other, other, Some(other)) == SyncStatus::UpToDate,
        status_of(local_change, other, None) == SyncStatus::Conflict,
{
}

/// Equal checksums are always up to date, whatever the baseline; different
/// checksums never are.
pub proof fn lemma_status_up_to_date_iff_equal(local: Seq<char>, backup: Seq<char>, baseline: Option<Seq<char>>)
    ensures
        (status_of(local, backup, baseline) == SyncStatus::UpToDate) <==> local == backup,
{
}


/// What reading the sync folder found.
#[derive(Debug, Clone)]
pub enum BackupRead {
    /// The selected folder is not there.
    FolderUnavailable,
    /// The backup could not be read or failed its checks.
    Failed(AppError),
    /// The backup's manifest, and the checksum of a fresh local snapshot.
    Read(BackupManifest, String),
}

/// The message of a folder that disappeared.
pub open spec fn folder_unavailable_message() -> Seq<char> {
    "The selected folder is unavailable."@
}

/// The sync information for a state and what reading its folder found. With
/// no folder selected nothing was read.
pub fn sync_info(state: &LocalSyncState, read: BackupRead) -> (r: ProfileSyncInfo)
    ensures
        opt_text(r.folder) == opt_text(state.folder),
        r.last_upload_at == state.last_upload_at,
        r.last_restore_at == state.last_restore_at,
        state.folder is None ==> r.status == SyncStatus::FolderNotSelected && r.status_detail is None
            && r.backup_created_at is None && r.backup_platform is None,
        state.folder is Some ==> match read {
            BackupRead::FolderUnavailable => r.status == SyncStatus::BackupUnavailable
                && opt_text(r.status_detail) == Some(folder_unavailable_message())
                && r.backup_created_at is None && r.backup_platform is None,
            BackupRead::Failed(e) => {
                &&& (e matches AppError::Validation(m) && m@ == unavailable_message()) ==> r.status
                    == SyncStatus::BackupUnavailable && r.status_detail is None
                &&& !(e matches AppError::Validation(m) && m@ == unavailable_message()) ==> r.status
                    == SyncStatus::InvalidBackup && opt_text(r.status_detail) == Some(e.spec_message())
                &&& r.backup_created_at is None && r.backup_platform is None
            },
            BackupRead::Read(m, local) => r.status == status_of(
                local@,
                m.sha256@,
                opt_text(state.baseline_sha256),
            ) && r.status_detail is None && r.backup_created_at == Some(m.created_at) && opt_text(
                r.backup_platform,
            ) == Some(m.platform@),
        },
{
    if state.folder.is_none() {
        return info_from_state(state, SyncStatus::FolderNotSelected, None, None);
    }
    match read {
        BackupRead::FolderUnavailable => info_from_state(
            state,
            SyncStatus::BackupUnavailable,
            Some("The selected folder is unavailable.".to_owned()),
            None,
        ),
        BackupRead::Failed(e) => {
            let (status, detail) = status_for_backup_error(&e);
            info_from_state(state, status, detail, None)
        },
        BackupRead::Read(m, local) => {
            let status = match &state.baseline_sha256 {
                Some(b) => sync_status(local.as_str(), m.sha256.as_str(), Some(b.as_str())),
                None => sync_status(local.as_str(), m.sha256.as_str(), None),
            };
            info_from_state(state, status, None, Some(&m))
        },
    }
}

} // verus!
