//! Settings file bookkeeping: where the file lives, what loading it found,
//! the names of malformed-file backups, and the status of the ordered
//! background writer.

use vstd::prelude::*;

use crate::text::{decimal, push_decimal, push_str};

verus! {

/// Settings filename within the config directory.
pub const SETTINGS_FILENAME: &'static str = "settings.toml";

/// Environment variable that overrides the platform's config directory.
pub const CONFIG_DIR_ENV: &'static str = "SPACEWARS_CONFIG_DIR";

/// Backup names tried for one malformed file.
pub const BACKUP_ATTEMPTS: usize = 1000;

/// What loading the settings file found.
#[derive(Debug, Clone, PartialEq, Eq)]
pub enum LoadStatus {
    /// The file existed and already matched the normalized schema.
    Existing,
    /// The file did not exist; defaults should be written.
    Missing,
    /// The file was readable but needs writing back with defaults or
    /// normalized formatting.
    Migrated,
    /// The file was malformed; a byte-for-byte backup was written and
    /// defaults replace the original.
    RecoveredMalformed { backup_path: String, reason: String },
}

impl LoadStatus {
    /// Everything but an up-to-date existing file is written back.
    pub fn needs_writeback(&self) -> (writeback: bool)
        ensures
            writeback == !(self is Existing),
    {
        match self {
            LoadStatus::Existing => false,
            _ => true,
        }
    }
}

/// The status of a parsed file: existing when its bytes are already the
/// normalized text, migrated otherwise.
pub fn load_status(normalized: &[u8], original: &[u8]) -> (status: LoadStatus)
    ensures
        status == if normalized@ == original@ {
            LoadStatus::Existing
        } else {
            LoadStatus::Migrated
        },
{
    if normalized.len() != original.len() {
        return LoadStatus::Migrated;
    }
    let mut i: usize = 0;
    while i < normalized.len()
        invariant
            normalized.len() == original.len(),
            i <= normalized.len(),
            forall|k: int| 0 <= k < i ==> normalized@[k] == original@[k],
        decreases normalized.len() - i,
    {
        if normalized[i] != original[i] {
            return LoadStatus::Migrated;
        }
        i = i + 1;
    }
    assert(normalized@ =~= original@);
    LoadStatus::Existing
}

/// Why settings could not be loaded or saved.
#[derive(Debug, Clone, PartialEq, Eq)]
pub enum SettingsError {
    /// No config directory could be resolved.
    NoConfigDir,
    /// Filesystem I/O failed.
    Io(String),
    /// Serializing the settings failed.
    Serialize(String),
    /// Every backup name for this malformed file is taken.
    BackupPathExhausted(String),
}

/// The message for a settings error.
pub open spec fn settings_error_text(error: SettingsError) -> Seq<char> {
    match error {
        SettingsError::NoConfigDir => "could not resolve a config directory"@,
        SettingsError::Io(e) => "settings I/O error: "@ + e@,
        SettingsError::Serialize(e) => "settings serialize error: "@ + e@,
        SettingsError::BackupPathExhausted(path) =>
            "could not choose a backup path for malformed settings at "@ + path@,
    }
}

impl SettingsError {
    /// The error's message.
    pub fn message(&self) -> (text: String)
        ensures
            text@ == settings_error_text(*self),
    {
        let mut text = String::new();
        match self {
            SettingsError::NoConfigDir => push_str(&mut text, "could not resolve a config directory"),
            SettingsError::Io(e) => {
                push_str(&mut text, "settings I/O error: ");
                push_str(&mut text, e.as_str());
            },
            SettingsError::Serialize(e) => {
                push_str(&mut text, "settings serialize error: ");
                push_str(&mut text, e.as_str());
            },
            SettingsError::BackupPathExhausted(path) => {
                push_str(&mut text, "could not choose a backup path for malformed settings at ");
                push_str(&mut text, path.as_str());
            },
        }
        text
    }
}

/// The path `Path::new(dir).join(name)` names on Unix: an absolute `name`
/// (one that starts at the root, `/`) replaces `dir`; otherwise `name`
/// follows `dir`, with a `/` between them unless `dir` is empty or already
/// ends in one.
pub open spec fn joined_path(dir: Seq<char>, name: Seq<char>) -> Seq<char> {
    if name.len() > 0 && name[0] == '/' {
        name
    } else if dir.len() == 0 || dir.last() == '/' {
        dir + name
    } else {
        dir + seq!['/'] + name
    }
}

/// Joins a file name onto a directory as `Path::join` does on Unix.
pub(crate) fn join_path(dir: &str, name: &str) -> (path: String)
    ensures
        path@ == joined_path(dir@, name@),
{
    let name_chars = crate::text::chars_of(name);
    let dir_chars = crate::text::chars_of(dir);
    if name_chars.len() > 0 && name_chars[0] == '/' {
        return crate::text::owned(name);
    }
    let mut path = crate::text::owned(dir);
    if dir_chars.len() > 0 && dir_chars[dir_chars.len() - 1] != '/' {
        crate::text::push_char(&mut path, '/');
    }
    push_str(&mut path, name);
    proof {
        if dir@.len() > 0 && dir@.last() != '/' {
            assert(dir@.push('/') + name@ =~= dir@ + seq!['/'] + name@);
        }
    }
    path
}

/// The application's name among the platform's config directories.
pub const APPLICATION_NAME: &'static str = "spacewars";

/// The platform's config directory for the application named `application`
/// (`directories::ProjectDirs::from("", "", application)`, then
/// `config_dir`); `None` without a home directory. It depends on the
/// environment, so nothing is promised of it.
#[verifier::external_body]
fn project_config_dir(application: &str) -> (dir: Option<String>) {
    match directories::ProjectDirs::from("", "", application) {
        Some(dirs) => Some(dirs.config_dir().to_string_lossy().into_owned()),
        None => None,
    }
}

/// The settings file inside `config_dir`.
pub fn settings_path_in(config_dir: &str) -> (path: String)
    ensures
        path@ == joined_path(config_dir@, SETTINGS_FILENAME@),
{
    join_path(config_dir, SETTINGS_FILENAME)
}

/// Full path to the settings file: inside `override_dir` when the
/// environment names one, else inside the platform's config directory.
pub fn settings_path(override_dir: Option<String>) -> (r: Result<String, SettingsError>)
    ensures
        match override_dir {
            Some(dir) => r matches Ok(path) && path@ == joined_path(dir@, SETTINGS_FILENAME@),
            None => match r {
                Ok(path) => exists|dir: Seq<char>| path@ == joined_path(dir, SETTINGS_FILENAME@),
                Err(e) => e == SettingsError::NoConfigDir,
            },
        },
{
    let dir = match override_dir {
        Some(dir) => dir,
        None => match project_config_dir(APPLICATION_NAME) {
            Some(dir) => dir,
            None => return Err(SettingsError::NoConfigDir),
        },
    };
    Ok(settings_path_in(dir.as_str()))
}

/// The name of backup number `attempt` for a malformed file named
/// `file_name`: `NAME.bad`, then `NAME.bad.1`, `NAME.bad.2`, ...
pub open spec fn backup_name_text(file_name: Seq<char>, attempt: nat) -> Seq<char> {
    if attempt == 0 {
        file_name + ".bad"@
    } else {
        file_name + ".bad."@ + decimal(attempt)
    }
}

/// Names backup number `attempt` of a malformed file.
pub fn backup_file_name(file_name: &str, attempt: usize) -> (name: String)
    ensures
        name@ == backup_name_text(file_name@, attempt as nat),
{
    let mut name = String::new();
    push_str(&mut name, file_name);
    if attempt == 0 {
        push_str(&mut name, ".bad");
    } else {
        push_str(&mut name, ".bad.");
        push_decimal(&mut name, attempt as u128);
    }
    name
}

/// Backup names for one file never repeat: different attempts give
/// different names.
pub proof fn lemma_backup_names_differ(file_name: Seq<char>, a: nat, b: nat)
    requires
        a != b,
    ensures
        backup_name_text(file_name, a) != backup_name_text(file_name, b),
{
    reveal_strlit(".bad");
    reveal_strlit(".bad.");
    crate::text::lemma_decimal_injective(a, b);
    if a == 0 || b == 0 {
        let (zero, other) = if a == 0 { (a, b) } else { (b, a) };
        let short = backup_name_text(file_name, zero);
        let long = backup_name_text(file_name, other);
        crate::text::lemma_decimal_nonempty(other);
        assert(long.len() > short.len());
    } else {
        let x = backup_name_text(file_name, a);
        let y = backup_name_text(file_name, b);
        let prefix = file_name + ".bad."@;
        if x == y {
            assert(x.subrange(prefix.len() as int, x.len() as int) =~= decimal(a));
            assert(y.subrange(prefix.len() as int, y.len() as int) =~= decimal(b));
        }
    }
}


/// The message when the background writer is gone before a save.
pub const WORKER_UNAVAILABLE_MESSAGE: &'static str = "Settings worker is unavailable.";

/// The message when the background writer is gone during a save.
pub const WORKER_STOPPED_MESSAGE: &'static str = "Settings worker stopped unexpectedly.";

/// What the writer's status reports: the newest requested revision, whether
/// it is still being written, and why the newest finished write failed.
pub ghost struct SaveStatusView {
    pub revision: u64,
    pub pending: bool,
    pub error: Option<Seq<char>>,
}

/// The status after the write of `revision` finished with `error`: only the
/// newest revision settles the status; an older completion changes nothing.
pub open spec fn settled(before: SaveStatusView, revision: u64, error: Option<Seq<char>>) -> SaveStatusView {
    if revision == before.revision {
        SaveStatusView { pending: false, error, ..before }
    } else {
        before
    }
}

/// The status of the ordered background settings writer.
#[derive(Debug, Clone, Default)]
pub struct SaveStatus {
    revision: u64,
    pending: bool,
    error: Option<String>,
}

impl View for SaveStatus {
    type V = SaveStatusView;

    closed spec fn view(&self) -> SaveStatusView {
        SaveStatusView {
            revision: self.revision,
            pending: self.pending,
            error: crate::runtime::error_view(self.error),
        }
    }
}

impl SaveStatus {
    /// Nothing requested yet.
    pub fn new() -> (status: Self)
        ensures
            status@ == (SaveStatusView { revision: 0, pending: false, error: None }),
    {
        SaveStatus { revision: 0, pending: false, error: None }
    }

    /// The newest requested revision.
    pub fn revision(&self) -> (revision: u64)
        ensures
            revision == self@.revision,
    {
        self.revision
    }

    /// A write is under way.
    pub fn pending(&self) -> (pending: bool)
        ensures
            pending == self@.pending,
    {
        self.pending
    }

    /// Why the newest finished write failed.
    pub fn error(&self) -> (error: Option<String>)
        ensures
            crate::runtime::error_view(error) == self@.error,
    {
        match &self.error {
            Some(text) => Some(text.clone()),
            None => None,
        }
    }

    /// Requests a save: a new revision that is pending without error.
    /// Returns the revision.
    pub fn begin_save(&mut self) -> (revision: u64)
        requires
            old(self)@.revision < u64::MAX,
        ensures
            revision == old(self)@.revision + 1,
            final(self)@ == (SaveStatusView { revision, pending: true, error: None }),
    {
        self.revision = self.revision + 1;
        self.pending = true;
        self.error = None;
        self.revision
    }

    /// The request could not reach the writer.
    pub fn writer_unavailable(&mut self)
        ensures
            final(self)@ == (SaveStatusView {
                pending: false,
                error: Some(WORKER_UNAVAILABLE_MESSAGE@),
                ..old(self)@
            }),
    {
        self.pending = false;
        self.error = Some(crate::text::owned(WORKER_UNAVAILABLE_MESSAGE));
    }

    /// The write of `revision` finished with `result`.
    pub fn finish_save(&mut self, revision: u64, result: &Result<(), String>)
        ensures
            final(self)@ == settled(
                old(self)@,
                revision,
                match result {
                    Ok(_) => None,
                    Err(e) => Some(e@),
                },
            ),
    {
        if self.revision == revision {
            self.pending = false;
            self.error = match result {
                Ok(_) => None,
                Err(e) => Some(e.clone()),
            };
        }
    }

    /// What the settings screens show for the status: empty, or why the
    /// newest write failed.
    pub fn error_text(&self) -> (text: String)
        ensures
            text@ == match self@.error {
                Some(e) => "Applied for this session; could not save settings: "@ + e,
                None => Seq::<char>::empty(),
            },
    {
        let mut text = String::new();
        match &self.error {
            Some(e) => {
                push_str(&mut text, "Applied for this session; could not save settings: ");
                push_str(&mut text, e.as_str());
            },
            None => {},
        }
        text
    }
}

/// Only the newest request settles the writer's status: a completion of an
/// older revision leaves it pending, and the newest one clears `pending` and
/// reports exactly its own error.
pub proof fn lemma_only_newest_save_settles(
    before: SaveStatusView,
    revision: u64,
    error: Option<Seq<char>>,
)
    ensures
        revision != before.revision ==> settled(before, revision, error) == before,
        revision == before.revision ==> !settled(before, revision, error).pending
            && settled(before, revision, error).error == error,
        settled(before, revision, error).revision == before.revision,
{
}

/// The writer writes only the newest of the queued snapshots; every queued
/// request is answered with that write's result. Returns the newest and how
/// many it superseded.
pub fn coalesce<T>(queued: Vec<T>) -> (r: (Option<T>, usize))
    ensures
        queued@.len() == 0 ==> r.0 is None && r.1 == 0,
        queued@.len() > 0 ==> r.0 == Some(queued@.last()) && r.1 == queued@.len() - 1,
{
    let mut queued = queued;
    let superseded = if queued.len() == 0 { 0 } else { queued.len() - 1 };
    (queued.pop(), superseded)
}

} // verus!
