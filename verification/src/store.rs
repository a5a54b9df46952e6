//! Loading the persisted state: which schema version a document has, and what
//! has to happen before it can be used.

use vstd::prelude::*;
use vstd::string::*;
use crate::identity::{derive_identity, identity_of, HardwareId};
use crate::yaml::{
    parse_yaml, yaml_entry, yaml_entry_of, yaml_parse_of, yaml_unsigned, yaml_unsigned_of,
};

verus! {

/// The schema version of a persisted document.
#[derive(Clone, Copy, Debug, PartialEq, Eq, Structural)]
pub enum StateVersion {
    /// The legacy layout, which carries no version field.
    V0,
    /// The current layout.
    V1,
}

/// What a document shows under its `version` key.
#[derive(Clone, Copy, Debug, PartialEq, Eq, Structural)]
pub enum VersionMarker {
    /// The document has no such key.
    Missing,
    /// The key holds this unsigned number.
    Number(u64),
    /// The key holds something that is no unsigned number.
    Unreadable,
}

/// The version that a marker stands for: a document without the key, or with
/// the number 0, is legacy; the number 1 is current; anything else is unknown.
pub open spec fn version_of(marker: VersionMarker) -> Option<StateVersion> {
    match marker {
        VersionMarker::Missing => Some(StateVersion::V0),
        VersionMarker::Number(n) => if n == 0 {
            Some(StateVersion::V0)
        } else if n == 1 {
            Some(StateVersion::V1)
        } else {
            None
        },
        VersionMarker::Unreadable => None,
    }
}

/// The marker of a document.
pub open spec fn marker_of(document: serde_yml::Value) -> VersionMarker {
    match yaml_entry_of(document, "version"@) {
        None => VersionMarker::Missing,
        Some(node) => match yaml_unsigned_of(node) {
            Some(n) => VersionMarker::Number(n),
            None => VersionMarker::Unreadable,
        },
    }
}

/// The backup sibling of a state file: the same path with `.v0.bak` appended.
pub open spec fn backup_of(path: Seq<char>) -> Seq<char> {
    path + ".v0.bak"@
}

/// The version that a marker stands for, if any.
pub fn classify(marker: VersionMarker) -> (version: Option<StateVersion>)
    ensures
        version == version_of(marker),
{
    match marker {
        VersionMarker::Missing => Some(StateVersion::V0),
        VersionMarker::Number(n) => if n == 0 {
            Some(StateVersion::V0)
        } else if n == 1 {
            Some(StateVersion::V1)
        } else {
            None
        },
        VersionMarker::Unreadable => None,
    }
}

/// Reads the version marker off a document.
pub fn read_marker(document: &serde_yml::Value) -> (marker: VersionMarker)
    ensures
        marker == marker_of(*document),
{
    match yaml_entry(document, "version") {
        None => VersionMarker::Missing,
        Some(node) => match yaml_unsigned(node) {
            Some(n) => VersionMarker::Number(n),
            None => VersionMarker::Unreadable,
        },
    }
}

/// The path under which a legacy state file is kept before it is migrated.
pub fn backup_path(state_file: &str) -> (backup: String)
    ensures
        backup@ == backup_of(state_file@),
{
    let mut backup = state_file.to_owned();
    backup.append(".v0.bak");
    backup
}

/// What was found at the state path.
#[derive(Debug)]
pub enum StateSource {
    /// No file is there.
    Absent,
    /// A file is there that could not be opened or read.
    Unreadable { cause: String },
    /// The file's text.
    Text(String),
}

pub enum StateSourceView {
    Absent,
    Unreadable { cause: Seq<char> },
    Text(Seq<char>),
}

impl View for StateSource {
    type V = StateSourceView;

    open spec fn view(&self) -> StateSourceView {
        match self {
            StateSource::Absent => StateSourceView::Absent,
            StateSource::Unreadable { cause } => StateSourceView::Unreadable { cause: cause@ },
            StateSource::Text(text) => StateSourceView::Text(text@),
        }
    }
}

/// Why the persisted state could not be loaded.
#[derive(Debug)]
pub enum StateError {
    /// The file at `path` exists and could not be opened or read.
    Unreadable { path: String, cause: String },
    /// The file at `path` is no YAML document.
    Malformed { path: String, error: serde_yml::Error },
    /// The document at `path` shows a version that is not known.
    UnknownVersion { path: String, marker: VersionMarker },
    /// The legacy file at `path` could not be renamed to `backup`.
    BackupFailed { path: String, backup: String, cause: String },
}

/// A state error without the parser's own error value, of which nothing is
/// known here.
pub enum StateErrorView {
    Unreadable { path: Seq<char>, cause: Seq<char> },
    Malformed { path: Seq<char> },
    UnknownVersion { path: Seq<char>, marker: VersionMarker },
    BackupFailed { path: Seq<char>, backup: Seq<char>, cause: Seq<char> },
}

impl View for StateError {
    type V = StateErrorView;

    open spec fn view(&self) -> StateErrorView {
        match self {
            StateError::Unreadable { path, cause } => StateErrorView::Unreadable {
                path: path@,
                cause: cause@,
            },
            StateError::Malformed { path, error } => StateErrorView::Malformed { path: path@ },
            StateError::UnknownVersion { path, marker } => StateErrorView::UnknownVersion {
                path: path@,
                marker: *marker,
            },
            StateError::BackupFailed { path, backup, cause } => StateErrorView::BackupFailed {
                path: path@,
                backup: backup@,
                cause: cause@,
            },
        }
    }
}

/// A state that is ready for use, by the way it came to be.
#[derive(Debug)]
pub enum LoadedState {
    /// A fresh, empty state, to be initialised with this bridge identity.
    Seeded { identity: String },
    /// A legacy document, to be transformed into the current layout.
    Migrated { document: serde_yml::Value },
    /// A document in the current layout, to be read as it is.
    Current { document: serde_yml::Value },
}

pub enum LoadedStateView {
    Seeded { identity: Seq<char> },
    Migrated { document: serde_yml::Value },
    Current { document: serde_yml::Value },
}

impl View for LoadedState {
    type V = LoadedStateView;

    open spec fn view(&self) -> LoadedStateView {
        match self {
            LoadedState::Seeded { identity } => LoadedStateView::Seeded { identity: identity@ },
            LoadedState::Migrated { document } => LoadedStateView::Migrated {
                document: *document,
            },
            LoadedState::Current { document } => LoadedStateView::Current { document: *document },
        }
    }
}

/// A legacy document that waits for its file to be renamed from `from` to
/// `to`. Only `complete` turns it into a loaded state.
#[derive(Debug)]
pub struct PendingMigration {
    pub from: String,
    pub to: String,
    pub document: serde_yml::Value,
}

pub struct PendingMigrationView {
    pub from: Seq<char>,
    pub to: Seq<char>,
    pub document: serde_yml::Value,
}

impl View for PendingMigration {
    type V = PendingMigrationView;

    open spec fn view(&self) -> PendingMigrationView {
        PendingMigrationView { from: self.from@, to: self.to@, document: self.document }
    }
}

/// Where loading stands after the state file has been looked at.
#[derive(Debug)]
pub enum LoadStep {
    /// The state is ready.
    Done(LoadedState),
    /// The legacy file must be renamed first.
    NeedsBackup(PendingMigration),
    /// Loading has failed.
    Failed(StateError),
}

pub enum LoadStepView {
    Done(LoadedStateView),
    NeedsBackup(PendingMigrationView),
    Failed(StateErrorView),
}

impl View for LoadStep {
    type V = LoadStepView;

    open spec fn view(&self) -> LoadStepView {
        match self {
            LoadStep::Done(state) => LoadStepView::Done(state@),
            LoadStep::NeedsBackup(pending) => LoadStepView::NeedsBackup(pending@),
            LoadStep::Failed(error) => LoadStepView::Failed(error@),
        }
    }
}

/// The step for a document with a given marker: a legacy document waits for
/// its backup, a current one is ready, any other is refused with its path.
pub open spec fn step_for(
    path: Seq<char>,
    document: serde_yml::Value,
    marker: VersionMarker,
) -> LoadStepView {
    match version_of(marker) {
        Some(StateVersion::V0) => LoadStepView::NeedsBackup(
            PendingMigrationView { from: path, to: backup_of(path), document },
        ),
        Some(StateVersion::V1) => LoadStepView::Done(LoadedStateView::Current { document }),
        None => LoadStepView::Failed(StateErrorView::UnknownVersion { path, marker }),
    }
}

/// The step for what was found at the state path: with no file, a fresh state
/// seeded with the identity of `hw`; with a file that cannot be read, or a
/// text that is no document, an error that names the path; with a document,
/// the step for its marker.
pub open spec fn load_step(source: StateSourceView, path: Seq<char>, hw: HardwareId) -> LoadStepView {
    match source {
        StateSourceView::Absent => LoadStepView::Done(
            LoadedStateView::Seeded { identity: identity_of(hw) },
        ),
        StateSourceView::Unreadable { cause } => LoadStepView::Failed(
            StateErrorView::Unreadable { path, cause },
        ),
        StateSourceView::Text(text) => match yaml_parse_of(text) {
            None => LoadStepView::Failed(StateErrorView::Malformed { path }),
            Some(document) => step_for(path, document, marker_of(document)),
        },
    }
}

/// How a pending migration ends: with the legacy document once the rename has
/// succeeded, with an error that names both paths once it has failed.
pub open spec fn completed(pending: PendingMigrationView, failure: Option<Seq<char>>) -> Result<
    LoadedStateView,
    StateErrorView,
> {
    match failure {
        None => Ok(LoadedStateView::Migrated { document: pending.document }),
        Some(cause) => Err(
            StateErrorView::BackupFailed { path: pending.from, backup: pending.to, cause },
        ),
    }
}

/// Decides the step for a parsed document whose marker has been read.
pub fn load_parsed(path: &str, document: serde_yml::Value, marker: VersionMarker) -> (step:
    LoadStep)
    ensures
        step@ == step_for(path@, document, marker),
{
    match classify(marker) {
        Some(StateVersion::V0) => LoadStep::NeedsBackup(
            PendingMigration { from: path.to_owned(), to: backup_path(path), document },
        ),
        Some(StateVersion::V1) => LoadStep::Done(LoadedState::Current { document }),
        None => LoadStep::Failed(StateError::UnknownVersion { path: path.to_owned(), marker }),
    }
}

/// Loads the state from what was found at `path`, or starts a fresh one for
/// the device `hw`.
pub fn load_or_init(path: &str, source: StateSource, hw: HardwareId) -> (step: LoadStep)
    ensures
        step@ == load_step(source@, path@, hw),
{
    match source {
        StateSource::Absent => LoadStep::Done(
            LoadedState::Seeded { identity: derive_identity(hw) },
        ),
        StateSource::Unreadable { cause } => LoadStep::Failed(
            StateError::Unreadable { path: path.to_owned(), cause },
        ),
        StateSource::Text(text) => match parse_yaml(text.as_str()) {
            Err(error) => LoadStep::Failed(StateError::Malformed { path: path.to_owned(), error }),
            Ok(document) => {
                let marker = read_marker(&document);
                load_parsed(path, document, marker)
            },
        },
    }
}

impl PendingMigration {
    /// Ends the migration with the outcome of the rename: `None` where the file
    /// was renamed, the cause where it was not.
    pub fn complete(self, failure: Option<String>) -> (r: Result<LoadedState, StateError>)
        ensures
            match r {
                Ok(state) => completed(self@, option_view(failure)) == Ok::<
                    LoadedStateView,
                    StateErrorView,
                >(state@),
                Err(error) => completed(self@, option_view(failure)) == Err::<
                    LoadedStateView,
                    StateErrorView,
                >(error@),
            },
    {
        match failure {
            None => Ok(LoadedState::Migrated { document: self.document }),
            Some(cause) => Err(
                StateError::BackupFailed { path: self.from, backup: self.to, cause },
            ),
        }
    }
}

/// The text of an optional string.
pub open spec fn option_view(text: Option<String>) -> Option<Seq<char>> {
    match text {
        None => None,
        Some(t) => Some(t@),
    }
}

/// With no state file, the state is a fresh one seeded with the identity
/// derived from the hardware address, whatever the path.
pub proof fn lemma_absent_state_is_seeded(path: Seq<char>, hw: HardwareId)
    ensures
        load_step(StateSourceView::Absent, path, hw) == LoadStepView::Done(
            LoadedStateView::Seeded { identity: identity_of(hw) },
        ),
{
}

/// The backup sibling is never the state file itself, whatever its name: a
/// rename to it cannot land on the file that is renamed.
pub proof fn lemma_backup_is_another_path(path: Seq<char>)
    ensures
        backup_of(path) != path,
        backup_of(path).len() == path.len() + 7,
        backup_of(path).subrange(0, path.len() as int) == path,
{
    reveal_strlit(".v0.bak");
    assert(backup_of(path).subrange(0, path.len() as int) =~= path);
}

/// A state file that exists and cannot be read is never taken for a missing
/// one: loading fails with its path and the cause.
pub proof fn lemma_unreadable_state_fails(cause: Seq<char>, path: Seq<char>, hw: HardwareId)
    ensures
        load_step(StateSourceView::Unreadable { cause }, path, hw) == LoadStepView::Failed(
            StateErrorView::Unreadable { path, cause },
        ),
{
}

/// A legacy document is never ready at once: it waits for the rename of its
/// file to the backup sibling, is lost to no failure of that rename (the error
/// names both paths), and after the rename it is the very document that was
/// read, as a document in the current layout would be.
pub proof fn lemma_legacy_document_is_backed_up(
    text: Seq<char>,
    path: Seq<char>,
    hw: HardwareId,
)
    ensures
        yaml_parse_of(text) matches Some(document) ==> (version_of(marker_of(document)) == Some(
            StateVersion::V0,
        ) ==> (load_step(StateSourceView::Text(text), path, hw) matches LoadStepView::NeedsBackup(
            pending,
        ) && {
            &&& pending.from == path
            &&& pending.to == backup_of(path)
            &&& Some(pending.document) == yaml_parse_of(text)
            &&& completed(pending, None) == Ok::<LoadedStateView, StateErrorView>(
                LoadedStateView::Migrated { document: pending.document },
            )
            &&& forall|cause: Seq<char>| #[trigger]
                completed(pending, Some(cause)) == Err::<LoadedStateView, StateErrorView>(
                    StateErrorView::BackupFailed { path, backup: backup_of(path), cause },
                )
        })),
{
}

} // verus!
