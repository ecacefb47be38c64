//! Decisions of the versioned, atomic configuration store.
//!
//! Reading, writing and renaming files is done by the caller; this module
//! decides what a load yields, how backup and temporary files are named, and
//! what is written.
use vstd::prelude::*;

use crate::config::{migrated, AppConfig, UnsupportedSchemaVersion, CURRENT_SCHEMA_VERSION};
use crate::text::{decimal, push_decimal};

verus! {

/// File name of the configuration inside its directory.
pub const CONFIG_FILE_NAME: &'static str = "config.json";

/// Detailed outcome of a load.
#[derive(Clone, Debug, PartialEq, Eq)]
pub struct LoadReport {
    pub config: AppConfig,
    /// Whether a corrupt file was set aside and defaults were used.
    pub recovered_from_corruption: bool,
    /// Where the corrupt file was moved.
    pub backup_path: Option<String>,
}

/// What was found where the configuration lives.
#[derive(Clone, Debug, PartialEq, Eq)]
pub enum StoredDocument {
    /// There is no file.
    Missing,
    /// The file holds a configuration document.
    Parsed(AppConfig),
    /// The file exists but is not a configuration document.
    Corrupt,
}

/// What a load does with the document found.
#[derive(Clone, Debug, PartialEq, Eq)]
pub enum LoadDecision {
    /// The load is done.
    Ready(LoadReport),
    /// The document has a version that this program does not understand.
    Unsupported(UnsupportedSchemaVersion),
    /// The corrupt file must be moved to a backup name; defaults are used.
    BackUpCorrupt,
}

/// The report of a load that found no file: defaults, nothing recovered.
pub open spec fn fresh_report(report: LoadReport) -> bool {
    &&& crate::config::is_default_config(report.config)
    &&& !report.recovered_from_corruption
    &&& report.backup_path is None
}

/// The decision for each kind of stored document.
pub open spec fn load_decision_ok(doc: StoredDocument, d: LoadDecision) -> bool {
    match doc {
        StoredDocument::Missing => d matches LoadDecision::Ready(report) && fresh_report(report),
        StoredDocument::Parsed(config) => match migrated(config) {
            Ok(current) => d == LoadDecision::Ready(
                LoadReport { config: current, recovered_from_corruption: false, backup_path: None },
            ),
            Err(e) => d == LoadDecision::Unsupported(e),
        },
        StoredDocument::Corrupt => d == LoadDecision::BackUpCorrupt,
    }
}

/// Decides the outcome of a load: a missing file yields the defaults, a
/// document is migrated (or refused when its version is unknown), and a
/// corrupt file is to be set aside.
pub fn decide_load(doc: StoredDocument) -> (r: LoadDecision)
    ensures
        load_decision_ok(doc, r),
{
    match doc {
        StoredDocument::Missing => LoadDecision::Ready(
            LoadReport { config: AppConfig::default(), recovered_from_corruption: false, backup_path: None },
        ),
        StoredDocument::Parsed(config) => match config.migrate() {
            Ok(current) => LoadDecision::Ready(
                LoadReport { config: current, recovered_from_corruption: false, backup_path: None },
            ),
            Err(e) => LoadDecision::Unsupported(e),
        },
        StoredDocument::Corrupt => LoadDecision::BackUpCorrupt,
    }
}

/// The report after a corrupt file was moved to `backup_path`: defaults,
/// marked as recovered.
pub fn recovered_report(backup_path: String) -> (r: LoadReport)
    ensures
        crate::config::is_default_config(r.config),
        r.recovered_from_corruption,
        r.backup_path == Some(backup_path),
{
    LoadReport { config: AppConfig::default(), recovered_from_corruption: true, backup_path: Some(backup_path) }
}

/// The document that is written: the configuration with the current version.
pub fn prepare_for_save(config: AppConfig) -> (r: AppConfig)
    ensures
        r == (AppConfig { schema_version: CURRENT_SCHEMA_VERSION, ..config }),
{
    let mut normalized = config;
    normalized.schema_version = CURRENT_SCHEMA_VERSION;
    normalized
}

/// The file name used for naming, or the default name when the path has none
/// (or one that is not valid text).
pub open spec fn base_name(file_name: Option<&str>) -> Seq<char> {
    match file_name {
        Some(name) => name@,
        None => CONFIG_FILE_NAME@,
    }
}

/// Backup name number `index` of a file: `<name>.bak`, then `<name>.bak.1`,
/// `<name>.bak.2`, ...
pub open spec fn backup_name(file_name: Option<&str>, index: u32) -> Seq<char> {
    if index == 0 {
        base_name(file_name) + ".bak"@
    } else {
        base_name(file_name) + ".bak."@ + decimal(index as nat)
    }
}

/// Hidden temporary name next to the file: `.<name>.<suffix>.tmp`.
pub open spec fn temporary_name(file_name: Option<&str>, suffix: Seq<char>) -> Seq<char> {
    "."@ + base_name(file_name) + "."@ + suffix + ".tmp"@
}

fn base_name_str<'a>(file_name: Option<&'a str>) -> (r: &'a str)
    ensures
        r@ == base_name(file_name),
{
    match file_name {
        Some(name) => name,
        None => CONFIG_FILE_NAME,
    }
}

/// Name of the backup number `index` of the file named `file_name`.
pub fn backup_file_name(file_name: Option<&str>, index: u32) -> (r: String)
    ensures
        r@ == backup_name(file_name, index),
{
    let mut out = String::from_str(base_name_str(file_name));
    if index == 0 {
        out.append(".bak");
    } else {
        out.append(".bak.");
        push_decimal(&mut out, index as u64);
    }
    out
}

/// `name` is one of the names in `existing`.
pub open spec fn name_taken(existing: Seq<String>, name: Seq<char>) -> bool {
    exists|k: int| 0 <= k < existing.len() && #[trigger] existing[k]@ == name
}

fn is_taken(existing: &[String], name: &String) -> (r: bool)
    ensures
        r == name_taken(existing@, name@),
{
    let mut k: usize = 0;
    while k < existing.len()
        invariant
            k <= existing@.len(),
            forall|m: int| 0 <= m < k ==> #[trigger] existing@[m]@ != name@,
        decreases existing.len() - k,
    {
        if existing[k] == *name {
            return true;
        }
        k += 1;
    }
    false
}

/// The number of the first backup of the file named `file_name` whose name
/// is not among the `existing` names of its directory, so that a damaged
/// file is set aside without replacing an earlier backup; `None` when every
/// backup number is taken.
pub fn first_free_backup(file_name: Option<&str>, existing: &[String]) -> (r: Option<u32>)
    ensures
        match r {
            Some(index) => {
                &&& !name_taken(existing@, backup_name(file_name, index))
                &&& forall|j: u32| j < index ==> #[trigger] name_taken(existing@, backup_name(file_name, j))
            },
            None => forall|j: u32| #[trigger] name_taken(existing@, backup_name(file_name, j)),
        },
{
    let mut index: u32 = 0;
    loop
        invariant
            forall|j: u32| j < index ==> #[trigger] name_taken(existing@, backup_name(file_name, j)),
        decreases u32::MAX - index,
    {
        let name = backup_file_name(file_name, index);
        if !is_taken(existing, &name) {
            return Some(index);
        }
        if index == u32::MAX {
            return None;
        }
        index += 1;
    }
}

/// Name of the temporary file that replaces the file named `file_name`.
pub fn temporary_file_name(file_name: Option<&str>, suffix: &str) -> (r: String)
    ensures
        r@ == temporary_name(file_name, suffix@),
{
    let mut out = String::from_str(".");
    out.append(base_name_str(file_name));
    out.append(".");
    out.append(suffix);
    out.append(".tmp");
    out
}

/// What is saved is what is loaded: a saved configuration, read back, is
/// ready as it was written, with the current version.
pub proof fn lemma_saved_document_loads_back(config: AppConfig)
    ensures
        ({
            let saved = AppConfig { schema_version: CURRENT_SCHEMA_VERSION, ..config };
            load_decision_ok(StoredDocument::Parsed(saved), LoadDecision::Ready(
                LoadReport { config: saved, recovered_from_corruption: false, backup_path: None },
            ))
        }),
{
}

} // verus!
