//! Data kept in the configuration file.
//!
//! This module holds plain data only; reading and writing the file is left
//! to the caller, so the models can be used without touching the disk.
use vstd::prelude::*;

use crate::text::{decimal, push_decimal};

verus! {

/// Version of the configuration format that this version understands.
pub const CURRENT_SCHEMA_VERSION: u32 = 1;

/// Preferences and persistent state of the application.
#[derive(Clone, Debug, PartialEq, Eq)]
pub struct AppConfig {
    /// Version of the document, not of the application.
    pub schema_version: u32,
    pub preferences: Preferences,
    /// Timer state worth restoring on the next start.
    pub pomodoro: PomodoroState,
    /// Tasks as stable storage records.
    pub tasks: Vec<TaskRecord>,
}

/// Preferences grouped by feature.
#[derive(Clone, Copy, Debug, PartialEq, Eq, Structural)]
pub struct Preferences {
    pub noise: NoisePreferences,
    pub pomodoro: PomodoroPreferences,
    pub tasks: TaskPreferences,
}

/// Preferences of the noise generator.
#[derive(Clone, Copy, Debug, PartialEq, Eq, Structural)]
pub struct NoisePreferences {
    pub kind: NoiseKind,
    /// Volume percentage between 0 and 100, like the audio control.
    pub volume: u8,
    /// Remembered, but audio is never started automatically.
    pub playing: bool,
}

/// Kinds of noise.
#[derive(Clone, Copy, Debug, PartialEq, Eq, Structural)]
pub enum NoiseKind {
    White,
    Pink,
    Brown,
}

/// Preferences for new timer sessions.
#[derive(Clone, Copy, Debug, PartialEq, Eq, Structural)]
pub struct PomodoroPreferences {
    pub profile: PomodoroProfile,
    /// Custom work length, in minutes.
    pub work_minutes: u16,
    /// Custom break length, in minutes.
    pub break_minutes: u16,
    pub auto_start_break: bool,
    pub auto_start_work: bool,
}

/// Built-in profiles or the editable one.
#[derive(Clone, Copy, Debug, PartialEq, Eq, Structural)]
pub enum PomodoroProfile {
    Classic,
    Deep,
    Custom,
}

/// Preferences of the task list.
#[derive(Clone, Copy, Debug, PartialEq, Eq, Structural)]
pub struct TaskPreferences {
    pub show_completed: bool,
}

/// Timer state that is safe to restore between runs.
#[derive(Clone, Debug, PartialEq, Eq)]
pub struct PomodoroState {
    pub phase: PomodoroPhase,
    pub running: bool,
    pub remaining_seconds: u32,
    pub sessions_completed_today: u32,
    pub session_date: Option<String>,
}

/// Persisted timer phases; the paused ones keep the stage that resumes.
#[derive(Clone, Copy, Debug, PartialEq, Eq, Structural)]
pub enum PomodoroPhase {
    Stopped,
    Work,
    WorkPaused,
    Break,
    BreakPaused,
    Finished,
}

/// A task as stored in the file, with primitive fields only.
#[derive(Clone, Debug, PartialEq, Eq)]
pub struct TaskRecord {
    /// Raw value of the task identifier.
    pub id: u64,
    pub text: String,
    pub completed: bool,
    pub position: usize,
    /// Seconds since the Unix epoch.
    pub created_at: u64,
}

/// A document written by a later version of the format.
#[derive(Clone, Copy, Debug, PartialEq, Eq, Structural)]
pub struct UnsupportedSchemaVersion {
    pub version: u32,
}

// ---------------------------------------------------------------------------
// Defaults
// ---------------------------------------------------------------------------

/// Version assumed for a document that does not state one.
pub fn default_schema_version() -> (r: u32)
    ensures
        r == CURRENT_SCHEMA_VERSION,
{
    CURRENT_SCHEMA_VERSION
}

/// Default noise volume, in percent.
pub fn default_volume() -> (r: u8)
    ensures
        r == 50,
{
    50
}

/// Default custom work length, in minutes.
pub fn default_work_minutes() -> (r: u16)
    ensures
        r == 25,
{
    25
}

/// Default custom break length, in minutes.
pub fn default_break_minutes() -> (r: u16)
    ensures
        r == 5,
{
    5
}

/// Default for flags that start enabled.
pub fn default_true() -> (r: bool)
    ensures
        r,
{
    true
}

/// The default noise preferences: white noise at half volume, stopped.
pub open spec fn default_noise_preferences() -> NoisePreferences {
    NoisePreferences { kind: NoiseKind::White, volume: 50, playing: false }
}

/// The default timer preferences: the classic profile, a 25/5 custom
/// profile, nothing started automatically.
pub open spec fn default_pomodoro_preferences() -> PomodoroPreferences {
    PomodoroPreferences {
        profile: PomodoroProfile::Classic,
        work_minutes: 25,
        break_minutes: 5,
        auto_start_break: false,
        auto_start_work: false,
    }
}

/// The default preferences.
pub open spec fn default_preferences() -> Preferences {
    Preferences {
        noise: default_noise_preferences(),
        pomodoro: default_pomodoro_preferences(),
        tasks: TaskPreferences { show_completed: true },
    }
}

/// The default timer state: stopped, nothing counted, no date.
pub open spec fn is_default_pomodoro_state(s: PomodoroState) -> bool {
    &&& s.phase == PomodoroPhase::Stopped
    &&& !s.running
    &&& s.remaining_seconds == 0
    &&& s.sessions_completed_today == 0
    &&& s.session_date is None
}

/// The default configuration.
pub open spec fn is_default_config(c: AppConfig) -> bool {
    &&& c.schema_version == CURRENT_SCHEMA_VERSION
    &&& c.preferences == default_preferences()
    &&& is_default_pomodoro_state(c.pomodoro)
    &&& c.tasks@.len() == 0
}

impl Default for NoiseKind {
    fn default() -> (r: NoiseKind)
        ensures
            r == NoiseKind::White,
    {
        NoiseKind::White
    }
}

impl Default for PomodoroProfile {
    fn default() -> (r: PomodoroProfile)
        ensures
            r == PomodoroProfile::Classic,
    {
        PomodoroProfile::Classic
    }
}

impl Default for PomodoroPhase {
    fn default() -> (r: PomodoroPhase)
        ensures
            r == PomodoroPhase::Stopped,
    {
        PomodoroPhase::Stopped
    }
}

impl Default for NoisePreferences {
    fn default() -> (r: NoisePreferences)
        ensures
            r == default_noise_preferences(),
    {
        NoisePreferences { kind: NoiseKind::White, volume: default_volume(), playing: false }
    }
}

impl Default for PomodoroPreferences {
    fn default() -> (r: PomodoroPreferences)
        ensures
            r == default_pomodoro_preferences(),
    {
        PomodoroPreferences {
            profile: PomodoroProfile::Classic,
            work_minutes: default_work_minutes(),
            break_minutes: default_break_minutes(),
            auto_start_break: false,
            auto_start_work: false,
        }
    }
}

impl Default for TaskPreferences {
    fn default() -> (r: TaskPreferences)
        ensures
            r == (TaskPreferences { show_completed: true }),
    {
        TaskPreferences { show_completed: default_true() }
    }
}

impl Default for Preferences {
    fn default() -> (r: Preferences)
        ensures
            r == default_preferences(),
    {
        Preferences {
            noise: NoisePreferences::default(),
            pomodoro: PomodoroPreferences::default(),
            tasks: TaskPreferences::default(),
        }
    }
}

impl Default for PomodoroState {
    fn default() -> (r: PomodoroState)
        ensures
            is_default_pomodoro_state(r),
    {
        PomodoroState {
            phase: PomodoroPhase::Stopped,
            running: false,
            remaining_seconds: 0,
            sessions_completed_today: 0,
            session_date: None,
        }
    }
}

impl Default for AppConfig {
    fn default() -> (r: AppConfig)
        ensures
            is_default_config(r),
    {
        AppConfig {
            schema_version: CURRENT_SCHEMA_VERSION,
            preferences: Preferences::default(),
            pomodoro: PomodoroState::default(),
            tasks: Vec::new(),
        }
    }
}

// ---------------------------------------------------------------------------
// Schema versions
// ---------------------------------------------------------------------------

/// Outcome of migrating a document: version 0 (documents that predate the
/// field) becomes the current version, the current version is kept, and any
/// other version is refused.
pub open spec fn migrated(c: AppConfig) -> Result<AppConfig, UnsupportedSchemaVersion> {
    if c.schema_version == 0 {
        Ok(AppConfig { schema_version: CURRENT_SCHEMA_VERSION, ..c })
    } else if c.schema_version == CURRENT_SCHEMA_VERSION {
        Ok(c)
    } else {
        Err(UnsupportedSchemaVersion { version: c.schema_version })
    }
}

impl AppConfig {
    /// Fills in the version of old documents and refuses the formats that
    /// this version does not understand.
    pub fn migrate(self) -> (r: Result<AppConfig, UnsupportedSchemaVersion>)
        ensures
            r == migrated(self),
    {
        let mut config = self;
        if config.schema_version == 0 {
            config.schema_version = CURRENT_SCHEMA_VERSION;
        } else if config.schema_version != CURRENT_SCHEMA_VERSION {
            return Err(UnsupportedSchemaVersion { version: config.schema_version });
        }
        Ok(config)
    }
}

/// Text shown for a refused document.
pub open spec fn unsupported_schema_message(e: UnsupportedSchemaVersion) -> Seq<char> {
    "unsupported configuration schema version "@ + decimal(e.version as nat)
}

impl UnsupportedSchemaVersion {
    /// Human-readable description of the error.
    pub fn message(&self) -> (r: String)
        ensures
            r@ == unsupported_schema_message(*self),
    {
        let mut out = String::from_str("unsupported configuration schema version ");
        push_decimal(&mut out, self.version as u64);
        out
    }
}

/// A migrated document is current, and migrating it again changes nothing.
pub proof fn lemma_migration_is_idempotent(c: AppConfig)
    ensures
        migrated(c) is Ok <==> c.schema_version <= CURRENT_SCHEMA_VERSION,
        migrated(c) matches Ok(d) ==> d.schema_version == CURRENT_SCHEMA_VERSION && migrated(d)
            == Ok::<AppConfig, UnsupportedSchemaVersion>(d),
        migrated(c) matches Ok(d) ==> d == (AppConfig { schema_version: CURRENT_SCHEMA_VERSION, ..c }),
{
}

} // verus!
