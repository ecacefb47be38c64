//! Plain state of the focus application and the decisions around it:
//! restoring it from the configuration, turning it back into a
//! configuration, and carrying out the timer view's requests.
use vstd::prelude::*;

use crate::clock::Instant;
use crate::config::{
    AppConfig, NoisePreferences, PomodoroPhase, PomodoroPreferences, PomodoroProfile, PomodoroState,
    Preferences, TaskPreferences, TaskRecord, CURRENT_SCHEMA_VERSION,
};
use crate::clock::Duration;
use crate::domain::pomodoro::{
    advance_result, new_view, pause_result, reset_view, restored_view, resume_result, skip_view,
    start_result, is_paused_state, is_running_state, remaining_view, timer_wf, work_minutes_of,
    break_minutes_of, Pomodoro, Profile,
    Stage, TimerError, TimerEvent, TimerState, TimerView,
};
use crate::text::{decimal, push_decimal};
use crate::domain::task::{
    id_from_raw, positions_normalized, renumbered, sorted_by_position, Task, TaskId, TaskList,
};
use crate::services::audio::{capped_volume, NoiseKind};
use crate::ui::pomodoro_view::Action;

verus! {

/// Sections of the window.
#[derive(Clone, Copy, Debug, PartialEq, Eq, Structural)]
pub enum Tab {
    Noise,
    Pomodoro,
    Tasks,
}

/// Everything the window shows that is not a service handle.
#[derive(Debug)]
pub struct Session {
    pub tab: Tab,
    pub noise_kind: NoiseKind,
    /// Volume percentage.
    pub volume: u8,
    pub timer: Pomodoro,
    /// Work minutes of the custom profile being edited.
    pub custom_work: u16,
    /// Break minutes of the custom profile being edited.
    pub custom_break: u16,
    pub tasks: TaskList,
    /// Text of the task being typed.
    pub task_draft: String,
    /// Message for the status bar.
    pub notice: Option<String>,
    /// The day that the timer's count of completed sessions belongs to.
    pub session_date: String,
}

// ---------------------------------------------------------------------------
// Specification
// ---------------------------------------------------------------------------

/// The player's kind for a stored kind.
pub open spec fn loaded_noise(kind: crate::config::NoiseKind) -> NoiseKind {
    match kind {
        crate::config::NoiseKind::White => NoiseKind::White,
        crate::config::NoiseKind::Pink => NoiseKind::Pink,
        crate::config::NoiseKind::Brown => NoiseKind::Brown,
    }
}

/// The stored kind for a player's kind.
pub open spec fn stored_noise(kind: NoiseKind) -> crate::config::NoiseKind {
    match kind {
        NoiseKind::White => crate::config::NoiseKind::White,
        NoiseKind::Pink => crate::config::NoiseKind::Pink,
        NoiseKind::Brown => crate::config::NoiseKind::Brown,
    }
}

/// `minutes` brought into the allowed range of one to 180.
pub open spec fn clamped_minutes(minutes: u16) -> u16 {
    if minutes < 1 {
        1
    } else if minutes > 180 {
        180
    } else {
        minutes
    }
}

/// The profile restored from the stored preferences.
pub open spec fn restored_profile(p: PomodoroPreferences) -> Profile {
    match p.profile {
        PomodoroProfile::Classic => Profile::Classic,
        PomodoroProfile::Deep => Profile::Deep,
        PomodoroProfile::Custom => Profile::Custom {
            work_minutes: clamped_minutes(p.work_minutes),
            break_minutes: clamped_minutes(p.break_minutes),
        },
    }
}

/// The stored profile kind of a profile.
pub open spec fn stored_profile(profile: Profile) -> PomodoroProfile {
    match profile {
        Profile::Classic => PomodoroProfile::Classic,
        Profile::Deep => PomodoroProfile::Deep,
        Profile::Custom { .. } => PomodoroProfile::Custom,
    }
}

/// The stored phase of a timer state.
pub open spec fn stored_phase(state: TimerState) -> PomodoroPhase {
    match state {
        TimerState::Stopped => PomodoroPhase::Stopped,
        TimerState::WorkRunning => PomodoroPhase::Work,
        TimerState::WorkPaused => PomodoroPhase::WorkPaused,
        TimerState::BreakRunning => PomodoroPhase::Break,
        TimerState::BreakPaused => PomodoroPhase::BreakPaused,
        TimerState::Finished => PomodoroPhase::Finished,
    }
}

/// The task a record describes.
pub open spec fn record_task(r: TaskRecord) -> Task {
    Task {
        id: id_from_raw(r.id),
        text: r.text,
        completed: r.completed,
        position: r.position,
        created_at: r.created_at,
    }
}

/// The record that stores a task.
pub open spec fn task_record(t: Task) -> TaskRecord {
    TaskRecord {
        id: t.id@,
        text: t.text,
        completed: t.completed,
        position: t.position,
        created_at: t.created_at,
    }
}

/// The day of instant `now` (nanoseconds since the Unix epoch): whole days
/// of UTC time since the epoch.
pub open spec fn day_of(now: nat) -> nat {
    (now / 1_000_000_000) / 86_400
}

/// Whether the stored count belongs to `today`.
pub open spec fn stored_on(config: AppConfig, today: Seq<char>) -> bool {
    config.pomodoro.session_date matches Some(d) && d@ == today
}

/// The timer restored from the stored state: a stage that was running or
/// paused comes back paused with the stored whole seconds left; a stopped or
/// finished timer comes back as a fresh one.
pub open spec fn restored_timer(config: AppConfig) -> TimerView {
    let profile = restored_profile(config.preferences.pomodoro);
    let left = config.pomodoro.remaining_seconds as nat * 1_000_000_000;
    match config.pomodoro.phase {
        PomodoroPhase::Work | PomodoroPhase::WorkPaused => restored_view(profile, Stage::Work, left),
        PomodoroPhase::Break | PomodoroPhase::BreakPaused => restored_view(profile, Stage::Break, left),
        PomodoroPhase::Stopped | PomodoroPhase::Finished => new_view(profile),
    }
}

/// `s` is the session restored from `config` on day `today`, with `notice`
/// as message.  The count of completed sessions carries over only when it
/// was stored on the same day.
pub open spec fn is_restored(config: AppConfig, notice: Option<String>, today: Seq<char>, s: Session) -> bool {
    let p = config.preferences.pomodoro;
    &&& s.tab == Tab::Noise
    &&& s.noise_kind == loaded_noise(config.preferences.noise.kind)
    &&& s.volume == if config.preferences.noise.volume <= 100 {
        config.preferences.noise.volume
    } else {
        100
    }
    &&& s.custom_work == clamped_minutes(p.work_minutes)
    &&& s.custom_break == clamped_minutes(p.break_minutes)
    &&& s.timer@ == (TimerView {
        completed: if stored_on(config, today) { config.pomodoro.sessions_completed_today } else { 0 },
        ..restored_timer(config)
    })
    &&& s.tasks@ == renumbered(sorted_by_position(config.tasks@.map_values(|r: TaskRecord| record_task(r))))
    &&& s.task_draft@ == Seq::<char>::empty()
    &&& s.notice == notice
    &&& s.session_date@ == today
}

/// `config` is what session `s` stores at instant `now`: its preferences,
/// the phase, whole seconds left (capped at `u32::MAX`) and session count of
/// the timer, and its tasks.  Playback and automatic starts are stored off.
pub open spec fn is_snapshot(s: Session, now: nat, config: AppConfig) -> bool {
    let seconds = remaining_view(s.timer@, now) / 1_000_000_000;
    &&& config.schema_version == CURRENT_SCHEMA_VERSION
    &&& config.preferences == (Preferences {
        noise: NoisePreferences { kind: stored_noise(s.noise_kind), volume: s.volume, playing: false },
        pomodoro: PomodoroPreferences {
            profile: stored_profile(s.timer@.profile),
            work_minutes: s.custom_work,
            break_minutes: s.custom_break,
            auto_start_break: false,
            auto_start_work: false,
        },
        tasks: TaskPreferences { show_completed: true },
    })
    &&& config.pomodoro.phase == stored_phase(s.timer@.state)
    &&& !config.pomodoro.running
    &&& config.pomodoro.remaining_seconds == if seconds <= u32::MAX { seconds } else { u32::MAX as nat }
    &&& config.pomodoro.sessions_completed_today == s.timer@.completed
    &&& config.pomodoro.session_date == Some(s.session_date)
    &&& config.tasks@ == s.tasks@.map_values(|t: Task| task_record(t))
}

/// `Option::ok` on a timer result.
pub open spec fn event_of(r: Result<TimerEvent, TimerError>) -> Option<TimerEvent> {
    match r {
        Ok(e) => Some(e),
        Err(_) => None,
    }
}

/// Effect on the timer of an action of the timer view at `now`.
pub open spec fn action_result(v: TimerView, action: Action, now: nat) -> (TimerView, Option<TimerEvent>) {
    match action {
        Action::Idle => (v, None),
        Action::StartPause => if is_running_state(v.state) {
            (pause_result(v, now).0, event_of(pause_result(v, now).1))
        } else {
            (start_result(v, now).0, event_of(start_result(v, now).1))
        },
        Action::Resume => (resume_result(v, now).0, event_of(resume_result(v, now).1)),
        Action::Skip => (skip_view(v), Some(TimerEvent::StageAdvanced(crate::domain::pomodoro::next_stage(v.stage)))),
        Action::Reset => (reset_view(v), Some(TimerEvent::Reset)),
        Action::Advance => (advance_result(v, now).0, event_of(advance_result(v, now).1)),
    }
}

/// Status message for a finished stage.
pub open spec fn finished_notice(stage: Stage) -> Seq<char> {
    match stage {
        Stage::Work => "Trabajo terminado"@,
        Stage::Break => "Descanso terminado"@,
    }
}

/// The request to advance moves on to the other stage and starts it at once
/// with its full length: a work stage, whether finished or not, is followed
/// by a break, and a break by a work stage.  The profile and the count of
/// sessions stay as they were, and the event reports the stage started.
pub proof fn lemma_advance_starts_the_other_stage(v: TimerView, now: nat)
    ensures
        ({
            let (n, e) = action_result(v, Action::Advance, now);
            &&& v.stage == Stage::Work ==> {
                &&& n.stage == Stage::Break
                &&& n.state == TimerState::BreakRunning
                &&& n.remaining == break_minutes_of(v.profile) as nat * 60_000_000_000
            }
            &&& v.stage == Stage::Break ==> {
                &&& n.stage == Stage::Work
                &&& n.state == TimerState::WorkRunning
                &&& n.remaining == work_minutes_of(v.profile) as nat * 60_000_000_000
            }
            &&& n.started_at == Some(now)
            &&& remaining_view(n, now) == n.remaining
            &&& n.profile == v.profile
            &&& n.completed == v.completed
            &&& e == Some(TimerEvent::Started(n.stage))
        }),
{
}

/// Advancing twice at the same instant comes back to the stage the timer
/// was in, running from that instant with its full length.
pub proof fn lemma_advance_twice_returns_to_the_stage(v: TimerView, now: nat)
    ensures
        ({
            let n = action_result(action_result(v, Action::Advance, now).0, Action::Advance, now).0;
            &&& n.stage == v.stage
            &&& n.started_at == Some(now)
            &&& v.stage == Stage::Work ==> n.remaining == work_minutes_of(v.profile) as nat * 60_000_000_000
            &&& v.stage == Stage::Break ==> n.remaining == break_minutes_of(v.profile) as nat * 60_000_000_000
        }),
{
}

/// The request to reset brings the timer back to a stopped work stage with
/// the full work length, whatever stage was running, paused or finished
/// before; the profile and the count of sessions stay as they were.
pub proof fn lemma_reset_returns_to_stopped_work(v: TimerView, now: nat)
    ensures
        ({
            let (n, e) = action_result(v, Action::Reset, now);
            &&& n.stage == Stage::Work
            &&& n.state == TimerState::Stopped
            &&& n.remaining == work_minutes_of(v.profile) as nat * 60_000_000_000
            &&& n.started_at is None
            &&& n.profile == v.profile
            &&& n.completed == v.completed
            &&& e == Some(TimerEvent::Reset)
        }),
{
}

/// The count of completed sessions is a count for one day: a restart keeps
/// the stored count only when it was stored on the same day, and starts
/// from zero otherwise.
pub proof fn lemma_count_belongs_to_its_day(config: AppConfig, notice: Option<String>, today: Seq<char>, r: Session)
    requires
        is_restored(config, notice, today, r),
    ensures
        stored_on(config, today) ==> r.timer@.completed == config.pomodoro.sessions_completed_today,
        !stored_on(config, today) ==> r.timer@.completed == 0,
{
}

/// A stored paused stage comes back paused in the same stage with the stored
/// seconds left (when they fit the stage), and a stage stored while running
/// comes back paused the same way.
pub proof fn lemma_paused_stage_is_restored(config: AppConfig, notice: Option<String>, today: Seq<char>, r: Session)
    requires
        is_restored(config, notice, today, r),
        config.pomodoro.remaining_seconds > 0,
        config.pomodoro.remaining_seconds as nat * 1_000_000_000 <= crate::domain::pomodoro::stage_nanos(
            restored_profile(config.preferences.pomodoro),
            if config.pomodoro.phase == PomodoroPhase::Work || config.pomodoro.phase == PomodoroPhase::WorkPaused {
                Stage::Work
            } else {
                Stage::Break
            },
        ),
        config.pomodoro.phase != PomodoroPhase::Stopped,
        config.pomodoro.phase != PomodoroPhase::Finished,
    ensures
        r.timer@.state == if config.pomodoro.phase == PomodoroPhase::Work || config.pomodoro.phase
            == PomodoroPhase::WorkPaused {
            TimerState::WorkPaused
        } else {
            TimerState::BreakPaused
        },
        r.timer@.remaining == config.pomodoro.remaining_seconds as nat * 1_000_000_000,
        r.timer@.started_at is None,
{
}

/// The timer that a restart gives back after timer `v` was stored at `now`:
/// a stopped or finished timer comes back fresh, a running or paused stage
/// comes back paused with the whole seconds that were left at `now`.
pub open spec fn reopened_view(v: TimerView, now: nat) -> TimerView {
    if v.state == TimerState::Stopped || v.state == TimerState::Finished {
        new_view(v.profile)
    } else {
        restored_view(v.profile, v.stage, (remaining_view(v, now) / 1_000_000_000) * 1_000_000_000)
    }
}

/// Storing a session and restoring it on the same day from what was stored
/// gives back its noise settings, custom minutes, tasks and date, and its
/// timer with the same profile and count: a running or paused stage comes
/// back paused with the whole seconds it had left, and a paused stage with a
/// whole number of seconds left comes back exactly.  This holds provided the
/// volume and custom minutes are in range, a custom profile matches the
/// custom minutes, and the tasks are numbered.
pub proof fn lemma_restore_after_snapshot(
    s: Session,
    now: nat,
    config: AppConfig,
    notice: Option<String>,
    r: Session,
)
    requires
        timer_wf(s.timer@),
        is_snapshot(s, now, config),
        is_restored(config, notice, s.session_date@, r),
        s.volume <= 100,
        1 <= s.custom_work <= 180,
        1 <= s.custom_break <= 180,
        s.timer@.profile is Custom ==> s.timer@.profile == (Profile::Custom {
            work_minutes: s.custom_work,
            break_minutes: s.custom_break,
        }),
        positions_normalized(s.tasks@),
    ensures
        r.noise_kind == s.noise_kind,
        r.volume == s.volume,
        r.custom_work == s.custom_work,
        r.custom_break == s.custom_break,
        r.timer@ == (TimerView { completed: s.timer@.completed, ..reopened_view(s.timer@, now) }),
        is_paused_state(s.timer@.state) && s.timer@.remaining % 1_000_000_000 == 0 ==> r.timer@ == s.timer@,
        r.tasks@ == s.tasks@,
        r.session_date@ == s.session_date@,
{
    let tasks = s.tasks@;
    let records = tasks.map_values(|t: Task| task_record(t));
    let back = records.map_values(|rec: TaskRecord| record_task(rec));
    assert(back =~= tasks) by {
        assert forall|k: int| 0 <= k < tasks.len() implies #[trigger] back[k] == tasks[k] by {
            crate::domain::task::lemma_id_from_raw(0, tasks[k].id);
        }
    }
    crate::domain::task::lemma_numbered_list_loads_unchanged(tasks);
    let v = s.timer@;
    let secs = remaining_view(v, now) / 1_000_000_000;
    assert(secs <= 180 * 60);
    assert(config.pomodoro.remaining_seconds == secs);
    assert(restored_profile(config.preferences.pomodoro) == v.profile);
    if is_paused_state(v.state) && v.remaining % 1_000_000_000 == 0 {
        assert(remaining_view(v, now) == v.remaining);
        assert(secs * 1_000_000_000 == v.remaining);
    }
}

// ---------------------------------------------------------------------------
// Operations
// ---------------------------------------------------------------------------

/// The player's kind for a stored kind.
pub fn load_noise(kind: crate::config::NoiseKind) -> (r: NoiseKind)
    ensures
        r == loaded_noise(kind),
{
    match kind {
        crate::config::NoiseKind::White => NoiseKind::White,
        crate::config::NoiseKind::Pink => NoiseKind::Pink,
        crate::config::NoiseKind::Brown => NoiseKind::Brown,
    }
}

/// The stored kind for a player's kind.
pub fn store_noise(kind: NoiseKind) -> (r: crate::config::NoiseKind)
    ensures
        r == stored_noise(kind),
{
    match kind {
        NoiseKind::White => crate::config::NoiseKind::White,
        NoiseKind::Pink => crate::config::NoiseKind::Pink,
        NoiseKind::Brown => crate::config::NoiseKind::Brown,
    }
}

fn clamp_minutes(minutes: u16) -> (r: u16)
    ensures
        r == clamped_minutes(minutes),
{
    if minutes < 1 {
        1
    } else if minutes > 180 {
        180
    } else {
        minutes
    }
}

fn stored_profile_of(profile: Profile) -> (r: PomodoroProfile)
    ensures
        r == stored_profile(profile),
{
    match profile {
        Profile::Classic => PomodoroProfile::Classic,
        Profile::Deep => PomodoroProfile::Deep,
        Profile::Custom { .. } => PomodoroProfile::Custom,
    }
}

fn stored_phase_of(state: TimerState) -> (r: PomodoroPhase)
    ensures
        r == stored_phase(state),
{
    match state {
        TimerState::Stopped => PomodoroPhase::Stopped,
        TimerState::WorkRunning => PomodoroPhase::Work,
        TimerState::WorkPaused => PomodoroPhase::WorkPaused,
        TimerState::BreakRunning => PomodoroPhase::Break,
        TimerState::BreakPaused => PomodoroPhase::BreakPaused,
        TimerState::Finished => PomodoroPhase::Finished,
    }
}

/// The key of the day of `now`: the number of whole UTC days since the Unix
/// epoch, in decimal.
pub fn day_key(now: Instant) -> (r: String)
    ensures
        r@ == decimal(day_of(now@)),
{
    let days = now.since_unix_epoch().as_secs() / 86_400;
    let mut out = String::new();
    push_decimal(&mut out, days);
    out
}

/// The key of the current day of the system clock.
pub fn today() -> (r: String)
    ensures
        exists|now: Instant| r@ == decimal(day_of(#[trigger] now@)),
{
    day_key(Instant::now())
}

/// The section opened by the keyboard shortcut `Ctrl` + `digit`.
pub fn tab_for_shortcut(digit: u8) -> (r: Option<Tab>)
    ensures
        r == if digit == 1 {
            Some(Tab::Noise)
        } else if digit == 2 {
            Some(Tab::Pomodoro)
        } else if digit == 3 {
            Some(Tab::Tasks)
        } else {
            None::<Tab>
        },
{
    match digit {
        1 => Some(Tab::Noise),
        2 => Some(Tab::Pomodoro),
        3 => Some(Tab::Tasks),
        _ => None,
    }
}

/// Status message for a finished stage.
pub fn stage_finished_notice(stage: Stage) -> (r: &'static str)
    ensures
        r@ == finished_notice(stage),
{
    match stage {
        Stage::Work => "Trabajo terminado",
        Stage::Break => "Descanso terminado",
    }
}

/// A failure that the window reports in its notice bar, followed by the
/// failure's own description.
#[derive(Clone, Copy, Debug, PartialEq, Eq, Structural)]
pub enum Problem {
    /// The configuration file could not be read.
    LoadFailed,
    /// No configuration store could be set up.
    PersistenceUnavailable,
    /// The configuration could not be written.
    SaveFailed,
    /// No audio output could be opened.
    AudioUnavailable,
    /// The noise could not be started.
    PlayFailed,
    /// The noise could not be switched to another kind.
    NoiseChangeFailed,
    /// The timer refused a profile change.
    ProfileChangeRefused,
}

/// The words that introduce the description of `problem`.
pub open spec fn problem_lead(problem: Problem) -> Seq<char> {
    match problem {
        Problem::LoadFailed => "No se pudo cargar la configuración: "@,
        Problem::PersistenceUnavailable => "Persistencia no disponible: "@,
        Problem::SaveFailed => "No se pudo guardar: "@,
        Problem::AudioUnavailable => "Audio no disponible: "@,
        Problem::PlayFailed => "No se pudo reproducir: "@,
        Problem::NoiseChangeFailed => "No se pudo cambiar el ruido: "@,
        Problem::ProfileChangeRefused => "Reiniciá el temporizador antes de cambiar el perfil: "@,
    }
}

fn problem_lead_str(problem: Problem) -> (r: &'static str)
    ensures
        r@ == problem_lead(problem),
{
    match problem {
        Problem::LoadFailed => "No se pudo cargar la configuración: ",
        Problem::PersistenceUnavailable => "Persistencia no disponible: ",
        Problem::SaveFailed => "No se pudo guardar: ",
        Problem::AudioUnavailable => "Audio no disponible: ",
        Problem::PlayFailed => "No se pudo reproducir: ",
        Problem::NoiseChangeFailed => "No se pudo cambiar el ruido: ",
        Problem::ProfileChangeRefused => "Reiniciá el temporizador antes de cambiar el perfil: ",
    }
}

/// The notice for `problem`, whose own description is `detail`.
pub fn problem_notice(problem: Problem, detail: &str) -> (r: String)
    ensures
        r@ == problem_lead(problem) + detail@,
{
    let mut out = String::new();
    out.append(problem_lead_str(problem));
    out.append(detail);
    out
}

/// Text of the notice shown when a damaged configuration was set aside.
pub open spec fn recovered_notice_text() -> Seq<char> {
    "La configuración dañada fue respaldada; se restauraron valores predeterminados."@
}

/// The notice shown when a damaged configuration was set aside and the
/// defaults were restored.
pub fn recovered_notice() -> (r: String)
    ensures
        r@ == recovered_notice_text(),
{
    let mut out = String::new();
    out.append("La configuración dañada fue respaldada; se restauraron valores predeterminados.");
    out
}

/// Words between the finished stage and the description of a desktop
/// notification that could not be shown.
pub open spec fn notification_lead() -> Seq<char> {
    ". Notificación no disponible: "@
}

/// The notice for a finished `stage` whose desktop notification could not
/// be shown, for the reason `detail`.
pub fn notification_failed_notice(stage: Stage, detail: &str) -> (r: String)
    ensures
        r@ == finished_notice(stage) + notification_lead() + detail@,
{
    let mut out = String::new();
    out.append(stage_finished_notice(stage));
    out.append(". Notificación no disponible: ");
    out.append(detail);
    out
}

impl Session {
    /// The session described by a loaded configuration on day `today`: the
    /// custom minutes are brought into range, the profile is restored, a
    /// running or paused stage comes back paused with its stored seconds
    /// left, the day's session count carries over when it was stored on
    /// `today`, and the tasks are loaded in order.
    pub fn from_config(config: AppConfig, notice: Option<String>, today: &str) -> (r: Session)
        ensures
            is_restored(config, notice, today@, r),
    {
        let prefs = config.preferences.pomodoro;
        let custom_work = clamp_minutes(prefs.work_minutes);
        let custom_break = clamp_minutes(prefs.break_minutes);
        let profile = match prefs.profile {
            PomodoroProfile::Classic => Profile::Classic,
            PomodoroProfile::Deep => Profile::Deep,
            PomodoroProfile::Custom => match Profile::custom(custom_work, custom_break) {
                Ok(p) => p,
                Err(_) => Profile::Classic,
            },
        };
        let left = Duration::from_secs(config.pomodoro.remaining_seconds as u64);
        let restored = match config.pomodoro.phase {
            PomodoroPhase::Work | PomodoroPhase::WorkPaused => Pomodoro::restore(profile, Stage::Work, left),
            PomodoroPhase::Break | PomodoroPhase::BreakPaused => Pomodoro::restore(profile, Stage::Break, left),
            PomodoroPhase::Stopped | PomodoroPhase::Finished => Pomodoro::new(profile),
        };
        let mut timer = match restored {
            Ok(t) => t,
            Err(_) => Pomodoro::default(),
        };
        let session_date = String::from_str(today);
        let same_day = match &config.pomodoro.session_date {
            Some(stored) => stored.eq(&session_date),
            None => false,
        };
        let count = if same_day { config.pomodoro.sessions_completed_today } else { 0 };
        timer.set_completed_work_sessions_today(count);
        let ghost records = config.tasks@;
        let n = config.tasks.len();
        let mut loaded: Vec<Task> = Vec::new();
        let mut i: usize = 0;
        while i < n
            invariant
                n == records.len(),
                records == config.tasks@,
                i <= n,
                loaded@.len() == i,
                forall|j: int| 0 <= j < i ==> #[trigger] loaded@[j] == record_task(records[j]),
            decreases n - i,
        {
            let record = &config.tasks[i];
            loaded.push(
                Task {
                    id: TaskId::from_raw(record.id),
                    text: record.text.clone(),
                    completed: record.completed,
                    position: record.position,
                    created_at: record.created_at,
                },
            );
            i = i + 1;
        }
        proof {
            assert(loaded@ =~= records.map_values(|r: TaskRecord| record_task(r)));
        }
        Session {
            tab: Tab::Noise,
            noise_kind: load_noise(config.preferences.noise.kind),
            volume: capped_volume(config.preferences.noise.volume),
            timer,
            custom_work,
            custom_break,
            tasks: TaskList::from_tasks(loaded),
            task_draft: String::new(),
            notice,
            session_date,
        }
    }

    /// The configuration that stores this session at instant `now`.
    pub fn config_at(&self, now: Instant) -> (r: AppConfig)
        ensures
            is_snapshot(*self, now@, r),
    {
        let seconds = self.timer.remaining_seconds_at(now);
        let remaining_seconds: u32 = if seconds <= u32::MAX as u64 {
            seconds as u32
        } else {
            u32::MAX
        };
        let list = self.tasks.as_slice();
        let n = list.len();
        let mut records: Vec<TaskRecord> = Vec::new();
        let mut i: usize = 0;
        while i < n
            invariant
                n == list@.len(),
                list@ == self.tasks@,
                i <= n,
                records@.len() == i,
                forall|j: int| 0 <= j < i ==> #[trigger] records@[j] == task_record(list@[j]),
            decreases n - i,
        {
            let task = &list[i];
            records.push(
                TaskRecord {
                    id: task.id.raw(),
                    text: task.text.clone(),
                    completed: task.completed,
                    position: task.position,
                    created_at: task.created_at,
                },
            );
            i = i + 1;
        }
        proof {
            assert(records@ =~= self.tasks@.map_values(|t: Task| task_record(t)));
        }
        AppConfig {
            schema_version: CURRENT_SCHEMA_VERSION,
            preferences: Preferences {
                noise: NoisePreferences {
                    kind: store_noise(self.noise_kind),
                    volume: self.volume,
                    playing: false,
                },
                pomodoro: PomodoroPreferences {
                    profile: stored_profile_of(self.timer.profile()),
                    work_minutes: self.custom_work,
                    break_minutes: self.custom_break,
                    auto_start_break: false,
                    auto_start_work: false,
                },
                tasks: TaskPreferences { show_completed: true },
            },
            pomodoro: PomodoroState {
                phase: stored_phase_of(self.timer.state()),
                running: false,
                remaining_seconds,
                sessions_completed_today: self.timer.completed_work_sessions_today(),
                session_date: Some(self.session_date.clone()),
            },
            tasks: records,
        }
    }

    /// The configuration that stores this session now, by the timer's clock.
    pub fn config(&self) -> (r: AppConfig)
        ensures
            exists|now: Instant| #[trigger] is_snapshot(*self, now@, r),
    {
        self.config_at(self.timer.now())
    }

    /// Starts a new day when `today` is not the day the session count
    /// belongs to: the count goes back to zero.  Nothing else changes.
    pub fn roll_over_day(&mut self, today: &str)
        ensures
            final(self).session_date@ == today@,
            final(self).timer@ == if old(self).session_date@ == today@ {
                old(self).timer@
            } else {
                TimerView { completed: 0, ..old(self).timer@ }
            },
            final(self).tab == old(self).tab,
            final(self).noise_kind == old(self).noise_kind,
            final(self).volume == old(self).volume,
            final(self).custom_work == old(self).custom_work,
            final(self).custom_break == old(self).custom_break,
            final(self).tasks@ == old(self).tasks@,
            final(self).task_draft@ == old(self).task_draft@,
            final(self).notice == old(self).notice,
    {
        let day = String::from_str(today);
        if !self.session_date.eq(&day) {
            self.timer.set_completed_work_sessions_today(0);
            self.session_date = day;
        }
    }

    /// Carries out a request of the timer view at `now`: the main button
    /// pauses a running stage and starts otherwise.  Returns the event of a
    /// transition that happened.
    pub fn perform_timer_action_at(&mut self, action: Action, now: Instant) -> (r: Option<TimerEvent>)
        ensures
            (final(self).timer@, r) == action_result(old(self).timer@, action, now@),
            final(self).tab == old(self).tab,
            final(self).noise_kind == old(self).noise_kind,
            final(self).volume == old(self).volume,
            final(self).custom_work == old(self).custom_work,
            final(self).custom_break == old(self).custom_break,
            final(self).tasks@ == old(self).tasks@,
            final(self).task_draft@ == old(self).task_draft@,
            final(self).notice == old(self).notice,
    {
        match action {
            Action::Idle => None,
            Action::StartPause => {
                if self.timer.is_running() {
                    self.timer.pause_at(now).ok()
                } else {
                    self.timer.start_at(now).ok()
                }
            },
            Action::Resume => self.timer.resume_at(now).ok(),
            Action::Skip => Some(self.timer.skip_stage_at(now)),
            Action::Reset => Some(self.timer.reset_at(now)),
            Action::Advance => self.timer.advance_stage_at(now).ok(),
        }
    }

    /// Carries out a request of the timer view now, by the timer's clock.
    pub fn perform_timer_action(&mut self, action: Action) -> (r: Option<TimerEvent>)
        ensures
            exists|now: Instant| (final(self).timer@, r) == #[trigger] action_result(old(self).timer@, action, now@),
            final(self).tab == old(self).tab,
            final(self).noise_kind == old(self).noise_kind,
            final(self).volume == old(self).volume,
            final(self).custom_work == old(self).custom_work,
            final(self).custom_break == old(self).custom_break,
            final(self).tasks@ == old(self).tasks@,
            final(self).task_draft@ == old(self).task_draft@,
            final(self).notice == old(self).notice,
    {
        let now = self.timer.now();
        self.perform_timer_action_at(action, now)
    }
}

} // verus!
