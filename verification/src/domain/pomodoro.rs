//! Pomodoro timer state machine.
//!
//! Every operation that depends on the clock has an `*_at(Instant)` variant,
//! so that callers can drive the timer with a deterministic clock; the plain
//! variants read the system clock and then behave like the `*_at` variant
//! for the instant that was read.
use vstd::prelude::*;

use crate::clock::{Duration, Instant, MonotonicClock};
use crate::text::{decimal, push_decimal};

verus! {

/// Shortest allowed stage, in minutes.
pub const MIN_PROFILE_MINUTES: u16 = 1;

/// Longest allowed stage, in minutes.
pub const MAX_PROFILE_MINUTES: u16 = 180;

/// Timer profiles: how long the work and break stages last.
#[derive(Clone, Copy, Debug, PartialEq, Eq, Structural)]
pub enum Profile {
    /// 25 minutes of work and 5 of rest.
    Classic,
    /// 90 minutes of work and 10 of rest.
    Deep,
    /// Durations chosen by the user, in minutes.
    Custom { work_minutes: u16, break_minutes: u16 },
}

/// Reason why a profile is rejected.
#[derive(Clone, Copy, Debug, PartialEq, Eq, Structural)]
pub enum ProfileError {
    WorkDurationOutOfRange { minutes: u16 },
    BreakDurationOutOfRange { minutes: u16 },
}

/// Part of the cycle that is running or ready to start.
#[derive(Clone, Copy, Debug, PartialEq, Eq, Structural)]
pub enum Stage {
    Work,
    Break,
}

/// Observable states of the timer.
#[derive(Clone, Copy, Debug, PartialEq, Eq, Structural)]
pub enum TimerState {
    Stopped,
    WorkRunning,
    WorkPaused,
    BreakRunning,
    BreakPaused,
    Finished,
}

/// Why a requested transition was refused.
#[derive(Clone, Copy, Debug, PartialEq, Eq, Structural)]
pub enum TimerError {
    InvalidProfile(ProfileError),
    AlreadyRunning,
    NotRunning,
    NotPaused,
    CannotStartFromFinished,
}

/// Facts reported to the user interface, notifications or persistence.
#[derive(Clone, Copy, Debug, PartialEq, Eq, Structural)]
pub enum TimerEvent {
    Started(Stage),
    Paused(Stage),
    Resumed(Stage),
    StageFinished(Stage),
    StageAdvanced(Stage),
    Reset,
}

// ---------------------------------------------------------------------------
// Specification of profiles
// ---------------------------------------------------------------------------

/// Whether `minutes` is an allowed stage length.
pub open spec fn minutes_in_range(minutes: u16) -> bool {
    MIN_PROFILE_MINUTES <= minutes <= MAX_PROFILE_MINUTES
}

/// Work minutes of a profile.
pub open spec fn work_minutes_of(profile: Profile) -> u16 {
    match profile {
        Profile::Classic => 25,
        Profile::Deep => 90,
        Profile::Custom { work_minutes, .. } => work_minutes,
    }
}

/// Break minutes of a profile.
pub open spec fn break_minutes_of(profile: Profile) -> u16 {
    match profile {
        Profile::Classic => 5,
        Profile::Deep => 10,
        Profile::Custom { break_minutes, .. } => break_minutes,
    }
}

/// Minutes that `stage` lasts under `profile`.
pub open spec fn stage_minutes(profile: Profile, stage: Stage) -> u16 {
    match stage {
        Stage::Work => work_minutes_of(profile),
        Stage::Break => break_minutes_of(profile),
    }
}

/// Nanoseconds that `stage` lasts under `profile`.
pub open spec fn stage_nanos(profile: Profile, stage: Stage) -> nat {
    stage_minutes(profile, stage) as nat * 60 * 1_000_000_000
}

/// Outcome of validating a profile: the work stage is checked first.
pub open spec fn profile_check(profile: Profile) -> Result<(), ProfileError> {
    if !minutes_in_range(work_minutes_of(profile)) {
        Err(ProfileError::WorkDurationOutOfRange { minutes: work_minutes_of(profile) })
    } else if !minutes_in_range(break_minutes_of(profile)) {
        Err(ProfileError::BreakDurationOutOfRange { minutes: break_minutes_of(profile) })
    } else {
        Ok(())
    }
}

/// Whether both stages of `profile` have an allowed length.
pub open spec fn profile_valid(profile: Profile) -> bool {
    profile_check(profile) is Ok
}

/// Display name of a profile.
pub open spec fn profile_name(profile: Profile) -> Seq<char> {
    match profile {
        Profile::Classic => "Clásico"@,
        Profile::Deep => "Profundo"@,
        Profile::Custom { .. } => "Personalizado"@,
    }
}

/// The stage that follows `stage`.
pub open spec fn next_stage(stage: Stage) -> Stage {
    match stage {
        Stage::Work => Stage::Break,
        Stage::Break => Stage::Work,
    }
}

/// Running state of a stage.
pub open spec fn running_state_of(stage: Stage) -> TimerState {
    match stage {
        Stage::Work => TimerState::WorkRunning,
        Stage::Break => TimerState::BreakRunning,
    }
}

/// Paused state of a stage.
pub open spec fn paused_state_of(stage: Stage) -> TimerState {
    match stage {
        Stage::Work => TimerState::WorkPaused,
        Stage::Break => TimerState::BreakPaused,
    }
}

/// Whether the state is one of the running states.
pub open spec fn is_running_state(state: TimerState) -> bool {
    state == TimerState::WorkRunning || state == TimerState::BreakRunning
}

/// Whether the state is one of the paused states.
pub open spec fn is_paused_state(state: TimerState) -> bool {
    state == TimerState::WorkPaused || state == TimerState::BreakPaused
}

fn validate_minutes(minutes: u16, stage: Stage) -> (r: Result<(), ProfileError>)
    ensures
        r == if minutes_in_range(minutes) {
            Ok::<(), ProfileError>(())
        } else {
            match stage {
                Stage::Work => Err::<(), ProfileError>(ProfileError::WorkDurationOutOfRange { minutes }),
                Stage::Break => Err::<(), ProfileError>(ProfileError::BreakDurationOutOfRange { minutes }),
            }
        },
{
    if !(MIN_PROFILE_MINUTES <= minutes && minutes <= MAX_PROFILE_MINUTES) {
        return Err(
            match stage {
                Stage::Work => ProfileError::WorkDurationOutOfRange { minutes },
                Stage::Break => ProfileError::BreakDurationOutOfRange { minutes },
            },
        );
    }
    Ok(())
}

impl Default for Profile {
    fn default() -> (r: Profile)
        ensures
            r == Profile::Classic,
    {
        Profile::Classic
    }
}

impl Profile {
    /// Builds a custom profile, checking both stage lengths.
    pub fn custom(work_minutes: u16, break_minutes: u16) -> (r: Result<Profile, ProfileError>)
        ensures
            r == match profile_check(Profile::Custom { work_minutes, break_minutes }) {
                Ok(_) => Ok::<Profile, ProfileError>(Profile::Custom { work_minutes, break_minutes }),
                Err(e) => Err(e),
            },
    {
        let profile = Profile::Custom { work_minutes, break_minutes };
        match profile.validate() {
            Ok(()) => Ok(profile),
            Err(e) => Err(e),
        }
    }

    /// Name shown in the interface.
    pub fn name(self) -> (r: &'static str)
        ensures
            r@ == profile_name(self),
    {
        match self {
            Profile::Classic => "Clásico",
            Profile::Deep => "Profundo",
            Profile::Custom { .. } => "Personalizado",
        }
    }

    /// Checks that both stages last between one and 180 minutes.
    pub fn validate(self) -> (r: Result<(), ProfileError>)
        ensures
            r == profile_check(self),
    {
        let (work, break_minutes) = self.minutes();
        match validate_minutes(work, Stage::Work) {
            Ok(()) => {},
            Err(e) => return Err(e),
        }
        validate_minutes(break_minutes, Stage::Break)
    }

    /// Work minutes of the profile.
    pub fn work_minutes(self) -> (r: u16)
        ensures
            r == work_minutes_of(self),
    {
        match self {
            Profile::Classic => 25,
            Profile::Deep => 90,
            Profile::Custom { work_minutes, .. } => work_minutes,
        }
    }

    /// Break minutes of the profile.
    pub fn break_minutes(self) -> (r: u16)
        ensures
            r == break_minutes_of(self),
    {
        match self {
            Profile::Classic => 5,
            Profile::Deep => 10,
            Profile::Custom { break_minutes, .. } => break_minutes,
        }
    }

    /// How long `stage` lasts under this profile.
    pub fn duration(self, stage: Stage) -> (r: Duration)
        ensures
            r@ == stage_nanos(self, stage),
    {
        let minutes = match stage {
            Stage::Work => self.work_minutes(),
            Stage::Break => self.break_minutes(),
        };
        Duration::from_secs(minutes as u64 * 60)
    }

    fn minutes(self) -> (r: (u16, u16))
        ensures
            r == (work_minutes_of(self), break_minutes_of(self)),
    {
        (self.work_minutes(), self.break_minutes())
    }
}

impl Stage {
    fn next(self) -> (r: Stage)
        ensures
            r == next_stage(self),
    {
        match self {
            Stage::Work => Stage::Break,
            Stage::Break => Stage::Work,
        }
    }
}

impl TimerState {
    /// Whether a stage is running.
    pub fn is_running(self) -> (r: bool)
        ensures
            r == is_running_state(self),
    {
        matches!(self, TimerState::WorkRunning | TimerState::BreakRunning)
    }

    /// Whether a stage is paused.
    pub fn is_paused(self) -> (r: bool)
        ensures
            r == is_paused_state(self),
    {
        matches!(self, TimerState::WorkPaused | TimerState::BreakPaused)
    }
}

impl From<ProfileError> for TimerError {
    fn from(error: ProfileError) -> (r: TimerError) {
        TimerError::InvalidProfile(error)
    }
}

impl vstd::std_specs::convert::FromSpecImpl<ProfileError> for TimerError {
    open spec fn obeys_from_spec() -> bool {
        true
    }

    open spec fn from_spec(error: ProfileError) -> TimerError {
        TimerError::InvalidProfile(error)
    }
}

/// Text shown for a rejected profile.
pub open spec fn profile_error_message(error: ProfileError) -> Seq<char> {
    let (prefix, minutes) = match error {
        ProfileError::WorkDurationOutOfRange { minutes } => ("la duración de trabajo ("@, minutes),
        ProfileError::BreakDurationOutOfRange { minutes } => ("la duración de descanso ("@, minutes),
    };
    prefix + decimal(minutes as nat) + " min) debe estar entre "@ + decimal(
        MIN_PROFILE_MINUTES as nat,
    ) + " y "@ + decimal(MAX_PROFILE_MINUTES as nat) + " minutos"@
}

/// Text shown for a refused transition.
pub open spec fn timer_error_message(error: TimerError) -> Seq<char> {
    match error {
        TimerError::InvalidProfile(e) => profile_error_message(e),
        TimerError::AlreadyRunning => "el temporizador ya está en curso"@,
        TimerError::NotRunning => "el temporizador no está en curso"@,
        TimerError::NotPaused => "el temporizador no está pausado"@,
        TimerError::CannotStartFromFinished => "una etapa terminada debe avanzar a la siguiente antes de iniciar"@,
    }
}

impl ProfileError {
    /// Human-readable description of the error.
    pub fn message(&self) -> (r: String)
        ensures
            r@ == profile_error_message(*self),
    {
        let (prefix, minutes) = match self {
            ProfileError::WorkDurationOutOfRange { minutes } => ("la duración de trabajo (", *minutes),
            ProfileError::BreakDurationOutOfRange { minutes } => ("la duración de descanso (", *minutes),
        };
        let mut out = String::from_str(prefix);
        push_decimal(&mut out, minutes as u64);
        out.append(" min) debe estar entre ");
        push_decimal(&mut out, MIN_PROFILE_MINUTES as u64);
        out.append(" y ");
        push_decimal(&mut out, MAX_PROFILE_MINUTES as u64);
        out.append(" minutos");
        out
    }
}

impl TimerError {
    /// Human-readable description of the error.
    pub fn message(&self) -> (r: String)
        ensures
            r@ == timer_error_message(*self),
    {
        match self {
            TimerError::InvalidProfile(e) => e.message(),
            TimerError::AlreadyRunning => String::from_str("el temporizador ya está en curso"),
            TimerError::NotRunning => String::from_str("el temporizador no está en curso"),
            TimerError::NotPaused => String::from_str("el temporizador no está pausado"),
            TimerError::CannotStartFromFinished => String::from_str(
                "una etapa terminada debe avanzar a la siguiente antes de iniciar",
            ),
        }
    }
}

fn running_state(stage: Stage) -> (r: TimerState)
    ensures
        r == running_state_of(stage),
{
    match stage {
        Stage::Work => TimerState::WorkRunning,
        Stage::Break => TimerState::BreakRunning,
    }
}

fn paused_state(stage: Stage) -> (r: TimerState)
    ensures
        r == paused_state_of(stage),
{
    match stage {
        Stage::Work => TimerState::WorkPaused,
        Stage::Break => TimerState::BreakPaused,
    }
}


// ---------------------------------------------------------------------------
// The timer
// ---------------------------------------------------------------------------

/// Pomodoro state machine without outside dependencies.
#[derive(Debug)]
pub struct Pomodoro {
    profile: Profile,
    state: TimerState,
    stage: Stage,
    remaining: Duration,
    started_at: Option<Instant>,
    completed_work_sessions_today: u32,
    /// The clock that the operations without an explicit instant read.
    clock: MonotonicClock,
}

/// Abstract state of a timer: instants and spans are in nanoseconds.
pub struct TimerView {
    pub profile: Profile,
    pub state: TimerState,
    pub stage: Stage,
    /// Time left in the stage when it was last started, resumed or paused.
    pub remaining: nat,
    /// When the running stage was last started or resumed.
    pub started_at: Option<nat>,
    pub completed: u32,
}

/// The state invariant that every operation keeps.
pub open spec fn timer_wf(v: TimerView) -> bool {
    &&& profile_valid(v.profile)
    &&& (is_running_state(v.state) <==> v.started_at is Some)
    &&& v.remaining <= stage_nanos(v.profile, v.stage)
    &&& (v.state == TimerState::Stopped ==> v.remaining == stage_nanos(v.profile, v.stage))
    &&& (v.state == TimerState::Finished <==> v.remaining == 0)
    &&& (v.state == TimerState::WorkRunning || v.state == TimerState::WorkPaused ==> v.stage == Stage::Work)
    &&& (v.state == TimerState::BreakRunning || v.state == TimerState::BreakPaused ==> v.stage == Stage::Break)
}

/// `a - b` on naturals, or zero when `b` is larger.
pub open spec fn sat_sub(a: nat, b: nat) -> nat {
    if a >= b { (a - b) as nat } else { 0 }
}

/// `c + 1`, staying at `u32::MAX`.
pub open spec fn sat_inc(c: u32) -> u32 {
    if c < u32::MAX { (c + 1) as u32 } else { c }
}

/// Time left at instant `now`.
pub open spec fn remaining_view(v: TimerView, now: nat) -> nat {
    match v.started_at {
        Some(start) => if is_running_state(v.state) {
            sat_sub(v.remaining, sat_sub(now, start))
        } else {
            v.remaining
        },
        None => v.remaining,
    }
}

/// A freshly created timer.
pub open spec fn new_view(profile: Profile) -> TimerView {
    TimerView {
        profile,
        state: TimerState::Stopped,
        stage: Stage::Work,
        remaining: stage_nanos(profile, Stage::Work),
        started_at: None,
        completed: 0,
    }
}

/// The current stage ends; a finished work stage counts as a session.
pub open spec fn finished_view(v: TimerView) -> TimerView {
    TimerView {
        remaining: 0,
        started_at: None,
        state: TimerState::Finished,
        completed: if v.stage == Stage::Work { sat_inc(v.completed) } else { v.completed },
        ..v
    }
}

/// Effect of `set_profile`.
pub open spec fn set_profile_result(v: TimerView, profile: Profile) -> (TimerView, Result<(), TimerError>) {
    match profile_check(profile) {
        Err(e) => (v, Err(TimerError::InvalidProfile(e))),
        Ok(_) => if v.state != TimerState::Stopped {
            (v, Err(TimerError::AlreadyRunning))
        } else {
            (
                TimerView {
                    profile,
                    stage: Stage::Work,
                    remaining: stage_nanos(profile, Stage::Work),
                    ..v
                },
                Ok(()),
            )
        },
    }
}

/// Effect of starting at `now`.
pub open spec fn start_result(v: TimerView, now: nat) -> (TimerView, Result<TimerEvent, TimerError>) {
    match v.state {
        TimerState::Stopped => (
            TimerView { started_at: Some(now), state: running_state_of(v.stage), ..v },
            Ok(TimerEvent::Started(v.stage)),
        ),
        TimerState::WorkRunning | TimerState::BreakRunning => (v, Err(TimerError::AlreadyRunning)),
        TimerState::WorkPaused | TimerState::BreakPaused => (v, Err(TimerError::NotPaused)),
        TimerState::Finished => (v, Err(TimerError::CannotStartFromFinished)),
    }
}

/// Effect of pausing at `now`: a stage whose time is up finishes instead.
pub open spec fn pause_result(v: TimerView, now: nat) -> (TimerView, Result<TimerEvent, TimerError>) {
    if !is_running_state(v.state) {
        (v, Err(TimerError::NotRunning))
    } else if remaining_view(v, now) == 0 {
        (finished_view(v), Ok(TimerEvent::StageFinished(v.stage)))
    } else {
        (
            TimerView {
                remaining: remaining_view(v, now),
                state: paused_state_of(v.stage),
                started_at: None,
                ..v
            },
            Ok(TimerEvent::Paused(v.stage)),
        )
    }
}

/// Effect of resuming at `now`.
pub open spec fn resume_result(v: TimerView, now: nat) -> (TimerView, Result<TimerEvent, TimerError>) {
    if !is_paused_state(v.state) {
        (v, Err(TimerError::NotPaused))
    } else {
        (
            TimerView { started_at: Some(now), state: running_state_of(v.stage), ..v },
            Ok(TimerEvent::Resumed(v.stage)),
        )
    }
}

/// Effect of a clock tick at `now`: a running stage whose time is up finishes.
pub open spec fn tick_result(v: TimerView, now: nat) -> (TimerView, Option<TimerEvent>) {
    if !is_running_state(v.state) || remaining_view(v, now) != 0 {
        (v, None)
    } else {
        (finished_view(v), Some(TimerEvent::StageFinished(v.stage)))
    }
}

/// The next stage, stopped and with its full duration.
pub open spec fn skip_view(v: TimerView) -> TimerView {
    TimerView {
        started_at: None,
        stage: next_stage(v.stage),
        remaining: stage_nanos(v.profile, next_stage(v.stage)),
        state: TimerState::Stopped,
        ..v
    }
}

/// Effect of advancing at `now`: skip to the next stage and start it.
pub open spec fn advance_result(v: TimerView, now: nat) -> (TimerView, Result<TimerEvent, TimerError>) {
    start_result(skip_view(v), now)
}

/// A stopped work stage with its full duration.
pub open spec fn reset_view(v: TimerView) -> TimerView {
    TimerView {
        started_at: None,
        stage: Stage::Work,
        remaining: stage_nanos(v.profile, Stage::Work),
        state: TimerState::Stopped,
        ..v
    }
}

/// A timer brought back from a stored stage: `stage` of `profile`, paused
/// with `remaining` left (at most the stage's length); a stage with no time
/// left comes back finished.  No session is counted.
pub open spec fn restored_view(profile: Profile, stage: Stage, remaining: nat) -> TimerView {
    let left = if remaining <= stage_nanos(profile, stage) {
        remaining
    } else {
        stage_nanos(profile, stage)
    };
    TimerView {
        profile,
        state: if left == 0 { TimerState::Finished } else { paused_state_of(stage) },
        stage,
        remaining: left,
        started_at: None,
        completed: 0,
    }
}

impl Pomodoro {
    #[verifier::type_invariant]
    spec fn well_formed(self) -> bool {
        timer_wf(self@)
    }
}

impl View for Pomodoro {
    type V = TimerView;

    closed spec fn view(&self) -> TimerView {
        TimerView {
            profile: self.profile,
            state: self.state,
            stage: self.stage,
            remaining: self.remaining@,
            started_at: match self.started_at {
                Some(t) => Some(t@),
                None => None,
            },
            completed: self.completed_work_sessions_today,
        }
    }
}

impl Clone for Pomodoro {
    fn clone(&self) -> (r: Pomodoro)
        ensures
            r@ == self@,
    {
        proof {
            use_type_invariant(self);
        }
        Pomodoro { ..*self }
    }
}

impl Pomodoro {
    /// A stopped timer, ready to start a work stage.
    pub fn new(profile: Profile) -> (r: Result<Pomodoro, ProfileError>)
        ensures
            match r {
                Ok(timer) => profile_check(profile) is Ok && timer@ == new_view(profile),
                Err(e) => profile_check(profile) == Err::<(), ProfileError>(e),
            },
    {
        match profile.validate() {
            Ok(()) => {},
            Err(e) => return Err(e),
        }
        let stage = Stage::Work;
        Ok(
            Pomodoro {
                profile,
                state: TimerState::Stopped,
                stage,
                remaining: profile.duration(stage),
                started_at: None,
                completed_work_sessions_today: 0,
                clock: MonotonicClock::start(),
            },
        )
    }

    /// A timer paused in `stage` with `remaining` left, as stored by an
    /// earlier run; the time left is capped at the stage's length, and a
    /// stage with no time left is finished.
    pub fn restore(profile: Profile, stage: Stage, remaining: Duration) -> (r: Result<Pomodoro, ProfileError>)
        ensures
            match r {
                Ok(timer) => profile_check(profile) is Ok && timer@ == restored_view(profile, stage, remaining@),
                Err(e) => profile_check(profile) == Err::<(), ProfileError>(e),
            },
    {
        match profile.validate() {
            Ok(()) => {},
            Err(e) => return Err(e),
        }
        let full = profile.duration(stage);
        let left = if remaining.as_nanos() <= full.as_nanos() { remaining } else { full };
        let state = if left.is_zero() { TimerState::Finished } else { paused_state(stage) };
        Ok(
            Pomodoro {
                profile,
                state,
                stage,
                remaining: left,
                started_at: None,
                completed_work_sessions_today: 0,
                clock: MonotonicClock::start(),
            },
        )
    }

    /// Gives callers the timer invariant of this value.
    pub fn check_well_formed(&self)
        ensures
            timer_wf(self@),
    {
        proof {
            use_type_invariant(self);
        }
    }

    pub fn profile(&self) -> (r: Profile)
        ensures
            r == self@.profile,
    {
        self.profile
    }

    /// Changes the profile; only a stopped timer accepts a new one.
    pub fn set_profile(&mut self, profile: Profile) -> (r: Result<(), TimerError>)
        ensures
            (final(self)@, r) == set_profile_result(old(self)@, profile),
    {
        proof {
            use_type_invariant(&*self);
        }
        match profile.validate() {
            Ok(()) => {},
            Err(e) => return Err(TimerError::InvalidProfile(e)),
        }
        if self.state != TimerState::Stopped {
            return Err(TimerError::AlreadyRunning);
        }
        let stage = Stage::Work;
        *self = Pomodoro { profile, stage, remaining: profile.duration(stage), ..*self };
        Ok(())
    }

    pub fn state(&self) -> (r: TimerState)
        ensures
            r == self@.state,
    {
        self.state
    }

    pub fn stage(&self) -> (r: Stage)
        ensures
            r == self@.stage,
    {
        self.stage
    }

    pub fn completed_work_sessions_today(&self) -> (r: u32)
        ensures
            r == self@.completed,
    {
        self.completed_work_sessions_today
    }

    /// Restores the daily counter loaded from persistence.
    pub fn set_completed_work_sessions_today(&mut self, count: u32)
        ensures
            final(self)@ == (TimerView { completed: count, ..old(self)@ }),
    {
        proof {
            use_type_invariant(&*self);
        }
        *self = Pomodoro { completed_work_sessions_today: count, ..*self };
    }

    pub fn is_running(&self) -> (r: bool)
        ensures
            r == is_running_state(self@.state),
    {
        self.state.is_running()
    }

    /// Time left at instant `now`, without changing the timer.
    pub fn remaining_at(&self, now: Instant) -> (r: Duration)
        ensures
            r@ == remaining_view(self@, now@),
    {
        match self.started_at {
            Some(start) => {
                if self.state.is_running() {
                    self.remaining.saturating_sub(now.saturating_duration_since(start))
                } else {
                    self.remaining
                }
            },
            None => self.remaining,
        }
    }

    /// Whole seconds left at instant `now`.
    pub fn remaining_seconds_at(&self, now: Instant) -> (r: u64)
        ensures
            r == remaining_view(self@, now@) / 1_000_000_000,
    {
        self.remaining_at(now).as_secs()
    }

    /// Starts the current stage at `now`.  A finished stage must first be
    /// advanced, so that the previous stage is not repeated by accident.
    pub fn start_at(&mut self, now: Instant) -> (r: Result<TimerEvent, TimerError>)
        ensures
            (final(self)@, r) == start_result(old(self)@, now@),
    {
        proof {
            use_type_invariant(&*self);
        }
        match self.state {
            TimerState::Stopped => {
                let state = running_state(self.stage);
                *self = Pomodoro { started_at: Some(now), state, ..*self };
                Ok(TimerEvent::Started(self.stage))
            },
            TimerState::WorkRunning | TimerState::BreakRunning => Err(TimerError::AlreadyRunning),
            TimerState::WorkPaused | TimerState::BreakPaused => Err(TimerError::NotPaused),
            TimerState::Finished => Err(TimerError::CannotStartFromFinished),
        }
    }

    /// Pauses the running stage at `now`; one whose time is up finishes.
    pub fn pause_at(&mut self, now: Instant) -> (r: Result<TimerEvent, TimerError>)
        ensures
            (final(self)@, r) == pause_result(old(self)@, now@),
    {
        proof {
            use_type_invariant(&*self);
        }
        if !self.state.is_running() {
            return Err(TimerError::NotRunning);
        }
        let remaining = self.remaining_at(now);
        let stage = self.stage;
        if remaining.is_zero() {
            self.finish_current_stage();
            return Ok(TimerEvent::StageFinished(stage));
        }
        let state = paused_state(stage);
        *self = Pomodoro { remaining, state, started_at: None, ..*self };
        Ok(TimerEvent::Paused(stage))
    }

    /// Resumes the paused stage at `now`.
    pub fn resume_at(&mut self, now: Instant) -> (r: Result<TimerEvent, TimerError>)
        ensures
            (final(self)@, r) == resume_result(old(self)@, now@),
    {
        proof {
            use_type_invariant(&*self);
        }
        if !self.state.is_paused() {
            return Err(TimerError::NotPaused);
        }
        let state = running_state(self.stage);
        *self = Pomodoro { started_at: Some(now), state, ..*self };
        Ok(TimerEvent::Resumed(self.stage))
    }

    /// Updates the timer at `now`, reporting a stage that has just finished.
    pub fn tick_at(&mut self, now: Instant) -> (r: Option<TimerEvent>)
        ensures
            (final(self)@, r) == tick_result(old(self)@, now@),
    {
        proof {
            use_type_invariant(&*self);
        }
        if !self.state.is_running() || !self.remaining_at(now).is_zero() {
            return None;
        }
        let stage = self.stage;
        self.finish_current_stage();
        Some(TimerEvent::StageFinished(stage))
    }

    /// Moves to the next stage and leaves it stopped, ready to start.
    pub fn skip_stage_at(&mut self, now: Instant) -> (r: TimerEvent)
        ensures
            final(self)@ == skip_view(old(self)@),
            r == TimerEvent::StageAdvanced(next_stage(old(self)@.stage)),
    {
        proof {
            use_type_invariant(&*self);
        }
        let stage = self.stage.next();
        let remaining = self.profile.duration(stage);
        *self = Pomodoro { started_at: None, stage, remaining, state: TimerState::Stopped, ..*self };
        TimerEvent::StageAdvanced(stage)
    }

    /// Moves to the next stage and starts it at once.
    pub fn advance_stage_at(&mut self, now: Instant) -> (r: Result<TimerEvent, TimerError>)
        ensures
            (final(self)@, r) == advance_result(old(self)@, now@),
    {
        self.skip_stage_at(now);
        self.start_at(now)
    }

    /// Restarts the cycle from a stopped work stage.
    pub fn reset_at(&mut self, now: Instant) -> (r: TimerEvent)
        ensures
            final(self)@ == reset_view(old(self)@),
            r == TimerEvent::Reset,
    {
        proof {
            use_type_invariant(&*self);
        }
        let stage = Stage::Work;
        let remaining = self.profile.duration(stage);
        *self = Pomodoro { started_at: None, stage, remaining, state: TimerState::Stopped, ..*self };
        TimerEvent::Reset
    }

    fn finish_current_stage(&mut self)
        requires
            old(self)@.state != TimerState::Stopped,
        ensures
            final(self)@ == finished_view(old(self)@),
    {
        proof {
            use_type_invariant(&*self);
        }
        let completed = if self.stage == Stage::Work {
            self.completed_work_sessions_today.saturating_add(1)
        } else {
            self.completed_work_sessions_today
        };
        *self = Pomodoro {
            remaining: Duration::zero(),
            started_at: None,
            state: TimerState::Finished,
            completed_work_sessions_today: completed,
            ..*self
        };
    }
}

impl Default for Pomodoro {
    /// A stopped timer with the classic profile.
    fn default() -> (r: Pomodoro)
        ensures
            r@ == new_view(Profile::Classic),
    {
        let profile = Profile::Classic;
        let stage = Stage::Work;
        Pomodoro {
            profile,
            state: TimerState::Stopped,
            stage,
            remaining: profile.duration(stage),
            started_at: None,
            completed_work_sessions_today: 0,
            clock: MonotonicClock::start(),
        }
    }
}

/// Operations that read the timer's monotonic clock and then act as their
/// `*_at` counterpart for the instant that was read.  The clock starts from
/// the system clock's reading when the timer is made, so its instants can be
/// mixed with those of `Instant::now`; a later change to the system clock
/// does not affect them.
impl Pomodoro {
    /// The timer's clock reading now.
    pub fn now(&self) -> (r: Instant) {
        self.clock.now()
    }

    /// Time left now.
    pub fn remaining(&self) -> (r: Duration)
        ensures
            exists|now: Instant| r@ == #[trigger] remaining_view(self@, now@),
    {
        self.remaining_at(self.clock.now())
    }

    /// Whole seconds left now.
    pub fn remaining_seconds(&self) -> (r: u64)
        ensures
            exists|now: Instant| r == #[trigger] remaining_view(self@, now@) / 1_000_000_000,
    {
        self.remaining_seconds_at(self.clock.now())
    }

    /// Starts the current stage now.
    pub fn start(&mut self) -> (r: Result<TimerEvent, TimerError>)
        ensures
            exists|now: Instant| (final(self)@, r) == #[trigger] start_result(old(self)@, now@),
    {
        let now = self.clock.now();
        self.start_at(now)
    }

    /// Pauses the running stage now.
    pub fn pause(&mut self) -> (r: Result<TimerEvent, TimerError>)
        ensures
            exists|now: Instant| (final(self)@, r) == #[trigger] pause_result(old(self)@, now@),
    {
        let now = self.clock.now();
        self.pause_at(now)
    }

    /// Resumes the paused stage now.
    pub fn resume(&mut self) -> (r: Result<TimerEvent, TimerError>)
        ensures
            exists|now: Instant| (final(self)@, r) == #[trigger] resume_result(old(self)@, now@),
    {
        let now = self.clock.now();
        self.resume_at(now)
    }

    /// Updates the timer now, reporting a stage that has just finished.
    pub fn tick(&mut self) -> (r: Option<TimerEvent>)
        ensures
            exists|now: Instant| (final(self)@, r) == #[trigger] tick_result(old(self)@, now@),
    {
        let now = self.clock.now();
        self.tick_at(now)
    }

    /// Moves to the next stage and leaves it stopped.
    pub fn skip_stage(&mut self) -> (r: TimerEvent)
        ensures
            final(self)@ == skip_view(old(self)@),
            r == TimerEvent::StageAdvanced(next_stage(old(self)@.stage)),
    {
        let now = self.clock.now();
        self.skip_stage_at(now)
    }

    /// Moves to the next stage and starts it now.
    pub fn advance_stage(&mut self) -> (r: Result<TimerEvent, TimerError>)
        ensures
            exists|now: Instant| (final(self)@, r) == #[trigger] advance_result(old(self)@, now@),
    {
        let now = self.clock.now();
        self.advance_stage_at(now)
    }

    /// Restarts the cycle from a stopped work stage.
    pub fn reset(&mut self) -> (r: TimerEvent)
        ensures
            final(self)@ == reset_view(old(self)@),
            r == TimerEvent::Reset,
    {
        let now = self.clock.now();
        self.reset_at(now)
    }
}

// ---------------------------------------------------------------------------
// Laws of the timer
// ---------------------------------------------------------------------------

/// Both built-in profiles are valid, and a custom profile is valid exactly
/// when each of its stages lasts between one and 180 minutes.
pub proof fn lemma_profile_validity(work_minutes: u16, break_minutes: u16)
    ensures
        profile_valid(Profile::Classic),
        profile_valid(Profile::Deep),
        profile_valid(Profile::Custom { work_minutes, break_minutes }) <==> (1 <= work_minutes
            <= 180 && 1 <= break_minutes <= 180),
{
}

/// Work and break alternate: the stage after the next one is the stage itself.
pub proof fn lemma_stages_alternate(stage: Stage)
    ensures
        next_stage(stage) != stage,
        next_stage(next_stage(stage)) == stage,
{
}

/// Every operation keeps the timer invariant, and every timer that is
/// created or restored satisfies it.
pub proof fn lemma_operations_keep_invariant(
    v: TimerView,
    now: nat,
    profile: Profile,
    count: u32,
    stage: Stage,
    remaining: nat,
)
    requires
        timer_wf(v),
    ensures
        timer_wf(set_profile_result(v, profile).0),
        timer_wf(start_result(v, now).0),
        timer_wf(pause_result(v, now).0),
        timer_wf(resume_result(v, now).0),
        timer_wf(tick_result(v, now).0),
        timer_wf(skip_view(v)),
        timer_wf(advance_result(v, now).0),
        timer_wf(reset_view(v)),
        timer_wf(TimerView { completed: count, ..v }),
        profile_valid(profile) ==> timer_wf(new_view(profile)),
        profile_valid(profile) ==> timer_wf(restored_view(profile, stage, remaining)),
{
}

/// While time passes the time left never grows, and it never exceeds the
/// length of the current stage.
pub proof fn lemma_remaining_never_increases(v: TimerView, earlier: nat, later: nat)
    requires
        timer_wf(v),
        earlier <= later,
    ensures
        remaining_view(v, later) <= remaining_view(v, earlier),
        remaining_view(v, earlier) <= stage_nanos(v.profile, v.stage),
{
}

/// A running stage finishes on a tick exactly when the time elapsed since it
/// was started or resumed reaches the time that was left then.
pub proof fn lemma_tick_finishes_when_time_is_up(v: TimerView, now: nat)
    requires
        timer_wf(v),
        is_running_state(v.state),
    ensures
        tick_result(v, now).1 is Some <==> now >= v.started_at->0 + v.remaining,
        tick_result(v, now).1 is Some ==> tick_result(v, now).0.state == TimerState::Finished,
{
}

/// Pausing and resuming does not count the paused time: while paused the
/// time left is frozen, and after resuming it runs down from where it was.
pub proof fn lemma_paused_time_is_not_counted(
    v: TimerView,
    paused_at: nat,
    resumed_at: nat,
    elapsed: nat,
    any_time: nat,
)
    requires
        timer_wf(v),
        is_running_state(v.state),
        remaining_view(v, paused_at) > 0,
    ensures
        pause_result(v, paused_at).1 == Ok::<TimerEvent, TimerError>(TimerEvent::Paused(v.stage)),
        remaining_view(pause_result(v, paused_at).0, any_time) == remaining_view(v, paused_at),
        remaining_view(resume_result(pause_result(v, paused_at).0, resumed_at).0, resumed_at + elapsed)
            == sat_sub(remaining_view(v, paused_at), elapsed),
{
}

/// Only a finished work stage counts as a completed session: ticking or
/// pausing a work stage whose time is up adds one (staying at `u32::MAX`),
/// and no other operation changes the count.
pub proof fn lemma_sessions_count_finished_work(v: TimerView, now: nat, profile: Profile)
    requires
        timer_wf(v),
    ensures
        tick_result(v, now).0.completed == if tick_result(v, now).1 is Some && v.stage
            == Stage::Work {
            sat_inc(v.completed)
        } else {
            v.completed
        },
        pause_result(v, now).0.completed == if pause_result(v, now).1 == Ok::<
            TimerEvent,
            TimerError,
        >(TimerEvent::StageFinished(Stage::Work)) {
            sat_inc(v.completed)
        } else {
            v.completed
        },
        start_result(v, now).0.completed == v.completed,
        resume_result(v, now).0.completed == v.completed,
        skip_view(v).completed == v.completed,
        advance_result(v, now).0.completed == v.completed,
        reset_view(v).completed == v.completed,
        set_profile_result(v, profile).0.completed == v.completed,
{
}

/// Resetting gives back a freshly created timer of the same profile, apart
/// from the count of completed sessions.
pub proof fn lemma_reset_restores_fresh_timer(v: TimerView)
    requires
        timer_wf(v),
    ensures
        reset_view(v) == (TimerView { completed: v.completed, ..new_view(v.profile) }),
{
}

/// Advancing always starts the following stage with its full length.
pub proof fn lemma_advance_starts_next_stage(v: TimerView, now: nat)
    requires
        timer_wf(v),
    ensures
        advance_result(v, now) == (
            TimerView {
                started_at: Some(now),
                state: running_state_of(next_stage(v.stage)),
                stage: next_stage(v.stage),
                remaining: stage_nanos(v.profile, next_stage(v.stage)),
                ..v
            },
            Ok::<TimerEvent, TimerError>(TimerEvent::Started(next_stage(v.stage))),
        ),
{
}

/// A profile change is accepted only by a stopped timer, and only for a
/// valid profile.
pub proof fn lemma_profile_changes_only_when_stopped(v: TimerView, profile: Profile)
    requires
        timer_wf(v),
    ensures
        set_profile_result(v, profile).1 is Ok <==> (profile_valid(profile) && v.state
            == TimerState::Stopped),
        set_profile_result(v, profile).1 is Err ==> set_profile_result(v, profile).0 == v,
{
}

} // verus!
