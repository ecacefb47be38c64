use benteveo::clock::{Duration, Instant, MonotonicClock};
use benteveo::domain::pomodoro::{
    Pomodoro, Profile, ProfileError, Stage, TimerError, TimerEvent, TimerState,
};

fn profile() -> Profile {
    Profile::custom(1, 2).expect("valid test profile")
}

#[test]
fn default_profiles_have_plan_durations() {
    assert_eq!(Profile::Classic.work_minutes(), 25);
    assert_eq!(Profile::Classic.break_minutes(), 5);
    assert_eq!(Profile::Deep.work_minutes(), 90);
    assert_eq!(Profile::Deep.break_minutes(), 10);
}

#[test]
fn custom_profile_validates_both_bounds() {
    assert!(Profile::custom(1, 180).is_ok());
    assert_eq!(
        Profile::custom(0, 5),
        Err(ProfileError::WorkDurationOutOfRange { minutes: 0 })
    );
    assert_eq!(
        Profile::custom(5, 181),
        Err(ProfileError::BreakDurationOutOfRange { minutes: 181 })
    );
}

#[test]
fn start_and_finish_work_use_simulated_instants() {
    let origin = Instant::now();
    let mut timer = Pomodoro::new(profile()).unwrap();
    assert_eq!(timer.state(), TimerState::Stopped);
    assert_eq!(timer.start_at(origin), Ok(TimerEvent::Started(Stage::Work)));
    assert_eq!(
        timer.remaining_at(origin + Duration::from_secs(59)),
        Duration::from_secs(1)
    );
    assert_eq!(
        timer.tick_at(origin + Duration::from_secs(60)),
        Some(TimerEvent::StageFinished(Stage::Work))
    );
    assert_eq!(timer.state(), TimerState::Finished);
    assert_eq!(timer.completed_work_sessions_today(), 1);
    assert_eq!(timer.tick_at(origin + Duration::from_secs(61)), None);
}

#[test]
fn pause_and_resume_do_not_count_paused_time() {
    let origin = Instant::now();
    let mut timer = Pomodoro::new(profile()).unwrap();
    timer.start_at(origin).unwrap();
    timer.pause_at(origin + Duration::from_secs(20)).unwrap();
    assert_eq!(timer.state(), TimerState::WorkPaused);
    assert_eq!(timer.remaining(), Duration::from_secs(40));
    timer.resume_at(origin + Duration::from_secs(120)).unwrap();
    assert_eq!(
        timer.remaining_at(origin + Duration::from_secs(150)),
        Duration::from_secs(10)
    );
    assert_eq!(
        timer.tick_at(origin + Duration::from_secs(160)),
        Some(TimerEvent::StageFinished(Stage::Work))
    );
}

#[test]
fn advancing_stage_starts_break_and_reset_returns_to_work() {
    let origin = Instant::now();
    let mut timer = Pomodoro::new(profile()).unwrap();
    timer.start_at(origin).unwrap();
    timer.tick_at(origin + Duration::from_secs(60));
    assert_eq!(
        timer.advance_stage_at(origin + Duration::from_secs(60)),
        Ok(TimerEvent::Started(Stage::Break))
    );
    assert_eq!(timer.state(), TimerState::BreakRunning);
    assert_eq!(
        timer.remaining_at(origin + Duration::from_secs(61)),
        Duration::from_secs(119)
    );
    assert_eq!(
        timer.reset_at(origin + Duration::from_secs(61)),
        TimerEvent::Reset
    );
    assert_eq!(timer.state(), TimerState::Stopped);
    assert_eq!(timer.stage(), Stage::Work);
    assert_eq!(timer.remaining(), Duration::from_secs(60));
}

#[test]
fn skip_from_running_does_not_complete_a_session() {
    let origin = Instant::now();
    let mut timer = Pomodoro::new(profile()).unwrap();
    timer.start_at(origin).unwrap();
    assert_eq!(
        timer.skip_stage_at(origin + Duration::from_secs(10)),
        TimerEvent::StageAdvanced(Stage::Break)
    );
    assert_eq!(timer.state(), TimerState::Stopped);
    assert_eq!(timer.completed_work_sessions_today(), 0);
}

#[test]
fn profile_change_is_allowed_only_when_stopped() {
    let origin = Instant::now();
    let mut timer = Pomodoro::new(Profile::Classic).unwrap();
    timer.set_profile(Profile::Deep).unwrap();
    assert_eq!(timer.profile(), Profile::Deep);
    timer.start_at(origin).unwrap();
    assert_eq!(
        timer.set_profile(Profile::Classic),
        Err(TimerError::AlreadyRunning)
    );
}

// ---------------------------------------------------------------------------
// Further cases
// ---------------------------------------------------------------------------

fn at(secs: u64) -> Instant {
    Instant::from_unix(Duration::from_secs(1_000 + secs))
}

#[test]
fn profile_names_and_durations() {
    assert_eq!(Profile::Classic.name(), "Clásico");
    assert_eq!(Profile::Deep.name(), "Profundo");
    assert_eq!(profile().name(), "Personalizado");
    assert_eq!(Profile::Classic.duration(Stage::Work), Duration::from_secs(25 * 60));
    assert_eq!(Profile::Deep.duration(Stage::Break), Duration::from_secs(10 * 60));
    assert_eq!(profile().duration(Stage::Break), Duration::from_secs(120));
    assert_eq!(Profile::default(), Profile::Classic);
    assert_eq!(Profile::Classic.validate(), Ok(()));
    assert_eq!(
        Profile::Custom { work_minutes: 181, break_minutes: 0 }.validate(),
        Err(ProfileError::WorkDurationOutOfRange { minutes: 181 })
    );
}

#[test]
fn new_rejects_an_invalid_profile() {
    let invalid = Profile::Custom { work_minutes: 10, break_minutes: 0 };
    assert!(matches!(
        Pomodoro::new(invalid),
        Err(ProfileError::BreakDurationOutOfRange { minutes: 0 })
    ));
    let default = Pomodoro::default();
    assert_eq!(default.profile(), Profile::Classic);
    assert_eq!(default.remaining_at(at(0)), Duration::from_secs(25 * 60));
}

#[test]
fn set_profile_checks_the_profile_first() {
    let mut timer = Pomodoro::new(profile()).unwrap();
    timer.start_at(at(0)).unwrap();
    let invalid = Profile::Custom { work_minutes: 0, break_minutes: 5 };
    assert_eq!(
        timer.set_profile(invalid),
        Err(TimerError::InvalidProfile(ProfileError::WorkDurationOutOfRange { minutes: 0 }))
    );
    assert_eq!(timer.state(), TimerState::WorkRunning);
}

#[test]
fn every_refused_transition_has_its_error() {
    let mut timer = Pomodoro::new(profile()).unwrap();
    assert_eq!(timer.pause_at(at(0)), Err(TimerError::NotRunning));
    assert_eq!(timer.resume_at(at(0)), Err(TimerError::NotPaused));
    timer.start_at(at(0)).unwrap();
    assert_eq!(timer.start_at(at(1)), Err(TimerError::AlreadyRunning));
    assert_eq!(timer.resume_at(at(1)), Err(TimerError::NotPaused));
    timer.pause_at(at(2)).unwrap();
    assert_eq!(timer.start_at(at(3)), Err(TimerError::NotPaused));
    timer.resume_at(at(3)).unwrap();
    assert_eq!(timer.tick_at(at(61)), Some(TimerEvent::StageFinished(Stage::Work)));
    assert_eq!(timer.start_at(at(62)), Err(TimerError::CannotStartFromFinished));
    assert_eq!(timer.pause_at(at(62)), Err(TimerError::NotRunning));
}

#[test]
fn pausing_after_the_time_is_up_finishes_the_stage() {
    let mut timer = Pomodoro::new(profile()).unwrap();
    timer.start_at(at(0)).unwrap();
    assert_eq!(timer.pause_at(at(75)), Ok(TimerEvent::StageFinished(Stage::Work)));
    assert_eq!(timer.state(), TimerState::Finished);
    assert_eq!(timer.completed_work_sessions_today(), 1);
    assert_eq!(timer.remaining_at(at(80)), Duration::from_secs(0));
}

#[test]
fn finishing_a_break_does_not_count_a_session() {
    let mut timer = Pomodoro::new(profile()).unwrap();
    timer.skip_stage_at(at(0));
    assert_eq!(timer.stage(), Stage::Break);
    timer.start_at(at(0)).unwrap();
    assert_eq!(timer.state(), TimerState::BreakRunning);
    assert_eq!(timer.tick_at(at(119)), None);
    assert_eq!(timer.tick_at(at(120)), Some(TimerEvent::StageFinished(Stage::Break)));
    assert_eq!(timer.completed_work_sessions_today(), 0);
    assert_eq!(timer.advance_stage_at(at(121)), Ok(TimerEvent::Started(Stage::Work)));
}

#[test]
fn session_counter_saturates() {
    let mut timer = Pomodoro::new(profile()).unwrap();
    timer.set_completed_work_sessions_today(u32::MAX);
    timer.start_at(at(0)).unwrap();
    timer.tick_at(at(60));
    assert_eq!(timer.completed_work_sessions_today(), u32::MAX);
}

#[test]
fn remaining_seconds_round_down_and_clock_going_back_counts_nothing() {
    let mut timer = Pomodoro::new(profile()).unwrap();
    timer.start_at(at(10)).unwrap();
    let half = at(10) + Duration::from_millis(1_500);
    assert_eq!(timer.remaining_seconds_at(half), 58);
    assert_eq!(timer.remaining_at(at(5)), Duration::from_secs(60));
    assert!(timer.is_running());
}

#[test]
fn paused_time_law_on_values() {
    let mut timer = Pomodoro::new(profile()).unwrap();
    timer.start_at(at(0)).unwrap();
    timer.pause_at(at(15)).unwrap();
    assert_eq!(timer.remaining_at(at(15)), timer.remaining_at(at(500)));
    timer.resume_at(at(500)).unwrap();
    assert_eq!(timer.remaining_at(at(510)), Duration::from_secs(35));
}

#[test]
fn reset_gives_a_fresh_timer_but_keeps_the_count() {
    let mut timer = Pomodoro::new(profile()).unwrap();
    timer.start_at(at(0)).unwrap();
    timer.tick_at(at(60));
    timer.advance_stage_at(at(60)).unwrap();
    timer.reset_at(at(70));
    assert_eq!(timer.state(), TimerState::Stopped);
    assert_eq!(timer.stage(), Stage::Work);
    assert_eq!(timer.remaining_at(at(90)), Duration::from_secs(60));
    assert_eq!(timer.completed_work_sessions_today(), 1);
}

#[test]
fn state_predicates() {
    assert!(TimerState::WorkRunning.is_running());
    assert!(TimerState::BreakRunning.is_running());
    assert!(!TimerState::WorkPaused.is_running());
    assert!(TimerState::BreakPaused.is_paused());
    assert!(!TimerState::Finished.is_paused());
    assert!(!TimerState::Stopped.is_running());
}

#[test]
fn error_messages() {
    assert_eq!(
        ProfileError::WorkDurationOutOfRange { minutes: 0 }.message(),
        "la duración de trabajo (0 min) debe estar entre 1 y 180 minutos"
    );
    assert_eq!(
        ProfileError::BreakDurationOutOfRange { minutes: 181 }.message(),
        "la duración de descanso (181 min) debe estar entre 1 y 180 minutos"
    );
    assert_eq!(TimerError::AlreadyRunning.message(), "el temporizador ya está en curso");
    assert_eq!(TimerError::NotRunning.message(), "el temporizador no está en curso");
    assert_eq!(TimerError::NotPaused.message(), "el temporizador no está pausado");
    assert_eq!(
        TimerError::CannotStartFromFinished.message(),
        "una etapa terminada debe avanzar a la siguiente antes de iniciar"
    );
    assert_eq!(
        TimerError::from(ProfileError::WorkDurationOutOfRange { minutes: 200 }),
        TimerError::InvalidProfile(ProfileError::WorkDurationOutOfRange { minutes: 200 })
    );
}

#[test]
fn clock_driven_operations_behave_like_their_instant_versions() {
    let mut timer = Pomodoro::new(Profile::Classic).unwrap();
    assert_eq!(timer.start(), Ok(TimerEvent::Started(Stage::Work)));
    assert!(timer.remaining_seconds() <= 25 * 60);
    assert_eq!(timer.tick(), None);
    assert_eq!(timer.pause(), Ok(TimerEvent::Paused(Stage::Work)));
    assert_eq!(timer.resume(), Ok(TimerEvent::Resumed(Stage::Work)));
    assert_eq!(timer.skip_stage(), TimerEvent::StageAdvanced(Stage::Break));
    assert_eq!(timer.advance_stage(), Ok(TimerEvent::Started(Stage::Work)));
    assert_eq!(timer.reset(), TimerEvent::Reset);
    let clone = timer.clone();
    assert_eq!(clone.state(), TimerState::Stopped);
}

#[test]
fn the_clock_reads_the_present() {
    // A reading after 2020-01-01 shows that the epoch offset is not left at zero.
    assert!(Instant::now().since_unix_epoch().as_secs() > 1_577_836_800);
}

#[test]
fn the_monotonic_clock_starts_at_the_system_clock_and_never_goes_back() {
    let before = Instant::now();
    let clock = MonotonicClock::start();
    let first = clock.now();
    let second = clock.now();
    let after = Instant::now();
    assert!(first.since_unix_epoch().as_nanos() >= before.since_unix_epoch().as_nanos());
    assert!(first.since_unix_epoch().as_nanos() <= after.since_unix_epoch().as_nanos() + 1_000_000_000);
    assert!(second.since_unix_epoch().as_nanos() >= first.since_unix_epoch().as_nanos());
    let mut timer = Pomodoro::new(Profile::Classic).unwrap();
    timer.start_at(clock.now()).unwrap();
    let left = timer.remaining_seconds_at(clock.now());
    assert!(left == 25 * 60 || left == 25 * 60 - 1);
}

#[test]
fn the_timer_clock_lies_on_the_system_clock_timeline() {
    let mut timer = Pomodoro::new(Profile::Classic).unwrap();
    assert!(timer.now().since_unix_epoch().as_secs() > 1_577_836_800);
    timer.start_at(Instant::now()).unwrap();
    let left = timer.remaining_seconds();
    assert!(left == 25 * 60 || left == 25 * 60 - 1);
    assert_eq!(timer.tick(), None);
    assert_eq!(timer.state(), TimerState::WorkRunning);
}
