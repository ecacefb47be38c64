use benteveo::clock::{Duration, Instant};
use benteveo::config::{AppConfig, NoiseKind as StoredNoiseKind, PomodoroPhase, PomodoroProfile, TaskRecord};
use benteveo::domain::pomodoro::{Profile, Stage, TimerEvent, TimerState};
use benteveo::services::audio::NoiseKind;
use benteveo::session::{
    day_key, load_noise, notification_failed_notice, problem_notice, recovered_notice, stage_finished_notice,
    store_noise, tab_for_shortcut, today, Problem, Session, Tab,
};
use benteveo::ui::pomodoro_view::Action;

fn at(secs: u64) -> Instant {
    Instant::from_unix(Duration::from_secs(10_000 + secs))
}

fn record(id: u64, text: &str, position: usize) -> TaskRecord {
    TaskRecord { id, text: text.to_string(), completed: false, position, created_at: 7 }
}

#[test]
fn restoring_clamps_minutes_and_sorts_tasks() {
    let mut config = AppConfig::default();
    config.preferences.noise.kind = StoredNoiseKind::Brown;
    config.preferences.noise.volume = 250;
    config.preferences.pomodoro.profile = PomodoroProfile::Custom;
    config.preferences.pomodoro.work_minutes = 0;
    config.preferences.pomodoro.break_minutes = 900;
    config.pomodoro.sessions_completed_today = 4;
    config.tasks = vec![record(1, "segunda", 9), record(2, "primera", 3)];
    let session = Session::from_config(config, Some("aviso".to_string()), "20000");
    assert_eq!(session.tab, Tab::Noise);
    assert_eq!(session.noise_kind, NoiseKind::Brown);
    assert_eq!(session.volume, 100);
    assert_eq!(session.custom_work, 1);
    assert_eq!(session.custom_break, 180);
    assert_eq!(session.timer.profile(), Profile::Custom { work_minutes: 1, break_minutes: 180 });
    assert_eq!(session.timer.state(), TimerState::Stopped);
    assert_eq!(session.timer.completed_work_sessions_today(), 0);
    let texts: Vec<&str> = session.tasks.iter().map(|t| t.text.as_str()).collect();
    assert_eq!(texts, vec!["primera", "segunda"]);
    assert_eq!(session.tasks.as_slice()[1].position, 1);
    assert!(session.task_draft.is_empty());
    assert_eq!(session.notice.as_deref(), Some("aviso"));
}

#[test]
fn snapshot_stores_the_session() {
    let mut session = Session::from_config(AppConfig::default(), None, "20000");
    session.noise_kind = NoiseKind::Pink;
    session.volume = 30;
    session.tasks.add_at("leer", at(0));
    session.timer.start_at(at(0)).unwrap();
    let config = session.config_at(at(90));
    assert_eq!(config.preferences.noise.kind, StoredNoiseKind::Pink);
    assert_eq!(config.preferences.noise.volume, 30);
    assert!(!config.preferences.noise.playing);
    assert_eq!(config.preferences.pomodoro.profile, PomodoroProfile::Classic);
    assert_eq!(config.pomodoro.phase, PomodoroPhase::Work);
    assert!(!config.pomodoro.running);
    assert_eq!(config.pomodoro.remaining_seconds, 25 * 60 - 90);
    assert_eq!(config.tasks.len(), 1);
    assert_eq!(config.tasks[0].text, "leer");
    assert_eq!(config.tasks[0].position, 0);
}

#[test]
fn restoring_a_snapshot_gives_the_session_back() {
    let mut session = Session::from_config(AppConfig::default(), None, "20000");
    session.noise_kind = NoiseKind::Brown;
    session.volume = 70;
    session.custom_work = 40;
    session.custom_break = 8;
    session.timer.set_profile(Profile::Custom { work_minutes: 40, break_minutes: 8 }).unwrap();
    session.timer.set_completed_work_sessions_today(3);
    session.tasks.add_at("uno", at(1));
    session.tasks.add_at("dos", at(2));
    let restored = Session::from_config(session.config_at(at(5)), None, "20000");
    assert_eq!(restored.noise_kind, session.noise_kind);
    assert_eq!(restored.volume, session.volume);
    assert_eq!(restored.custom_work, 40);
    assert_eq!(restored.custom_break, 8);
    assert_eq!(restored.timer.profile(), session.timer.profile());
    assert_eq!(restored.timer.completed_work_sessions_today(), 3);
    assert_eq!(restored.tasks.as_slice(), session.tasks.as_slice());
}

#[test]
fn timer_actions_are_carried_out() {
    let mut config = AppConfig::default();
    config.preferences.pomodoro.profile = PomodoroProfile::Custom;
    config.preferences.pomodoro.work_minutes = 1;
    config.preferences.pomodoro.break_minutes = 2;
    let mut session = Session::from_config(config, None, "20000");
    assert_eq!(session.perform_timer_action_at(Action::Idle, at(0)), None);
    assert_eq!(
        session.perform_timer_action_at(Action::StartPause, at(0)),
        Some(TimerEvent::Started(Stage::Work))
    );
    assert_eq!(
        session.perform_timer_action_at(Action::StartPause, at(10)),
        Some(TimerEvent::Paused(Stage::Work))
    );
    assert_eq!(
        session.perform_timer_action_at(Action::Resume, at(20)),
        Some(TimerEvent::Resumed(Stage::Work))
    );
    assert_eq!(session.perform_timer_action_at(Action::Advance, at(30)), Some(TimerEvent::Started(Stage::Break)));
    assert_eq!(
        session.perform_timer_action_at(Action::Skip, at(31)),
        Some(TimerEvent::StageAdvanced(Stage::Work))
    );
    assert_eq!(session.perform_timer_action_at(Action::Reset, at(32)), Some(TimerEvent::Reset));
    assert_eq!(session.perform_timer_action_at(Action::Resume, at(33)), None);
    assert_eq!(session.perform_timer_action(Action::StartPause), Some(TimerEvent::Started(Stage::Work)));
}

#[test]
fn noise_kinds_convert_both_ways_and_notices() {
    for kind in [NoiseKind::White, NoiseKind::Pink, NoiseKind::Brown] {
        assert_eq!(load_noise(store_noise(kind)), kind);
    }
    assert_eq!(stage_finished_notice(Stage::Work), "Trabajo terminado");
    assert_eq!(stage_finished_notice(Stage::Break), "Descanso terminado");
    let config = Session::from_config(AppConfig::default(), None, "20000").config();
    assert_eq!(config.pomodoro.remaining_seconds, 25 * 60);
}

#[test]
fn shortcuts_open_sections() {
    assert_eq!(tab_for_shortcut(1), Some(Tab::Noise));
    assert_eq!(tab_for_shortcut(2), Some(Tab::Pomodoro));
    assert_eq!(tab_for_shortcut(3), Some(Tab::Tasks));
    assert_eq!(tab_for_shortcut(4), None);
}

#[test]
fn the_count_carries_over_only_on_the_same_day() {
    let mut config = AppConfig::default();
    config.pomodoro.sessions_completed_today = 5;
    config.pomodoro.session_date = Some("20000".to_string());
    let same = Session::from_config(config.clone(), None, "20000");
    assert_eq!(same.timer.completed_work_sessions_today(), 5);
    let next = Session::from_config(config, None, "20001");
    assert_eq!(next.timer.completed_work_sessions_today(), 0);
    assert_eq!(next.session_date, "20001");
    let stored = next.config_at(at(0));
    assert_eq!(stored.pomodoro.session_date.as_deref(), Some("20001"));
}

#[test]
fn a_new_day_starts_the_count_again() {
    let mut config = AppConfig::default();
    config.pomodoro.sessions_completed_today = 2;
    config.pomodoro.session_date = Some("20000".to_string());
    let mut session = Session::from_config(config, None, "20000");
    session.roll_over_day("20000");
    assert_eq!(session.timer.completed_work_sessions_today(), 2);
    session.roll_over_day("20001");
    assert_eq!(session.timer.completed_work_sessions_today(), 0);
    assert_eq!(session.session_date, "20001");
}

#[test]
fn day_keys_count_utc_days() {
    assert_eq!(day_key(Instant::from_unix(Duration::from_secs(0))), "0");
    assert_eq!(day_key(Instant::from_unix(Duration::from_secs(86_399))), "0");
    assert_eq!(day_key(Instant::from_unix(Duration::from_secs(86_400 * 20_000 + 5))), "20000");
    assert!(today().parse::<u64>().unwrap() > 18_000);
}

#[test]
fn a_paused_stage_is_restored_paused() {
    let mut config = AppConfig::default();
    config.pomodoro.phase = PomodoroPhase::BreakPaused;
    config.pomodoro.remaining_seconds = 90;
    let session = Session::from_config(config, None, "1");
    assert_eq!(session.timer.state(), TimerState::BreakPaused);
    assert_eq!(session.timer.stage(), Stage::Break);
    assert_eq!(session.timer.remaining_at(at(0)), Duration::from_secs(90));

    let mut running = AppConfig::default();
    running.pomodoro.phase = PomodoroPhase::Work;
    running.pomodoro.remaining_seconds = 10 * 60;
    let session = Session::from_config(running, None, "1");
    assert_eq!(session.timer.state(), TimerState::WorkPaused);
    assert_eq!(session.timer.remaining_at(at(100)), Duration::from_secs(600));

    let mut too_long = AppConfig::default();
    too_long.pomodoro.phase = PomodoroPhase::WorkPaused;
    too_long.pomodoro.remaining_seconds = 99_999;
    let session = Session::from_config(too_long, None, "1");
    assert_eq!(session.timer.remaining_at(at(0)), Duration::from_secs(25 * 60));

    let mut empty = AppConfig::default();
    empty.pomodoro.phase = PomodoroPhase::BreakPaused;
    empty.pomodoro.remaining_seconds = 0;
    let session = Session::from_config(empty, None, "1");
    assert_eq!(session.timer.state(), TimerState::Finished);

    let mut finished = AppConfig::default();
    finished.pomodoro.phase = PomodoroPhase::Finished;
    let session = Session::from_config(finished, None, "1");
    assert_eq!(session.timer.state(), TimerState::Stopped);
    assert_eq!(session.timer.stage(), Stage::Work);
}

#[test]
fn a_paused_timer_survives_a_restart() {
    let mut session = Session::from_config(AppConfig::default(), None, "7");
    session.timer.start_at(at(0)).unwrap();
    session.timer.pause_at(at(300)).unwrap();
    let restored = Session::from_config(session.config_at(at(900)), None, "7");
    assert_eq!(restored.timer.state(), TimerState::WorkPaused);
    assert_eq!(restored.timer.remaining_at(at(0)), Duration::from_secs(25 * 60 - 300));
    let mut running = Session::from_config(AppConfig::default(), None, "7");
    running.timer.start_at(at(0)).unwrap();
    let restored = Session::from_config(running.config_at(at(61)), None, "7");
    assert_eq!(restored.timer.state(), TimerState::WorkPaused);
    assert_eq!(restored.timer.remaining_at(at(0)), Duration::from_secs(25 * 60 - 61));
}

#[test]
fn notices_name_the_failure_and_its_reason() {
    assert_eq!(problem_notice(Problem::SaveFailed, "disco lleno"), "No se pudo guardar: disco lleno");
    assert_eq!(problem_notice(Problem::LoadFailed, "x"), "No se pudo cargar la configuración: x");
    assert_eq!(problem_notice(Problem::PersistenceUnavailable, "x"), "Persistencia no disponible: x");
    assert_eq!(problem_notice(Problem::AudioUnavailable, "x"), "Audio no disponible: x");
    assert_eq!(problem_notice(Problem::PlayFailed, "x"), "No se pudo reproducir: x");
    assert_eq!(problem_notice(Problem::NoiseChangeFailed, "x"), "No se pudo cambiar el ruido: x");
    assert_eq!(
        problem_notice(Problem::ProfileChangeRefused, "x"),
        "Reiniciá el temporizador antes de cambiar el perfil: x"
    );
    assert_eq!(
        notification_failed_notice(Stage::Break, "sin servidor"),
        "Descanso terminado. Notificación no disponible: sin servidor"
    );
    assert_eq!(
        recovered_notice(),
        "La configuración dañada fue respaldada; se restauraron valores predeterminados."
    );
}
