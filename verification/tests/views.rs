use benteveo::domain::pomodoro::{Stage, TimerState};
use benteveo::services::audio::{capped_volume, kind_change, play_toggle, KindChange, NoiseKind, PlayToggle};
use benteveo::services::tray::TrayStatus;
use benteveo::text::decimal_string;
use benteveo::ui::tasks_view::{is_blank, submitted_text, trim_text};
use benteveo::ui::pomodoro_view::{
    countdown_label, primary_action, primary_label, sessions_label, stage_caption, Action,
};

#[test]
fn countdown_is_minutes_and_seconds() {
    assert_eq!(countdown_label(0), "00:00");
    assert_eq!(countdown_label(59), "00:59");
    assert_eq!(countdown_label(25 * 60), "25:00");
    assert_eq!(countdown_label(180 * 60 + 5), "180:05");
    assert_eq!(sessions_label(3), "SESIONES HOY  //  03");
    assert_eq!(sessions_label(12), "SESIONES HOY  //  12");
    assert_eq!(decimal_string(0), "0");
    assert_eq!(decimal_string(u64::MAX), "18446744073709551615");
}

#[test]
fn main_button_follows_the_state() {
    assert_eq!(primary_action(TimerState::Stopped), Action::StartPause);
    assert_eq!(primary_action(TimerState::WorkRunning), Action::StartPause);
    assert_eq!(primary_action(TimerState::BreakPaused), Action::Resume);
    assert_eq!(primary_action(TimerState::Finished), Action::Advance);
    assert_eq!(primary_label(TimerState::Stopped), "▶ INICIAR");
    assert_eq!(primary_label(TimerState::BreakRunning), "Ⅱ PAUSAR");
    assert_eq!(primary_label(TimerState::WorkPaused), "▶ REANUDAR");
    assert_eq!(primary_label(TimerState::Finished), "→ SIGUIENTE");
    assert_eq!(stage_caption(Stage::Work), "TRABAJO ACTIVO");
    assert_eq!(stage_caption(Stage::Break), "DESCANSO ACTIVO");
}

#[test]
fn noise_kinds_and_player_decisions() {
    assert_eq!(NoiseKind::ALL, [NoiseKind::White, NoiseKind::Pink, NoiseKind::Brown]);
    assert_eq!(NoiseKind::White.label(), "Blanco");
    assert_eq!(NoiseKind::Pink.label(), "Rosa");
    assert_eq!(NoiseKind::Brown.label(), "Marrón");
    assert_eq!(kind_change(NoiseKind::Pink, NoiseKind::Pink, true), KindChange::Keep);
    assert_eq!(
        kind_change(NoiseKind::Pink, NoiseKind::Brown, true),
        KindChange::Switch { restart: true }
    );
    assert_eq!(
        kind_change(NoiseKind::White, NoiseKind::Brown, false),
        KindChange::Switch { restart: false }
    );
    assert_eq!(capped_volume(150), 100);
    assert_eq!(capped_volume(42), 42);
}

fn status(pomodoro: &str) -> TrayStatus {
    TrayStatus {
        pomodoro: pomodoro.to_string(),
        noise: "Ruido: Blanco".to_string(),
        tasks: "Tareas pendientes: 2".to_string(),
        timer_action: "Pausar".to_string(),
    }
}

#[test]
fn tray_redraws_only_on_change() {
    assert!(status("25:00").needs_update(&None));
    assert!(!status("25:00").needs_update(&Some(status("25:00"))));
    assert!(status("24:59").needs_update(&Some(status("25:00"))));
}

#[test]
fn play_button_decisions() {
    assert_eq!(play_toggle(true, true), PlayToggle::Stop);
    assert_eq!(play_toggle(true, false), PlayToggle::Start { create_output: false });
    assert_eq!(play_toggle(false, false), PlayToggle::Start { create_output: true });
}

#[test]
fn drafts_are_trimmed_and_blank_ones_refused() {
    assert_eq!(submitted_text("  leer el plan \t"), Some("leer el plan".to_string()));
    assert_eq!(submitted_text(" \n\t "), None);
    assert_eq!(submitted_text(""), None);
    assert_eq!(trim_text("\u{2003}ñandú\u{a0}"), "ñandú");
    assert!(is_blank("   "));
    assert!(!is_blank(" a "));
}

#[test]
fn every_unicode_white_space_is_trimmed_and_nothing_else() {
    let spaces = [
        '\u{9}', '\u{a}', '\u{b}', '\u{c}', '\u{d}', ' ', '\u{85}', '\u{a0}', '\u{1680}', '\u{2000}',
        '\u{2005}', '\u{200a}', '\u{2028}', '\u{2029}', '\u{202f}', '\u{205f}', '\u{3000}',
    ];
    for space in spaces {
        let text = format!("{space}a{space}");
        assert_eq!(trim_text(&text), "a");
    }
    assert_eq!(trim_text("\u{200b}a\u{feff}"), "\u{200b}a\u{feff}");
    assert_eq!(trim_text("\u{8}a\u{e}"), "\u{8}a\u{e}");
}
