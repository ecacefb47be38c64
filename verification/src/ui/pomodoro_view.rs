//! Decisions and labels of the timer view.
use vstd::prelude::*;

use crate::domain::pomodoro::{Profile, Stage, TimerState};
use crate::text::{decimal_two_digits, push_two_digits};

verus! {

/// What the timer view asks of the timer.
#[derive(Clone, Copy, Debug, PartialEq, Eq, Structural)]
pub enum Action {
    /// Nothing was requested.
    Idle,
    StartPause,
    Resume,
    Skip,
    Reset,
    Advance,
}

/// What the user did in the timer view during one frame.
#[derive(Clone, Copy, Debug, PartialEq, Eq, Structural)]
pub struct PomodoroResponse {
    /// A profile the user selected.
    pub profile_changed: Option<Profile>,
    pub action: Action,
}

/// What the main button does in each state.
pub open spec fn primary_action_of(state: TimerState) -> Action {
    match state {
        TimerState::Stopped | TimerState::WorkRunning | TimerState::BreakRunning => Action::StartPause,
        TimerState::WorkPaused | TimerState::BreakPaused => Action::Resume,
        TimerState::Finished => Action::Advance,
    }
}

/// What the main button reads in each state.
pub open spec fn primary_label_of(state: TimerState) -> Seq<char> {
    match state {
        TimerState::Stopped => "▶ INICIAR"@,
        TimerState::WorkRunning | TimerState::BreakRunning => "Ⅱ PAUSAR"@,
        TimerState::WorkPaused | TimerState::BreakPaused => "▶ REANUDAR"@,
        TimerState::Finished => "→ SIGUIENTE"@,
    }
}

/// Caption of the current stage.
pub open spec fn stage_caption_of(stage: Stage) -> Seq<char> {
    match stage {
        Stage::Work => "TRABAJO ACTIVO"@,
        Stage::Break => "DESCANSO ACTIVO"@,
    }
}

/// `MM:SS` rendering of a number of seconds; the minutes are not limited to
/// two digits.
pub open spec fn countdown_text(seconds: nat) -> Seq<char> {
    decimal_two_digits(seconds / 60) + ":"@ + decimal_two_digits(seconds % 60)
}

/// Caption of the number of sessions completed today.
pub open spec fn sessions_text(count: nat) -> Seq<char> {
    "SESIONES HOY  //  "@ + decimal_two_digits(count)
}

/// The action of the main button.
pub fn primary_action(state: TimerState) -> (r: Action)
    ensures
        r == primary_action_of(state),
{
    match state {
        TimerState::Stopped | TimerState::WorkRunning | TimerState::BreakRunning => Action::StartPause,
        TimerState::WorkPaused | TimerState::BreakPaused => Action::Resume,
        TimerState::Finished => Action::Advance,
    }
}

/// The label of the main button.
pub fn primary_label(state: TimerState) -> (r: &'static str)
    ensures
        r@ == primary_label_of(state),
{
    match state {
        TimerState::Stopped => "▶ INICIAR",
        TimerState::WorkRunning | TimerState::BreakRunning => "Ⅱ PAUSAR",
        TimerState::WorkPaused | TimerState::BreakPaused => "▶ REANUDAR",
        TimerState::Finished => "→ SIGUIENTE",
    }
}

/// The caption of the current stage.
pub fn stage_caption(stage: Stage) -> (r: &'static str)
    ensures
        r@ == stage_caption_of(stage),
{
    match stage {
        Stage::Work => "TRABAJO ACTIVO",
        Stage::Break => "DESCANSO ACTIVO",
    }
}

/// `MM:SS` rendering of the seconds left.
pub fn countdown_label(seconds: u64) -> (r: String)
    ensures
        r@ == countdown_text(seconds as nat),
{
    let mut out = String::new();
    push_two_digits(&mut out, seconds / 60);
    out.append(":");
    push_two_digits(&mut out, seconds % 60);
    out
}

/// Caption of the sessions completed today.
pub fn sessions_label(count: u32) -> (r: String)
    ensures
        r@ == sessions_text(count as nat),
{
    let mut out = String::from_str("SESIONES HOY  //  ");
    push_two_digits(&mut out, count as u64);
    out
}

} // verus!
