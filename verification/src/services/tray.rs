//! Data exchanged with the tray indicator.
use vstd::prelude::*;

verus! {

/// Menu entries that the tray reports back.
#[derive(Clone, Copy, Debug, PartialEq, Eq, Structural)]
pub enum TrayAction {
    ToggleTimer,
    Open,
    Quit,
}

/// Texts shown by the tray menu.
#[derive(Clone, Debug, PartialEq, Eq)]
pub struct TrayStatus {
    pub pomodoro: String,
    pub noise: String,
    pub tasks: String,
    pub timer_action: String,
}

/// Whether two statuses show the same texts.
pub open spec fn same_status(a: TrayStatus, b: TrayStatus) -> bool {
    &&& a.pomodoro@ == b.pomodoro@
    &&& a.noise@ == b.noise@
    &&& a.tasks@ == b.tasks@
    &&& a.timer_action@ == b.timer_action@
}

impl TrayStatus {
    /// Whether the menu must be redrawn to show `self` after `last`: only
    /// when some text differs from what was last shown.
    pub fn needs_update(&self, last: &Option<TrayStatus>) -> (r: bool)
        ensures
            r == match last {
                Some(shown) => !same_status(*self, *shown),
                None => true,
            },
    {
        match last {
            Some(shown) => !(self.pomodoro == shown.pomodoro && self.noise == shown.noise
                && self.tasks == shown.tasks && self.timer_action == shown.timer_action),
            None => true,
        }
    }
}

} // verus!
