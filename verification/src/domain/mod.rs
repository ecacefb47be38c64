//! Pure domain logic: the Pomodoro timer and the task checklist.

pub mod pomodoro;
pub mod task;
