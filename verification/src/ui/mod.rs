//! What the views decide: which action a control requests and what the
//! labels read.  Drawing is left to the front end.

pub mod noise_view;
pub mod pomodoro_view;
pub mod tasks_view;
