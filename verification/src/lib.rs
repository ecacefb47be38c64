//! Verified core of a local focus application: a Pomodoro timer state
//! machine, an ordered task checklist, the persisted configuration model and
//! the decisions that the desktop front end delegates to them.

pub mod clock;
pub mod config;
pub mod domain;
pub mod services;
pub mod session;
pub mod text;
pub mod ui;
