//! Decisions of the services that talk to the desktop: audio, persistence
//! and the tray indicator.  The services themselves do I/O and live with the
//! application front end.

pub mod audio;
pub mod persistence;
pub mod tray;
