//! Decision core of a small button-driven status display: calendar arithmetic,
//! ring navigation with minimal redraws, progress and pace statistics, the
//! eased progress bar, the poll scheduler and the event dispatcher.
//!
//! Everything here works on plain values. Drawing, timers, the mailbox and the
//! network are performed by the caller, which feeds events in and carries the
//! returned actions out.

pub mod calendar;
pub mod campaign;
pub mod console;
pub mod gui;
pub mod home;
pub mod input;
pub mod nav;
pub mod queue;
pub mod session;
pub mod text;
pub mod util;
pub mod wifi;
