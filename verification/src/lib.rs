//! Supervisor core for an external backend process ("sidecar").
//!
//! The library models the sidecar's console output as a sequence of
//! [`event::OutputEvent`] values and proves that relaying them turns every
//! standard-output line into an info-level record, every standard-error line
//! into an error-level record, drops everything else, and keeps the order.
//! Starting the process, the event transport and the log sink are plain I/O
//! and live outside the library; the decisions they act on are made here.

pub mod decode;
pub mod event;
pub mod greeting;
pub mod launcher;
pub mod relay;
