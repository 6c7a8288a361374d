//! Core of a watchdog that keeps one Windows service — the docker engine —
//! always running with an extra launch-argument pair appended to its start
//! command.
//!
//! The service's own installer periodically resets its configuration and
//! strips the desired argument; the watcher detects this and restores the
//! augmented configuration without leaving the service inconsistent.  This
//! crate holds the verified heart of that watcher:
//!
//! - [`cmdline`]: the quote-aware splitter for launch commands and the
//!   insertion of the flag/value pair right after the executable token;
//! - [`reconcile`]: the state machine that decides, tick by tick, whether
//!   the target must be patched, recorded as already patched, or left alone;
//! - [`waiting`]: the bounded-wait primitive behind both the in-loop wait
//!   for the target to stop and the interactive stop command's progress;
//! - [`policy`]: the fixed names, sentinel values and intervals enforced.
//!
//! Every call into the operating system's service directory is performed by
//! the surrounding binary, which carries out one requested
//! [`reconcile::Action`] at a time and feeds the observed
//! [`reconcile::Event`] back into the machine.

pub mod cmdline;
pub mod policy;
pub mod reconcile;
pub mod waiting;
