//! Automatically float and center windows of a tiling window manager that
//! match user-defined rules (a title pattern and/or an exact application id).
//!
//! The crate holds the rule matching, the window-state tracking, the
//! per-event decision whether a window needs remediation, and the planning
//! of the remediation commands. Reading the configuration file, the event
//! stream and the control socket live outside the library.

pub mod config;
pub mod decide;
pub mod plan;
pub mod rules;
pub mod window;
