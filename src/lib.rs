//! Core logic of a launcher that keeps versioned binaries up to date, maps a
//! kernel driver with automated remediation, and replaces its own executable.
pub mod text;
pub mod api;
pub mod cli;
pub mod components;
pub mod driver;
pub mod fixes;
pub mod github;
pub mod metrics;
pub mod sync;
pub mod ui;
pub mod updater;
pub mod version;
