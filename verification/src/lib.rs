//! Core of a terminal site monitor: a bounded per-site history of probe
//! outcomes, a lock-protected registry of sites shared between a polling
//! thread and a render loop, the tab/selection state machine driven by key
//! presses, and the extraction of the site list from a YAML configuration.
//!
//! Probing itself, the terminal, and the thread that drives the poller are
//! I/O and live outside this crate. Everything here is verified, resting
//! on two small trusted wrappers in the config module around yaml_rust2's
//! parser, whose result the contracts name.

pub mod app;
pub mod config;
pub mod output_fmt;
pub mod registry;
pub mod selected_tab;
pub mod site;
