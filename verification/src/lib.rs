//! OpenCode Forger: specification tooling for autonomous coding projects.

pub mod config;
pub mod db;
pub mod docs;
pub mod error;
pub mod ipc;
pub mod text;
pub mod theming;
pub mod tui;
pub mod validation;
pub mod verbalized_sampling;
pub mod regression;
pub mod services;
pub mod spec;
pub mod template_xml;
pub mod templates;
