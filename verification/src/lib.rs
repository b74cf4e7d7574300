//! Declarative management of system service configuration files.

pub mod text;
pub mod toml_value;
pub mod adapters;
pub mod services;
pub mod utils;
pub mod commands;
pub mod managed_config;
pub mod config;
pub mod runs;
pub mod cli;
