//! The command line: a command with its options, and the directories it may override.

use vstd::prelude::*;

verus! {

/// The parsed command line.
#[derive(Debug, PartialEq)]
pub struct Cli {
    /// The command to run.
    pub command: Command,
    /// An alternate configuration directory.
    pub config_dir: Option<String>,
    /// An alternate data directory.
    pub data_dir: Option<String>,
}

/// The commands.
#[derive(Debug, PartialEq)]
pub enum Command {
    /// Read the service configuration and implement it on the system.
    Run(RunArgs),
    /// List unmanaged systemd services.
    Unmanaged,
    /// Roll back to a previous state.
    Rollback(RollbackArgs),
    /// Check the system for managed files that were modified.
    Verify(VerifyArgs),
}

/// The options of `run`.
#[derive(Debug, PartialEq)]
pub struct RunArgs {
    /// Show what would be done without doing anything.
    pub dry_run: bool,
    /// The system configuration directory (`/etc` unless given).
    pub sys_config_dir: String,
    /// Overwrite existing files without confirmation.
    pub noconfirm: bool,
}

/// The options of `rollback`.
#[derive(Debug, PartialEq, Eq, Structural, Clone, Copy)]
pub struct RollbackArgs {
    /// Overwrite existing files without confirmation.
    pub noconfirm: bool,
}

/// The options of `verify`: none.
#[derive(Debug, PartialEq, Eq, Structural, Clone, Copy)]
pub struct VerifyArgs {}

impl RunArgs {
    /// The options a rollback applies the previous run's configuration with: changes are made,
    /// under the directory that run wrote to, each confirmed unless `noconfirm`.
    pub fn for_rollback(sys_config_dir: &str, noconfirm: bool) -> (r: Self)
        ensures
            !r.dry_run,
            r.sys_config_dir@ == sys_config_dir@,
            r.noconfirm == noconfirm,
    {
        RunArgs { dry_run: false, sys_config_dir: sys_config_dir.to_string(), noconfirm }
    }
}

} // verus!
