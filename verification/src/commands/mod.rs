//! The decisions of the `run` and `rollback` commands: what to write, run and remove.

pub mod run;
pub mod verify;
