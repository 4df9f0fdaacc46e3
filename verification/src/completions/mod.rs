//! Completion scripts for interactive shells.

pub mod command;
pub mod powershell;

pub use self::command::{Command, CommandView};
pub use self::powershell::PowerShellGen;
