//! The client's command-line surface: which subcommand drives which wire
//! command. Argument parsing itself is done by clap in the binary outside
//! this crate; the mapping to the command vocabulary is the core's.

use vstd::prelude::*;
use crate::ipc::Command;

verus! {

/// The subcommands a client invocation can carry, one per daemon action.
#[derive(Debug, Clone, Copy, PartialEq, Eq)]
pub enum CliCommands {
    /// Open the window switcher and select the next window in the list.
    Next,
    /// Open the window switcher and select the previous window in the list.
    Prev,
    /// Like `Next`, but focuses that window without closing the switcher.
    PeekNext,
    /// Like `Prev`, but focuses that window without closing the switcher.
    PeekPrev,
    /// Open the window switcher.
    Show,
    /// Close the window switcher without switching window focus.
    Dismiss,
    /// Focus the currently selected window without closing the switcher.
    Peek,
    /// Focus the currently selected window and close the switcher.
    Select,
}

/// One client invocation: exactly one subcommand.
#[derive(Debug, Clone, Copy)]
pub struct Cli {
    pub command: CliCommands,
}

/// The wire command each subcommand stands for.
pub open spec fn command_spec(c: CliCommands) -> Command {
    match c {
        CliCommands::Next => Command::Next,
        CliCommands::Prev => Command::Prev,
        CliCommands::PeekNext => Command::PeekNext,
        CliCommands::PeekPrev => Command::PeekPrev,
        CliCommands::Show => Command::Show,
        CliCommands::Dismiss => Command::Dismiss,
        CliCommands::Peek => Command::Peek,
        CliCommands::Select => Command::Select,
    }
}

impl CliCommands {
    /// The wire command this subcommand sends to the daemon.
    pub fn command(&self) -> (r: Command)
        ensures
            r == command_spec(*self),
    {
        match self {
            CliCommands::Next => Command::Next,
            CliCommands::Prev => Command::Prev,
            CliCommands::PeekNext => Command::PeekNext,
            CliCommands::PeekPrev => Command::PeekPrev,
            CliCommands::Show => Command::Show,
            CliCommands::Dismiss => Command::Dismiss,
            CliCommands::Peek => Command::Peek,
            CliCommands::Select => Command::Select,
        }
    }
}

} // verus!
