//! The slash command currently running, and how commands are started.
use vstd::prelude::*;

use crate::chat::command::{CommandOutput, CommandOutputView, SlashCommand};
use crate::commands::help::{help_text, HelpCommand};
use crate::text::{concat, str_eq};

verus! {

/// The message for a command name that no command has.
pub open spec fn unknown_command_text(name: Seq<char>) -> Seq<char> {
    "Unknown command: "@ + name
}

/// A slash command that is running.
enum ActiveCommand {
    Help(HelpCommand),
}

/// Starts slash commands and routes input to the one running.
pub struct CommandRegistry {
    active_command: Option<ActiveCommand>,
}

impl CommandRegistry {
    /// Whether a command is running.
    pub closed spec fn has_active(&self) -> bool {
        self.active_command is Some
    }

    pub fn new() -> (res: Self)
        ensures
            !res.has_active(),
    {
        CommandRegistry { active_command: None }
    }

    /// Starts the command `command_name` with `arg` and returns what it shows;
    /// an unknown name is reported and leaves the registry as it was.
    pub fn activate(&mut self, command_name: &str, arg: &str) -> (res: CommandOutput)
        ensures
            command_name@ == "help"@ ==> res@ == CommandOutputView::Info(help_text())
                && final(self).has_active(),
            command_name@ != "help"@ ==> res@ == CommandOutputView::Info(
                unknown_command_text(command_name@),
            ) && final(self).has_active() == old(self).has_active(),
    {
        if str_eq(command_name, "help") {
            let command = HelpCommand;
            let res = command.start(arg.to_owned());
            self.active_command = Some(ActiveCommand::Help(command));
            CommandOutput::Info(res)
        } else {
            CommandOutput::Info(concat("Unknown command: ", command_name))
        }
    }

    /// Hands `input` to the running command and returns what it reports; a
    /// command that reports it has finished stops running. The only command,
    /// `/help`, finishes on the input after it started. Without a running
    /// command there is nothing to report.
    pub fn handle_input(&mut self, input: String) -> (res: Option<CommandOutput>)
        ensures
            !old(self).has_active() ==> res is None,
            old(self).has_active() ==> res matches Some(CommandOutput::Finished),
            !final(self).has_active(),
    {
        match self.active_command.take() {
            Some(ActiveCommand::Help(command)) => {
                let mut command = command;
                let output = command.handle_input(input);
                match output {
                    CommandOutput::Finished => {},
                    CommandOutput::Info(_) => {
                        self.active_command = Some(ActiveCommand::Help(command));
                    },
                }
                Some(output)
            },
            None => None,
        }
    }
}

} // verus!
