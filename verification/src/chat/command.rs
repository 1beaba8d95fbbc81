//! Slash commands of the chat.
use vstd::prelude::*;

verus! {

/// What a slash command reports.
pub enum CommandOutput {
    /// The command is done.
    Finished,
    /// Text to show to the user.
    Info(String),
}

pub enum CommandOutputView {
    Finished,
    Info(Seq<char>),
}

impl View for CommandOutput {
    type V = CommandOutputView;

    open spec fn view(&self) -> CommandOutputView {
        match self {
            CommandOutput::Finished => CommandOutputView::Finished,
            CommandOutput::Info(s) => CommandOutputView::Info(s@),
        }
    }
}

/// A slash command of the chat.
pub trait SlashCommand {
    /// The name that invokes the command.
    fn get_name(&self) -> String;

    /// Starts the command with its argument and returns the text to show.
    fn start(&self, arg: String) -> String;

    /// Takes one line of input while the command is active.
    fn handle_input(&mut self, input: String) -> CommandOutput;

    /// The text the command shows.
    fn get_text(&self) -> String;
}

} // verus!
