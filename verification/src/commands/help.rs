//! The `/help` command.
use vstd::prelude::*;

use crate::chat::command::{CommandOutput, CommandOutputView, SlashCommand};

verus! {

/// The text `/help` shows.
pub open spec fn help_text() -> Seq<char> {
    "This is Beardpilot help :)"@
}

/// Shows the help text and finishes at the next input.
#[derive(Clone, Copy)]
pub struct HelpCommand;

impl SlashCommand for HelpCommand {
    fn get_name(&self) -> (res: String)
        ensures
            res@ == "help"@,
    {
        "help".to_owned()
    }

    fn start(&self, _arg: String) -> (res: String)
        ensures
            res@ == help_text(),
    {
        "This is Beardpilot help :)".to_owned()
    }

    fn handle_input(&mut self, _input: String) -> (res: CommandOutput)
        ensures
            res@ == CommandOutputView::Finished,
    {
        CommandOutput::Finished
    }

    fn get_text(&self) -> (res: String)
        ensures
            res@ == help_text(),
    {
        "This is Beardpilot help :)".to_owned()
    }
}

} // verus!
