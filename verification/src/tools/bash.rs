//! The `Bash` tool: runs a command line with `bash -c`.
use vstd::prelude::*;
use vstd::string::*;

use crate::text::concat;
use crate::tools::{arg_views, lossy_utf8, utf8_lossy, CommandLine, CommandOutcome};

verus! {

/// Parameters of the `Bash` tool.
pub struct Params {
    /// Command to execute.
    pub command: String,
}

/// Runs commands with bash.
#[derive(Clone, Copy)]
pub struct Bash {}

impl Bash {
    pub fn name(&self) -> (res: &'static str)
        ensures
            res@ == "Bash"@,
    {
        "Bash"
    }

    pub fn description(&self) -> (res: &'static str)
        ensures
            res@ == "Executes commands via bash"@,
    {
        "Executes commands via bash"
    }

    /// `bash -c <command>`.
    pub fn command_line(&self, params: &Params) -> (res: CommandLine)
        ensures
            res.program@ == "bash"@,
            arg_views(res.args@) == seq!["-c"@, params.command@],
    {
        let mut args: Vec<String> = Vec::new();
        args.push("-c".to_owned());
        args.push(params.command.clone());
        proof {
            assert(arg_views(args@) =~= seq!["-c"@, params.command@]);
        }
        CommandLine { program: "bash".to_owned(), args }
    }

    /// The program's output on success, else its error output after a
    /// failure notice.
    pub fn output_text(&self, outcome: &CommandOutcome) -> (res: String)
        ensures
            outcome.success ==> res@ == lossy_utf8(outcome.stdout@),
            !outcome.success ==> res@ == "Bash execution failed: "@ + lossy_utf8(outcome.stderr@),
    {
        if outcome.success {
            utf8_lossy(outcome.stdout.as_slice())
        } else {
            let stderr = utf8_lossy(outcome.stderr.as_slice());
            concat("Bash execution failed: ", stderr.as_str())
        }
    }
}

} // verus!
