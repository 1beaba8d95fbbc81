//! The `Read` tool: prints a file with `cat`.
use vstd::prelude::*;
use vstd::string::*;

use crate::text::concat;
use crate::tools::{arg_views, lossy_utf8, utf8_lossy, CommandLine, CommandOutcome};

verus! {

/// Parameters of the `Read` tool.
pub struct Params {
    /// Path to the file.
    pub path: String,
}

/// Reads a file's content.
#[derive(Clone, Copy)]
pub struct Read {}

impl Read {
    pub fn name(&self) -> (res: &'static str)
        ensures
            res@ == "Read"@,
    {
        "Read"
    }

    pub fn description(&self) -> (res: &'static str)
        ensures
            res@ == "Reads file content"@,
    {
        "Reads file content"
    }

    /// `cat <path>`.
    pub fn command_line(&self, params: &Params) -> (res: CommandLine)
        ensures
            res.program@ == "cat"@,
            arg_views(res.args@) == seq![params.path@],
    {
        let mut args: Vec<String> = Vec::new();
        args.push(params.path.clone());
        proof {
            assert(arg_views(args@) =~= seq![params.path@]);
        }
        CommandLine { program: "cat".to_owned(), args }
    }

    /// The file's content on success, else `cat`'s error output after a
    /// failure notice.
    pub fn output_text(&self, outcome: &CommandOutcome) -> (res: String)
        ensures
            outcome.success ==> res@ == lossy_utf8(outcome.stdout@),
            !outcome.success ==> res@ == "cat failed: "@ + lossy_utf8(outcome.stderr@),
    {
        if outcome.success {
            utf8_lossy(outcome.stdout.as_slice())
        } else {
            let stderr = utf8_lossy(outcome.stderr.as_slice());
            concat("cat failed: ", stderr.as_str())
        }
    }
}

} // verus!
