//! The `ListFiles` tool of the chat front end, where showing hidden files is
//! optional.
use vstd::prelude::*;

use crate::text::concat;
use crate::tools::list_files::list_args;
use crate::tools::{arg_views, lossy_utf8, utf8_lossy, CommandLine, CommandOutcome};

verus! {

/// Parameters of the `ListFiles` tool.
pub struct Params {
    /// Folder to list; the current folder when absent.
    pub path: Option<String>,
    /// Whether to show hidden files; not shown when absent.
    pub show_hidden: Option<bool>,
}

/// Lists the files of a folder.
#[derive(Clone, Copy, Default)]
pub struct ListFiles {}

impl ListFiles {
    pub fn name(&self) -> (res: &'static str)
        ensures
            res@ == "ListFiles"@,
    {
        "ListFiles"
    }

    pub fn description(&self) -> (res: &'static str)
        ensures
            res@ == "Lists files in a folder"@,
    {
        "Lists files in a folder"
    }

    /// `ls -1 [-A] <path>`.
    pub fn command_line(&self, params: &Params) -> (res: CommandLine)
        ensures
            res.program@ == "ls"@,
            arg_views(res.args@) == list_args(
                params.path.deep_view(),
                params.show_hidden == Some(true),
            ),
    {
        let show_hidden = match params.show_hidden {
            Some(b) => b,
            None => false,
        };
        let mut args: Vec<String> = Vec::new();
        args.push("-1".to_owned());
        if show_hidden {
            args.push("-A".to_owned());
        }
        match &params.path {
            Some(p) => args.push(p.clone()),
            None => args.push(".".to_owned()),
        }
        proof {
            assert(arg_views(args@) =~= list_args(
                params.path.deep_view(),
                params.show_hidden == Some(true),
            ));
        }
        CommandLine { program: "ls".to_owned(), args }
    }

    /// The listing on success, else `ls`'s error output after a failure
    /// notice.
    pub fn output_text(&self, outcome: &CommandOutcome) -> (res: String)
        ensures
            outcome.success ==> res@ == lossy_utf8(outcome.stdout@),
            !outcome.success ==> res@ == "ls failed: "@ + lossy_utf8(outcome.stderr@),
    {
        if outcome.success {
            utf8_lossy(outcome.stdout.as_slice())
        } else {
            let stderr = utf8_lossy(outcome.stderr.as_slice());
            concat("ls failed: ", stderr.as_str())
        }
    }
}

} // verus!
