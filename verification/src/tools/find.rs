//! The `Find` tool: searches files with `grep -rn`.
use vstd::prelude::*;
use vstd::string::*;

use crate::text::concat;
use crate::tools::{arg_views, lossy_utf8, utf8_lossy, CommandLine, CommandOutcome};

verus! {

/// Parameters of the `Find` tool.
pub struct Params {
    /// Expression to find in a folder or file; a regular expression.
    pub expression: String,
    /// File or folder to search; the current folder when absent.
    pub path: Option<String>,
}

/// Finds an expression in a file or folder.
#[derive(Clone, Copy)]
pub struct Find {}

/// Where a search looks: the given path, or the current folder.
pub open spec fn search_path(path: Option<Seq<char>>) -> Seq<char> {
    match path {
        Some(p) => p,
        None => "."@,
    }
}

impl Find {
    pub fn name(&self) -> (res: &'static str)
        ensures
            res@ == "Find"@,
    {
        "Find"
    }

    pub fn description(&self) -> (res: &'static str)
        ensures
            res@ == "Finds an expression in a file or folder"@,
    {
        "Finds an expression in a file or folder"
    }

    /// `grep -rn <expression> <path>`.
    pub fn command_line(&self, params: &Params) -> (res: CommandLine)
        ensures
            res.program@ == "grep"@,
            arg_views(res.args@) == seq![
                "-rn"@,
                params.expression@,
                search_path(params.path.deep_view()),
            ],
    {
        let mut args: Vec<String> = Vec::new();
        args.push("-rn".to_owned());
        args.push(params.expression.clone());
        match &params.path {
            Some(p) => args.push(p.clone()),
            None => args.push(".".to_owned()),
        }
        proof {
            assert(arg_views(args@) =~= seq![
                "-rn"@,
                params.expression@,
                search_path(params.path.deep_view()),
            ]);
        }
        CommandLine { program: "grep".to_owned(), args }
    }

    /// The matches on success; a notice when `grep` exits with 1, which
    /// means nothing matched; else `grep`'s error output after a failure
    /// notice.
    pub fn output_text(&self, params: &Params, outcome: &CommandOutcome) -> (res: String)
        ensures
            outcome.success ==> res@ == lossy_utf8(outcome.stdout@),
            !outcome.success && outcome.code == Some(1i32) ==> res@ == "No matches found for '"@
                + params.expression@ + "'"@,
            !outcome.success && outcome.code != Some(1i32) ==> res@ == "grep failed: "@
                + lossy_utf8(outcome.stderr@),
    {
        if outcome.success {
            utf8_lossy(outcome.stdout.as_slice())
        } else if outcome.code == Some(1i32) {
            let mut s = concat("No matches found for '", params.expression.as_str());
            s.append("'");
            s
        } else {
            let stderr = utf8_lossy(outcome.stderr.as_slice());
            concat("grep failed: ", stderr.as_str())
        }
    }
}

} // verus!
