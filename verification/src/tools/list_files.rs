//! The `ListFiles` tool: lists a folder with `ls -1`.
use vstd::prelude::*;
use vstd::string::*;

use crate::text::concat;
use crate::tools::find::search_path;
use crate::tools::{arg_views, lossy_utf8, utf8_lossy, CommandLine, CommandOutcome};

verus! {

/// Parameters of the `ListFiles` tool.
pub struct ListFilesParams {
    /// Folder to list; the current folder when absent.
    pub path: Option<String>,
    /// Whether to list hidden files too.
    pub show_hidden: bool,
}

/// Lists the files of a folder.
#[derive(Clone, Copy, Default)]
pub struct ListFiles;

/// Why `ListFiles` could not run.
pub enum ListFilesError {
    Io(std::io::Error),
    Utf8(std::string::FromUtf8Error),
}

/// `ls -1`, with `-A` to show hidden files, and the folder.
pub open spec fn list_args(path: Option<Seq<char>>, show_hidden: bool) -> Seq<Seq<char>> {
    if show_hidden {
        seq!["-1"@, "-A"@, search_path(path)]
    } else {
        seq!["-1"@, search_path(path)]
    }
}

/// `ls` lists the given folder, or the current one when none is given,
/// whether hidden files are shown or not; showing them adds `-A` after
/// `-1`.
pub proof fn lemma_listing_names_the_folder(path: Option<Seq<char>>, show_hidden: bool)
    ensures
        list_args(path, show_hidden).len() == if show_hidden { 3int } else { 2int },
        list_args(path, show_hidden)[0] == "-1"@,
        show_hidden ==> list_args(path, show_hidden)[1] == "-A"@,
        list_args(path, show_hidden).last() == match path {
            Some(p) => p,
            None => "."@,
        },
{
}

impl ListFiles {
    pub fn name(&self) -> (res: &'static str)
        ensures
            res@ == "ListFiles"@,
    {
        "ListFiles"
    }

    pub fn description(&self) -> (res: &'static str)
        ensures
            res@ == "Lists files in a folder"@,
    {
        "Lists files in a folder"
    }

    /// `ls -1 [-A] <path>`.
    pub fn command_line(&self, params: &ListFilesParams) -> (res: CommandLine)
        ensures
            res.program@ == "ls"@,
            arg_views(res.args@) == list_args(params.path.deep_view(), params.show_hidden),
    {
        let mut args: Vec<String> = Vec::new();
        args.push("-1".to_owned());
        if params.show_hidden {
            args.push("-A".to_owned());
        }
        match &params.path {
            Some(p) => args.push(p.clone()),
            None => args.push(".".to_owned()),
        }
        proof {
            assert(arg_views(args@) =~= list_args(params.path.deep_view(), params.show_hidden));
        }
        CommandLine { program: "ls".to_owned(), args }
    }

    /// The listing on success, else `ls`'s error output after a failure
    /// notice.
    pub fn output_text(&self, outcome: &CommandOutcome) -> (res: String)
        ensures
            outcome.success ==> res@ == lossy_utf8(outcome.stdout@),
            !outcome.success ==> res@ == "ls failed: "@ + lossy_utf8(outcome.stderr@),
    {
        if outcome.success {
            utf8_lossy(outcome.stdout.as_slice())
        } else {
            let stderr = utf8_lossy(outcome.stderr.as_slice());
            concat("ls failed: ", stderr.as_str())
        }
    }
}

} // verus!
