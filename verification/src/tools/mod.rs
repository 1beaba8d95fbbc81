//! The tools the model may call: each builds the command line of a system
//! program from its parameters and turns the program's outcome into the
//! text returned to the model.
use vstd::prelude::*;

pub mod bash;
pub mod find;
pub mod list_files;
pub mod read;

verus! {

#[verifier::external_type_specification]
#[verifier::external_body]
pub struct ExFromUtf8Error(std::string::FromUtf8Error);

/// Why a tool could not run.
pub enum ToolError {
    /// The program could not be started or waited for.
    Io(std::io::Error),
    /// The program's output was not UTF-8.
    Utf8(std::string::FromUtf8Error),
}

/// The program a tool runs and its arguments.
pub struct CommandLine {
    pub program: String,
    pub args: Vec<String>,
}

/// How a finished program ended and what it wrote.
pub struct CommandOutcome {
    /// The program exited with status 0.
    pub success: bool,
    /// The exit code, when the program exited rather than being killed.
    pub code: Option<i32>,
    pub stdout: Vec<u8>,
    pub stderr: Vec<u8>,
}

/// The text of `bytes` decoded as UTF-8, each invalid sequence replaced by
/// U+FFFD, as `String::from_utf8_lossy` gives it.
pub uninterp spec fn lossy_utf8(bytes: Seq<u8>) -> Seq<char>;

/// Decodes bytes as UTF-8, replacing invalid sequences.
///
/// Trusted: `String::from_utf8_lossy` depends on the bytes alone, and on
/// valid UTF-8 it decodes without replacing anything.
#[verifier::external_body]
pub(crate) fn utf8_lossy(bytes: &[u8]) -> (res: String)
    ensures
        res@ == lossy_utf8(bytes@),
        vstd::utf8::valid_utf8(bytes@) ==> res@ == vstd::utf8::decode_utf8(bytes@),
{
    String::from_utf8_lossy(bytes).into_owned()
}

/// The views of a list of strings.
pub open spec fn arg_views(args: Seq<String>) -> Seq<Seq<char>> {
    args.map_values(|a: String| a@)
}

} // verus!
