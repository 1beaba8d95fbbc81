use beardpilot::tools::bash::{self, Bash};
use beardpilot::tools::find::{self, Find};
use beardpilot::tools::list_files::{ListFiles, ListFilesParams};
use beardpilot::tools::read::{self, Read};
use beardpilot::tools::CommandOutcome;

fn outcome(success: bool, code: Option<i32>, stdout: &[u8], stderr: &[u8]) -> CommandOutcome {
    CommandOutcome { success, code, stdout: stdout.to_vec(), stderr: stderr.to_vec() }
}

#[test]
fn bash_runs_command_with_dash_c() {
    let tool = Bash {};
    assert_eq!(tool.name(), "Bash");
    assert_eq!(tool.description(), "Executes commands via bash");
    let line = tool.command_line(&bash::Params { command: "echo hi".to_owned() });
    assert_eq!(line.program, "bash");
    assert_eq!(line.args, vec!["-c", "echo hi"]);
    assert_eq!(tool.output_text(&outcome(true, Some(0), b"hi\n", b"")), "hi\n");
    assert_eq!(
        tool.output_text(&outcome(false, Some(2), b"", b"boom")),
        "Bash execution failed: boom"
    );
}

#[test]
fn find_searches_current_folder_by_default() {
    let tool = Find {};
    let line = tool.command_line(&find::Params { expression: "fn main".to_owned(), path: None });
    assert_eq!(line.program, "grep");
    assert_eq!(line.args, vec!["-rn", "fn main", "."]);
    let line = tool.command_line(&find::Params { expression: "x".to_owned(), path: Some("src".to_owned()) });
    assert_eq!(line.args, vec!["-rn", "x", "src"]);
}

#[test]
fn find_reports_no_match_and_failure() {
    let tool = Find {};
    let params = find::Params { expression: "needle".to_owned(), path: None };
    assert_eq!(tool.output_text(&params, &outcome(true, Some(0), b"a:1:needle", b"")), "a:1:needle");
    assert_eq!(
        tool.output_text(&params, &outcome(false, Some(1), b"", b"")),
        "No matches found for 'needle'"
    );
    assert_eq!(
        tool.output_text(&params, &outcome(false, Some(2), b"", b"bad regex")),
        "grep failed: bad regex"
    );
    assert_eq!(
        tool.output_text(&params, &outcome(false, None, b"", b"killed")),
        "grep failed: killed"
    );
}

#[test]
fn list_files_shows_hidden_on_request() {
    let tool = ListFiles;
    let line = tool.command_line(&ListFilesParams { path: None, show_hidden: false });
    assert_eq!(line.program, "ls");
    assert_eq!(line.args, vec!["-1", "."]);
    let line = tool.command_line(&ListFilesParams { path: Some("/tmp".to_owned()), show_hidden: true });
    assert_eq!(line.args, vec!["-1", "-A", "/tmp"]);
    assert_eq!(tool.output_text(&outcome(false, Some(2), b"", b"no such dir")), "ls failed: no such dir");
}

#[test]
fn read_runs_cat() {
    let tool = Read {};
    assert_eq!(tool.name(), "Read");
    let line = tool.command_line(&read::Params { path: "Cargo.toml".to_owned() });
    assert_eq!(line.program, "cat");
    assert_eq!(line.args, vec!["Cargo.toml"]);
    assert_eq!(tool.output_text(&outcome(false, Some(1), b"", b"missing")), "cat failed: missing");
}

#[test]
fn invalid_output_bytes_are_replaced() {
    let tool = Read {};
    assert_eq!(tool.output_text(&outcome(true, Some(0), &[0x61, 0xff, 0x62], b"")), "a\u{fffd}b");
}
