//! Lines that go to the shell: which command is run for a line, how the
//! shell is called, and how its output is read.

use vstd::prelude::*;
use crate::text::{push_str, str_eq, string_of, string_views};

verus! {

/// What is said before a line is handed to the shell.
#[derive(Debug, Clone, Copy, PartialEq, Eq, Structural)]
pub enum ShellNotice {
    /// Nothing.
    Silent,
    /// The structure of the current folder is analysed.
    AnalyzingStructure,
    /// Code analysis wants the path of a file.
    WantsFilePath,
    /// The conversation is written up as a work plan.
    WritingPlan,
}

/// What is done for a line that goes to the shell.
#[derive(Debug, Clone, PartialEq, Eq)]
pub struct ShellRequest {
    pub notice: ShellNotice,
    /// The command to run, if one is run at all.
    pub command: Option<String>,
}

/// The command that analyses the current folder.
pub open spec fn analyze_command() -> Seq<char> {
    "ricci analyze ."@
}

/// The command that writes the conversation up as a plan.
pub open spec fn plan_command() -> Seq<char> {
    "ricci plan \"현재 대화 내용 정리\""@
}

/// The notice for a line.
pub open spec fn notice_for(input: Seq<char>) -> ShellNotice {
    if input == "해당 하위 폴더구조 분석좀"@ || input == "폴더 분석"@ || input == "구조 분석"@ {
        ShellNotice::AnalyzingStructure
    } else if input == "파일 분석"@ || input == "코드 분석"@ {
        ShellNotice::WantsFilePath
    } else if input == "작업계획서"@ || input == "계획서 작성"@ || input == "작업 정리"@ {
        ShellNotice::WritingPlan
    } else {
        ShellNotice::Silent
    }
}

/// The command that is run for a line: the analysis or the plan for the
/// phrases that ask for them, none for the phrases that ask for the analysis
/// of a file, and the line itself for everything else.
pub open spec fn command_for(input: Seq<char>) -> Option<Seq<char>> {
    match notice_for(input) {
        ShellNotice::AnalyzingStructure => Some(analyze_command()),
        ShellNotice::WantsFilePath => None,
        ShellNotice::WritingPlan => Some(plan_command()),
        ShellNotice::Silent => Some(input),
    }
}

/// Tells what is done for a line that goes to the shell.
pub fn execute_shell_command(input: &str) -> (request: ShellRequest)
    ensures
        request.notice == notice_for(input@),
        match request.command {
            Some(c) => command_for(input@) == Some(c@),
            None => command_for(input@) is None,
        },
{
    if str_eq(input, "해당 하위 폴더구조 분석좀") || str_eq(input, "폴더 분석") || str_eq(
        input,
        "구조 분석",
    ) {
        ShellRequest {
            notice: ShellNotice::AnalyzingStructure,
            command: Some("ricci analyze .".to_owned()),
        }
    } else if str_eq(input, "파일 분석") || str_eq(input, "코드 분석") {
        ShellRequest { notice: ShellNotice::WantsFilePath, command: None }
    } else if str_eq(input, "작업계획서") || str_eq(input, "계획서 작성") || str_eq(
        input,
        "작업 정리",
    ) {
        ShellRequest {
            notice: ShellNotice::WritingPlan,
            command: Some("ricci plan \"현재 대화 내용 정리\"".to_owned()),
        }
    } else {
        ShellRequest { notice: ShellNotice::Silent, command: Some(input.to_owned()) }
    }
}

/// How the shell is called.
#[derive(Debug, Clone, PartialEq, Eq)]
pub struct Invocation {
    pub program: String,
    pub arguments: Vec<String>,
}

/// What PowerShell is told before the command, so that its output is UTF-8.
pub open spec fn utf8_preamble() -> Seq<char> {
    "[Console]::OutputEncoding = [System.Text.Encoding]::UTF8; "@
}

/// The program that runs a command.
pub open spec fn shell_program(windows: bool) -> Seq<char> {
    if windows {
        "powershell"@
    } else {
        "sh"@
    }
}

/// The arguments with which a command is run.
pub open spec fn shell_arguments(command: Seq<char>, windows: bool) -> Seq<Seq<char>> {
    if windows {
        seq!["-NoProfile"@, "-Command"@, utf8_preamble() + command]
    } else {
        seq!["-c"@, command]
    }
}

/// How the shell is called to run `command`: PowerShell on Windows, `sh`
/// elsewhere.
pub fn invocation(command: &str, windows: bool) -> (call: Invocation)
    ensures
        call.program@ == shell_program(windows),
        string_views(call.arguments@) == shell_arguments(command@, windows),
{
    let mut arguments: Vec<String> = Vec::new();
    if windows {
        arguments.push("-NoProfile".to_owned());
        arguments.push("-Command".to_owned());
        let mut script: Vec<char> = Vec::new();
        push_str(&mut script, "[Console]::OutputEncoding = [System.Text.Encoding]::UTF8; ");
        push_str(&mut script, command);
        arguments.push(string_of(&script));
        proof {
            assert(string_views(arguments@) =~= shell_arguments(command@, windows));
        }
        Invocation { program: "powershell".to_owned(), arguments }
    } else {
        arguments.push("-c".to_owned());
        arguments.push(command.to_owned());
        proof {
            assert(string_views(arguments@) =~= shell_arguments(command@, windows));
        }
        Invocation { program: "sh".to_owned(), arguments }
    }
}

/// What `encoding_rs` decodes from bytes read as EUC-KR: malformed
/// sequences are replaced, and a byte order mark at the start makes it read
/// the bytes in the encoding of that mark.
pub uninterp spec fn euc_kr_text(bytes: Seq<u8>) -> Seq<char>;

/// The longest input that is handed to the decoder; the size of its buffer,
/// a small multiple of the input's, must fit.
pub open spec fn decodable_len() -> int {
    (usize::MAX / 8) as int
}

/// `String::from_utf8` on a copy of the bytes: the text that the bytes
/// encode in UTF-8, or `None` if they are not UTF-8.
#[verifier::external_body]
fn utf8_text(bytes: &Vec<u8>) -> (text: Option<String>)
    ensures
        match text {
            Some(t) => vstd::utf8::valid_utf8(bytes@) && t@ == vstd::utf8::decode_utf8(bytes@),
            None => !vstd::utf8::valid_utf8(bytes@),
        },
{
    String::from_utf8(bytes.clone()).ok()
}

/// `encoding_rs::EUC_KR.decode`: the text that the decoder makes of the
/// bytes. The decoder panics where the size of its buffer does not fit,
/// which the bound on the length rules out.
#[verifier::external_body]
fn decode_euc_kr(bytes: &Vec<u8>) -> (text: String)
    requires
        bytes@.len() <= decodable_len(),
    ensures
        text@ == euc_kr_text(bytes@),
{
    encoding_rs::EUC_KR.decode(bytes).0.into_owned()
}

/// The text of what a command wrote: the bytes as UTF-8 if they are UTF-8;
/// else, on Windows, the bytes as EUC-KR; else nothing.
pub open spec fn decoded(bytes: Seq<u8>, windows: bool) -> Option<Seq<char>> {
    if vstd::utf8::valid_utf8(bytes) {
        Some(vstd::utf8::decode_utf8(bytes))
    } else if windows && bytes.len() <= decodable_len() {
        Some(euc_kr_text(bytes))
    } else {
        None
    }
}

/// Reads what a command wrote.
pub fn decode_output(bytes: &Vec<u8>, windows: bool) -> (text: Option<String>)
    ensures
        match text {
            Some(t) => decoded(bytes@, windows) == Some(t@),
            None => decoded(bytes@, windows) is None,
        },
{
    match utf8_text(bytes) {
        Some(t) => Some(t),
        None => {
            if windows && bytes.len() <= usize::MAX / 8 {
                Some(decode_euc_kr(bytes))
            } else {
                None
            }
        },
    }
}

} // verus!
