//! The prompt of the assistant: what a line of input asks for.
//!
//! The prompt has two modes. In command mode a line is a shortcut, a
//! special command, a question to the model or a shell command; in chat
//! mode every line but `exit` and `quit` goes to the model.

use vstd::prelude::*;
use crate::text::{
    chars_of, matches_at, starts_with, str_eq, string_of, string_views, subvec, trim, trim_bounds,
    trimmed,
};

verus! {

/// The mode of the prompt.
#[derive(Clone, Copy, PartialEq, Eq, Debug, Structural)]
pub enum AppMode {
    Command,
    Chat,
}

/// What a line of input asks for.
#[derive(Debug, Clone, PartialEq, Eq)]
pub enum ReplAction {
    /// Nothing: the line is empty.
    Nothing,
    /// Switch to chat mode.
    EnterChat,
    /// Switch back to command mode.
    LeaveChat,
    /// Show the help.
    ShowHelp,
    /// Carry out this special command.
    Special(String),
    /// Analyse the structure of the current folder.
    AnalyzeStructure,
    /// Ask for the path of a file and analyse that file.
    AskFilePath,
    /// Analyse the code of the current folder and of all folders below.
    AnalyzeFolder,
    /// Write the conversation up as a work plan.
    WritePlan,
    /// Return the greeting.
    Greet,
    /// Put this question to the model.
    Ask(String),
    /// Run this line in the shell.
    Shell(String),
}

/// An action as plain text.
pub enum ReplActionView {
    Nothing,
    EnterChat,
    LeaveChat,
    ShowHelp,
    Special(Seq<char>),
    AnalyzeStructure,
    AskFilePath,
    AnalyzeFolder,
    WritePlan,
    Greet,
    Ask(Seq<char>),
    Shell(Seq<char>),
}

impl View for ReplAction {
    type V = ReplActionView;

    open spec fn view(&self) -> ReplActionView {
        match self {
            ReplAction::Nothing => ReplActionView::Nothing,
            ReplAction::EnterChat => ReplActionView::EnterChat,
            ReplAction::LeaveChat => ReplActionView::LeaveChat,
            ReplAction::ShowHelp => ReplActionView::ShowHelp,
            ReplAction::Special(c) => ReplActionView::Special(c@),
            ReplAction::AnalyzeStructure => ReplActionView::AnalyzeStructure,
            ReplAction::AskFilePath => ReplActionView::AskFilePath,
            ReplAction::AnalyzeFolder => ReplActionView::AnalyzeFolder,
            ReplAction::WritePlan => ReplActionView::WritePlan,
            ReplAction::Greet => ReplActionView::Greet,
            ReplAction::Ask(q) => ReplActionView::Ask(q@),
            ReplAction::Shell(c) => ReplActionView::Shell(c@),
        }
    }
}

/// `s` without the question marks and at signs at its start.
pub open spec fn without_marks(s: Seq<char>) -> Seq<char>
    decreases s.len(),
{
    if s.len() > 0 && (s[0] == '?' || s[0] == '@') {
        without_marks(s.skip(1))
    } else {
        s
    }
}

/// What a line asks for in command mode, once trimmed and not empty.
pub open spec fn command_action(input: Seq<char>) -> ReplActionView {
    if input == "c"@ || input == "chat"@ || input == "/chat"@ {
        ReplActionView::EnterChat
    } else if input == "h"@ || input == "/help"@ {
        ReplActionView::ShowHelp
    } else if input == "p"@ || input == "/summary"@ {
        ReplActionView::Special("/summary"@)
    } else if input == "폴더분석"@ || input == "폴더 분석"@ || input == "구조분석"@ || input
        == "구조 분석"@ {
        ReplActionView::AnalyzeStructure
    } else if input == "파일분석"@ || input == "파일 분석"@ || input == "코드분석"@ || input
        == "코드 분석"@ {
        ReplActionView::AskFilePath
    } else if input == "하위폴더 코드분석"@ || input == "하위폴더 분석"@ || input == "전체 코드분석"@
        || input == "전체 코드 분석"@ {
        ReplActionView::AnalyzeFolder
    } else if input == "작업계획서"@ || input == "계획서"@ || input == "작업정리"@ || input
        == "작업 정리"@ {
        ReplActionView::WritePlan
    } else if input.len() > 0 && input[0] == '/' {
        ReplActionView::Special(input)
    } else if input == "안녕"@ || input == "하이"@ || input == "헬로"@ {
        ReplActionView::Greet
    } else if input.len() > 0 && (input[0] == '?' || input[0] == '@') {
        if trim(without_marks(input)).len() > 0 {
            ReplActionView::Ask(trim(without_marks(input)))
        } else {
            ReplActionView::Nothing
        }
    } else {
        ReplActionView::Shell(input)
    }
}

/// What a line asks for in chat mode, once trimmed and not empty.
pub open spec fn chat_action(input: Seq<char>) -> ReplActionView {
    if input == "exit"@ || input == "quit"@ {
        ReplActionView::LeaveChat
    } else {
        ReplActionView::Ask(input)
    }
}

/// What a line of input asks for.
pub open spec fn action_for(mode: AppMode, line: Seq<char>) -> ReplActionView {
    let input = trim(line);
    if input.len() == 0 {
        ReplActionView::Nothing
    } else {
        match mode {
            AppMode::Command => command_action(input),
            AppMode::Chat => chat_action(input),
        }
    }
}

/// The mode after an action.
pub open spec fn mode_after(mode: AppMode, action: ReplActionView) -> AppMode {
    match action {
        ReplActionView::EnterChat => AppMode::Chat,
        ReplActionView::LeaveChat => AppMode::Command,
        _ => mode,
    }
}

/// The text of the prompt in a mode.
pub open spec fn prompt_text(mode: AppMode) -> Seq<char> {
    match mode {
        AppMode::Command => "ricci> "@,
        AppMode::Chat => "ricci (chat)> "@,
    }
}

fn is_one_of4(input: &Vec<char>, a: &str, b: &str, c: &str, d: &str) -> (r: bool)
    ensures
        r == (input@ == a@ || input@ == b@ || input@ == c@ || input@ == d@),
{
    let s = string_of(input);
    str_eq(s.as_str(), a) || str_eq(s.as_str(), b) || str_eq(s.as_str(), c) || str_eq(
        s.as_str(),
        d,
    )
}

fn is_one_of3(input: &Vec<char>, a: &str, b: &str, c: &str) -> (r: bool)
    ensures
        r == (input@ == a@ || input@ == b@ || input@ == c@),
{
    let s = string_of(input);
    str_eq(s.as_str(), a) || str_eq(s.as_str(), b) || str_eq(s.as_str(), c)
}

fn is_one_of2(input: &Vec<char>, a: &str, b: &str) -> (r: bool)
    ensures
        r == (input@ == a@ || input@ == b@),
{
    let s = string_of(input);
    str_eq(s.as_str(), a) || str_eq(s.as_str(), b)
}

fn question_of(input: &Vec<char>) -> (q: Vec<char>)
    ensures
        q@ == trim(without_marks(input@)),
{
    let mut i: usize = 0;
    proof {
        assert(input@.skip(0) =~= input@);
    }
    while i < input.len() && (input[i] == '?' || input[i] == '@')
        invariant
            i <= input.len(),
            without_marks(input@) == without_marks(input@.skip(i as int)),
        decreases input.len() - i,
    {
        proof {
            assert(input@.skip(i as int).skip(1) =~= input@.skip(i + 1));
        }
        i += 1;
    }
    proof {
        let rest = input@.skip(i as int);
        if i < input.len() {
            assert(rest[0] == input@[i as int]);
        }
        assert(without_marks(rest) == rest);
        assert(input@.subrange(i as int, input@.len() as int) =~= rest);
    }
    let (a, b) = trim_bounds(input, i, input.len());
    subvec(input, a, b)
}

/// Tells what a line typed at the prompt asks for.
pub fn handle_chat(mode: AppMode, line: &str) -> (action: ReplAction)
    ensures
        action@ == action_for(mode, line@),
{
    let chars = chars_of(line);
    let input = trimmed(&chars);
    if input.len() == 0 {
        return ReplAction::Nothing;
    }
    match mode {
        AppMode::Chat => {
            if is_one_of2(&input, "exit", "quit") {
                ReplAction::LeaveChat
            } else {
                ReplAction::Ask(string_of(&input))
            }
        },
        AppMode::Command => {
            if is_one_of3(&input, "c", "chat", "/chat") {
                ReplAction::EnterChat
            } else if is_one_of2(&input, "h", "/help") {
                ReplAction::ShowHelp
            } else if is_one_of2(&input, "p", "/summary") {
                ReplAction::Special("/summary".to_owned())
            } else if is_one_of4(&input, "폴더분석", "폴더 분석", "구조분석", "구조 분석") {
                ReplAction::AnalyzeStructure
            } else if is_one_of4(&input, "파일분석", "파일 분석", "코드분석", "코드 분석") {
                ReplAction::AskFilePath
            } else if is_one_of4(
                &input,
                "하위폴더 코드분석",
                "하위폴더 분석",
                "전체 코드분석",
                "전체 코드 분석",
            ) {
                ReplAction::AnalyzeFolder
            } else if is_one_of4(&input, "작업계획서", "계획서", "작업정리", "작업 정리") {
                ReplAction::WritePlan
            } else if input[0] == '/' {
                ReplAction::Special(string_of(&input))
            } else if is_one_of3(&input, "안녕", "하이", "헬로") {
                ReplAction::Greet
            } else if input[0] == '?' || input[0] == '@' {
                let question = question_of(&input);
                if question.len() > 0 {
                    ReplAction::Ask(string_of(&question))
                } else {
                    ReplAction::Nothing
                }
            } else {
                ReplAction::Shell(string_of(&input))
            }
        },
    }
}

/// The mode of the prompt after `action`.
pub fn next_mode(mode: AppMode, action: &ReplAction) -> (next: AppMode)
    ensures
        next == mode_after(mode, action@),
{
    match action {
        ReplAction::EnterChat => AppMode::Chat,
        ReplAction::LeaveChat => AppMode::Command,
        _ => mode,
    }
}

/// The text of the prompt in `mode`.
pub fn prompt(mode: AppMode) -> (text: &'static str)
    ensures
        text@ == prompt_text(mode),
{
    match mode {
        AppMode::Command => "ricci> ",
        AppMode::Chat => "ricci (chat)> ",
    }
}

/// The commands that the prompt completes.
pub open spec fn known_commands() -> Seq<Seq<char>> {
    seq![
        "/clear"@,
        "/context"@,
        "/save"@,
        "/help"@,
        "/plan"@,
        "/analyze"@,
        "/review"@,
        "/doc"@,
        "/new"@,
        "/cls"@,
        "/mode"@,
        "/summary"@,
        "/chat"@,
    ]
}

/// The commands among the first `n` of `commands` that begin with `line`.
pub open spec fn completions(commands: Seq<Seq<char>>, line: Seq<char>, n: int) -> Seq<Seq<char>>
    decreases n,
{
    if n <= 0 {
        Seq::empty()
    } else {
        let earlier = completions(commands, line, n - 1);
        if starts_with(commands[n - 1], line) {
            earlier.push(commands[n - 1])
        } else {
            earlier
        }
    }
}

/// The position of the first of `commands` from `from` on that begins with
/// `line` and is longer, or `commands.len()` when there is none.
pub open spec fn hint_position(commands: Seq<Seq<char>>, line: Seq<char>, from: int) -> int
    decreases commands.len() - from,
{
    if from < 0 || from >= commands.len() {
        commands.len() as int
    } else if starts_with(commands[from], line) && commands[from].len() > line.len() {
        from
    } else {
        hint_position(commands, line, from + 1)
    }
}

/// What is shown in grey after the cursor: the rest of the first command
/// that the line begins, if the line begins with a slash.
pub open spec fn hint_for(line: Seq<char>) -> Option<Seq<char>> {
    let at = hint_position(known_commands(), line, 0);
    if line.len() > 0 && line[0] == '/' && 0 <= at < known_commands().len() {
        Some(known_commands()[at].skip(line.len() as int))
    } else {
        None
    }
}

fn commands() -> (list: Vec<Vec<char>>)
    ensures
        crate::text::vec_views(list@) == known_commands(),
{
    let mut list: Vec<Vec<char>> = Vec::new();
    list.push(chars_of("/clear"));
    list.push(chars_of("/context"));
    list.push(chars_of("/save"));
    list.push(chars_of("/help"));
    list.push(chars_of("/plan"));
    list.push(chars_of("/analyze"));
    list.push(chars_of("/review"));
    list.push(chars_of("/doc"));
    list.push(chars_of("/new"));
    list.push(chars_of("/cls"));
    list.push(chars_of("/mode"));
    list.push(chars_of("/summary"));
    list.push(chars_of("/chat"));
    proof {
        assert(crate::text::vec_views(list@) =~= known_commands());
    }
    list
}

/// The completions of a line: the commands that begin with it if it begins
/// with a slash; `None` for any other line, which is then completed as a
/// file name.
pub fn complete_command(line: &str) -> (found: Option<Vec<String>>)
    ensures
        match found {
            Some(list) => line@.len() > 0 && line@[0] == '/' && string_views(list@)
                == completions(known_commands(), line@, known_commands().len() as int),
            None => line@.len() == 0 || line@[0] != '/',
        },
{
    let typed = chars_of(line);
    if typed.len() == 0 || typed[0] != '/' {
        return None;
    }
    let all = commands();
    let mut list: Vec<String> = Vec::new();
    let mut i: usize = 0;
    proof {
        assert(string_views(list@) =~= completions(known_commands(), line@, 0));
    }
    while i < all.len()
        invariant
            i <= all.len(),
            typed@ == line@,
            crate::text::vec_views(all@) == known_commands(),
            string_views(list@) == completions(known_commands(), line@, i as int),
        decreases all.len() - i,
    {
        proof {
            assert(crate::text::vec_views(all@)[i as int] == all@[i as int]@);
        }
        if matches_at(&all[i], &typed, 0) {
            let s = string_of(&all[i]);
            let ghost before = string_views(list@);
            list.push(s);
            proof {
                assert(string_views(list@) =~= before.push(s@));
            }
        }
        i += 1;
    }
    proof {
        assert(crate::text::vec_views(all@).len() == all@.len());
    }
    Some(list)
}

/// The hint for a line with the cursor at its end.
pub fn hint_command(line: &str) -> (hint: Option<String>)
    ensures
        match hint {
            Some(h) => hint_for(line@) == Some(h@),
            None => hint_for(line@) is None,
        },
{
    let typed = chars_of(line);
    if typed.len() == 0 || typed[0] != '/' {
        return None;
    }
    let all = commands();
    let mut i: usize = 0;
    proof {
        assert(crate::text::vec_views(all@).len() == all@.len());
    }
    while i < all.len()
        invariant
            i <= all.len(),
            typed@ == line@,
            typed@.len() > 0 && typed@[0] == '/',
            crate::text::vec_views(all@) == known_commands(),
            hint_position(known_commands(), line@, 0) == hint_position(
                known_commands(),
                line@,
                i as int,
            ),
        decreases all.len() - i,
    {
        proof {
            assert(crate::text::vec_views(all@)[i as int] == all@[i as int]@);
        }
        if matches_at(&all[i], &typed, 0) && all[i].len() > typed.len() {
            let rest = subvec(&all[i], typed.len(), all[i].len());
            proof {
                assert(rest@ =~= all@[i as int]@.skip(typed@.len() as int));
                assert(known_commands()[i as int] == all@[i as int]@);
                assert(hint_position(known_commands(), line@, i as int) == i);
            }
            return Some(string_of(&rest));
        }
        i += 1;
    }
    None
}

} // verus!
