//! The special commands of the prompt, those that begin with a slash.

use vstd::prelude::*;
use crate::assistant::types::ChatMode;
use crate::text::{
    chars_of, matches_at, push_str, split_words, starts_with, str_eq, string_of, subvec, trim,
    trim_bounds, vec_views, words_of,
};

verus! {

/// What a special command asks for.
#[derive(Debug, Clone, PartialEq, Eq)]
pub enum SpecialCommand {
    /// Forget the conversation.
    Clear,
    /// Clear the screen.
    ClearScreen,
    /// Clear the screen and forget the conversation.
    NewConversation,
    /// Show what the assistant knows.
    ShowContext,
    /// Save the session.
    SaveSession,
    /// Show the help.
    Help,
    /// Show examples of plans to ask for.
    PlanTemplates,
    /// Analyse the project.
    Analyze,
    /// Review the code of this file.
    Review(String),
    /// Write the conversation up as a work plan and save it.
    Summary,
    /// Switch to this mode.
    SetMode(ChatMode),
    /// The number given is not that of a mode.
    BadMode,
    /// Write a document of this kind on this subject.
    Doc { target: String, doc_type: String },
    /// Nothing: `/doc` without a subject.
    Nothing,
    /// Not a command.
    Unknown,
}

/// A special command as plain text.
pub enum SpecialCommandView {
    Clear,
    ClearScreen,
    NewConversation,
    ShowContext,
    SaveSession,
    Help,
    PlanTemplates,
    Analyze,
    Review(Seq<char>),
    Summary,
    SetMode(ChatMode),
    BadMode,
    Doc { target: Seq<char>, doc_type: Seq<char> },
    Nothing,
    Unknown,
}

impl View for SpecialCommand {
    type V = SpecialCommandView;

    open spec fn view(&self) -> SpecialCommandView {
        match self {
            SpecialCommand::Clear => SpecialCommandView::Clear,
            SpecialCommand::ClearScreen => SpecialCommandView::ClearScreen,
            SpecialCommand::NewConversation => SpecialCommandView::NewConversation,
            SpecialCommand::ShowContext => SpecialCommandView::ShowContext,
            SpecialCommand::SaveSession => SpecialCommandView::SaveSession,
            SpecialCommand::Help => SpecialCommandView::Help,
            SpecialCommand::PlanTemplates => SpecialCommandView::PlanTemplates,
            SpecialCommand::Analyze => SpecialCommandView::Analyze,
            SpecialCommand::Review(path) => SpecialCommandView::Review(path@),
            SpecialCommand::Summary => SpecialCommandView::Summary,
            SpecialCommand::SetMode(mode) => SpecialCommandView::SetMode(*mode),
            SpecialCommand::BadMode => SpecialCommandView::BadMode,
            SpecialCommand::Doc { target, doc_type } => SpecialCommandView::Doc {
                target: target@,
                doc_type: doc_type@,
            },
            SpecialCommand::Nothing => SpecialCommandView::Nothing,
            SpecialCommand::Unknown => SpecialCommandView::Unknown,
        }
    }
}

/// `s` without `p` at its start, as often as `p` stands there.
pub open spec fn without_prefix(s: Seq<char>, p: Seq<char>) -> Seq<char>
    decreases s.len(),
{
    if p.len() > 0 && starts_with(s, p) {
        without_prefix(s.skip(p.len() as int), p)
    } else {
        s
    }
}

/// The mode with a number from one to five.
pub open spec fn mode_numbered(number: Seq<char>) -> Option<ChatMode> {
    if number == "1"@ {
        Some(ChatMode::Normal)
    } else if number == "2"@ {
        Some(ChatMode::Concise)
    } else if number == "3"@ {
        Some(ChatMode::Detailed)
    } else if number == "4"@ {
        Some(ChatMode::Code)
    } else if number == "5"@ {
        Some(ChatMode::Planning)
    } else {
        None
    }
}

/// What a special command asks for.
pub open spec fn special_command(command: Seq<char>) -> SpecialCommandView {
    if command == "/clear"@ {
        SpecialCommandView::Clear
    } else if command == "/cls"@ {
        SpecialCommandView::ClearScreen
    } else if command == "/new"@ {
        SpecialCommandView::NewConversation
    } else if command == "/context"@ {
        SpecialCommandView::ShowContext
    } else if command == "/save"@ {
        SpecialCommandView::SaveSession
    } else if command == "/help"@ {
        SpecialCommandView::Help
    } else if command == "/plan"@ {
        SpecialCommandView::PlanTemplates
    } else if command == "/analyze"@ {
        SpecialCommandView::Analyze
    } else if starts_with(command, "/review "@) {
        SpecialCommandView::Review(trim(without_prefix(command, "/review "@)))
    } else if command == "/summary"@ {
        SpecialCommandView::Summary
    } else if starts_with(command, "/mode "@) {
        match mode_numbered(trim(without_prefix(command, "/mode "@))) {
            Some(mode) => SpecialCommandView::SetMode(mode),
            None => SpecialCommandView::BadMode,
        }
    } else if starts_with(command, "/doc "@) {
        let words = words_of(command);
        if words.len() >= 2 {
            SpecialCommandView::Doc {
                target: words[1],
                doc_type: if words.len() > 2 {
                    words[2]
                } else {
                    "readme"@
                },
            }
        } else {
            SpecialCommandView::Nothing
        }
    } else {
        SpecialCommandView::Unknown
    }
}

fn argument_after(command: &Vec<char>, prefix: &Vec<char>) -> (rest: Vec<char>)
    ensures
        rest@ == trim(without_prefix(command@, prefix@)),
{
    let mut at: usize = 0;
    proof {
        assert(command@.skip(0) =~= command@);
    }
    if prefix.len() > 0 {
        while matches_at(command, prefix, at)
            invariant
                at <= command.len(),
                prefix.len() > 0,
                without_prefix(command@, prefix@) == without_prefix(
                    command@.skip(at as int),
                    prefix@,
                ),
            decreases command.len() - at,
        {
            proof {
                let rest = command@.skip(at as int);
                assert(rest.subrange(0, prefix@.len() as int) =~= command@.subrange(
                    at as int,
                    at + prefix@.len(),
                ));
                assert(rest.skip(prefix@.len() as int) =~= command@.skip(at + prefix@.len()));
            }
            at += prefix.len();
        }
        proof {
            let rest = command@.skip(at as int);
            if prefix@.len() <= rest.len() {
                assert(rest.subrange(0, prefix@.len() as int) =~= command@.subrange(
                    at as int,
                    at + prefix@.len(),
                ));
            }
            assert(without_prefix(rest, prefix@) == rest);
        }
    }
    proof {
        assert(command@.subrange(at as int, command@.len() as int) =~= command@.skip(at as int));
    }
    let (a, b) = trim_bounds(command, at, command.len());
    subvec(command, a, b)
}

/// Reads a special command.
pub fn handle_special_command(command: &str) -> (parsed: SpecialCommand)
    ensures
        parsed@ == special_command(command@),
{
    if str_eq(command, "/clear") {
        return SpecialCommand::Clear;
    } else if str_eq(command, "/cls") {
        return SpecialCommand::ClearScreen;
    } else if str_eq(command, "/new") {
        return SpecialCommand::NewConversation;
    } else if str_eq(command, "/context") {
        return SpecialCommand::ShowContext;
    } else if str_eq(command, "/save") {
        return SpecialCommand::SaveSession;
    } else if str_eq(command, "/help") {
        return SpecialCommand::Help;
    } else if str_eq(command, "/plan") {
        return SpecialCommand::PlanTemplates;
    } else if str_eq(command, "/analyze") {
        return SpecialCommand::Analyze;
    }
    let chars = chars_of(command);
    let review = chars_of("/review ");
    let mode = chars_of("/mode ");
    let doc = chars_of("/doc ");
    if matches_at(&chars, &review, 0) {
        let path = argument_after(&chars, &review);
        SpecialCommand::Review(string_of(&path))
    } else if str_eq(command, "/summary") {
        SpecialCommand::Summary
    } else if matches_at(&chars, &mode, 0) {
        let number = string_of(&argument_after(&chars, &mode));
        if str_eq(number.as_str(), "1") {
            SpecialCommand::SetMode(ChatMode::Normal)
        } else if str_eq(number.as_str(), "2") {
            SpecialCommand::SetMode(ChatMode::Concise)
        } else if str_eq(number.as_str(), "3") {
            SpecialCommand::SetMode(ChatMode::Detailed)
        } else if str_eq(number.as_str(), "4") {
            SpecialCommand::SetMode(ChatMode::Code)
        } else if str_eq(number.as_str(), "5") {
            SpecialCommand::SetMode(ChatMode::Planning)
        } else {
            SpecialCommand::BadMode
        }
    } else if matches_at(&chars, &doc, 0) {
        let words = split_words(&chars);
        proof {
            if words@.len() > 1 {
                assert(vec_views(words@)[1] == words@[1]@);
            }
            if words@.len() > 2 {
                assert(vec_views(words@)[2] == words@[2]@);
            }
            assert(vec_views(words@).len() == words@.len());
        }
        if words.len() >= 2 {
            let doc_type = if words.len() > 2 {
                string_of(&words[2])
            } else {
                "readme".to_owned()
            };
            SpecialCommand::Doc { target: string_of(&words[1]), doc_type }
        } else {
            SpecialCommand::Nothing
        }
    } else {
        SpecialCommand::Unknown
    }
}

/// The name of the file that a summary written at `timestamp` is saved to.
pub open spec fn summary_file(timestamp: Seq<char>) -> Seq<char> {
    "plan_"@ + timestamp + ".md"@
}

/// The name of the file that a summary written at `timestamp` is saved to.
pub fn summary_file_name(timestamp: &str) -> (name: String)
    ensures
        name@ == summary_file(timestamp@),
{
    let mut out: Vec<char> = Vec::new();
    push_str(&mut out, "plan_");
    push_str(&mut out, timestamp);
    push_str(&mut out, ".md");
    proof {
        assert(out@ =~= summary_file(timestamp@));
    }
    string_of(&out)
}

/// The name of the file that a summary written now is saved to: `plan_`,
/// the local date and time, `.md`.
pub fn new_summary_file_name() -> (name: String)
    ensures
        exists|timestamp: Seq<char>| name@ == #[trigger] summary_file(timestamp),
{
    let timestamp = crate::clock::local_timestamp();
    let name = summary_file_name(timestamp.as_str());
    proof {
        assert(name@ == summary_file(timestamp@));
    }
    name
}

} // verus!
