//! The records that the assistant keeps and exchanges.

use vstd::prelude::*;

verus! {

/// How the assistant is asked to answer.
#[derive(Debug, Clone, Copy, PartialEq, Eq, Structural)]
pub enum ChatMode {
    /// Ordinary conversation.
    Normal,
    /// Short answers.
    Concise,
    /// Thorough answers.
    Detailed,
    /// Answers centred on code.
    Code,
    /// Answers centred on planning.
    Planning,
}

/// What is known of the project under discussion.
#[derive(Debug, Clone)]
pub struct ProjectInfo {
    pub name: String,
    pub language: String,
    pub framework: Option<String>,
    pub dependencies: Vec<String>,
    pub structure: String,
}

/// What is known of a project, as plain text.
pub struct ProjectInfoView {
    pub name: Seq<char>,
    pub language: Seq<char>,
    pub framework: Option<Seq<char>>,
    pub dependencies: Seq<Seq<char>>,
    pub structure: Seq<char>,
}

impl View for ProjectInfo {
    type V = ProjectInfoView;

    open spec fn view(&self) -> ProjectInfoView {
        ProjectInfoView {
            name: self.name@,
            language: self.language@,
            framework: match self.framework {
                Some(f) => Some(f@),
                None => None,
            },
            dependencies: self.dependencies@.map_values(|d: String| d@),
            structure: self.structure@,
        }
    }
}

/// The view of project information that may be missing.
pub open spec fn project_view(info: Option<ProjectInfo>) -> Option<ProjectInfoView> {
    match info {
        Some(i) => Some(i@),
        None => None,
    }
}

/// One finding of a code review.
#[derive(Debug)]
pub struct ReviewIssue {
    pub severity: IssueSeverity,
    pub category: IssueCategory,
    pub location: String,
    pub description: String,
    pub suggestion: Option<String>,
}

/// How grave a finding is.
#[derive(Debug, Clone, Copy, PartialEq, Eq, Structural)]
pub enum IssueSeverity {
    Critical,
    High,
    Medium,
    Low,
    Info,
}

/// What a finding is about.
#[derive(Debug, Clone, Copy, PartialEq, Eq, Structural)]
pub enum IssueCategory {
    Security,
    Performance,
    Style,
    BestPractice,
    Bug,
    Documentation,
}

/// A replacement that the model suggests for a piece of a file.
#[derive(Debug, Clone)]
pub struct CodeSuggestion {
    pub file_path: String,
    pub original_code: String,
    pub suggested_code: String,
    pub reason: String,
}

/// One turn of a conversation.
#[derive(Debug, Clone)]
pub struct Message {
    /// Who spoke: `user` or `assistant`.
    pub role: String,
    pub content: String,
    /// When, in seconds since the epoch, UTC.
    pub timestamp: i64,
}

/// A message as plain values.
pub struct MessageView {
    pub role: Seq<char>,
    pub content: Seq<char>,
    pub timestamp: int,
}

impl View for Message {
    type V = MessageView;

    open spec fn view(&self) -> MessageView {
        MessageView { role: self.role@, content: self.content@, timestamp: self.timestamp as int }
    }
}

/// The messages of `messages` as plain values.
pub open spec fn message_views(messages: Seq<Message>) -> Seq<MessageView> {
    messages.map_values(|m: Message| m@)
}

/// What the assistant knows of the conversation so far.
#[derive(Debug, Clone)]
pub struct AssistantContext {
    pub messages: Vec<Message>,
    pub project_info: Option<ProjectInfo>,
    pub current_files: Vec<String>,
}

impl Default for AssistantContext {
    fn default() -> (context: Self)
        ensures
            context.messages@.len() == 0,
            context.project_info is None,
            context.current_files@.len() == 0,
    {
        AssistantContext {
            messages: Vec::new(),
            project_info: None,
            current_files: Vec::new(),
        }
    }
}

} // verus!
