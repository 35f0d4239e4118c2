//! The assistant: the conversation it keeps, the answers it streams, and the
//! file edits it proposes.
//!
//! The assistant talks to no model and touches no file itself. It says what
//! is to be sent, takes what came back, and keeps the record.

pub mod batch;
pub mod diff;
pub mod export;
pub mod file_modifier;
pub mod files;
pub mod laws;
pub mod prompts;
pub mod review;
pub mod types;

use vstd::prelude::*;
use crate::assistant::batch::{
    change_views, BatchState, ChangeBatch, FileChange, FileChangeView,
};
use crate::assistant::export::{
    conversation_markdown, export_conversation, exported, transcript,
};
use crate::assistant::file_modifier::{
    backup_copies, copy_views, BackupRun, FileModifier, SafeFileModifier,
};
use crate::assistant::types::{
    message_views, project_view, AssistantContext, ChatMode, CodeSuggestion, Message, MessageView,
    ProjectInfo, ProjectInfoView,
};
use crate::api::{ChatRequest, OpenAIClient};
use crate::assistant::prompts::review_request;
use crate::assistant::review::review_code;
use crate::clock::now_utc_seconds;
use crate::config::types::Config;
use crate::config::validators::{key_of, missing_key, ConfigError};
use crate::renderer::{segment_views, MarkdownRenderer, RenderState, Segment};
use crate::text::{
    chars_of, decimal, decimal_of, push_all, push_str, same_chars, split_words, str_eq, string_of,
    string_views, subvec, trim, trimmed, vec_views, words_of,
};

verus! {

/// What an assistant holds, as plain values.
pub struct AssistantState {
    /// The settings that the assistant was made with.
    pub config: Config,
    /// The client that requests are made with.
    pub client: OpenAIClient,
    /// The conversation so far.
    pub messages: Seq<MessageView>,
    /// The files that the conversation is about.
    pub files: Seq<Seq<char>>,
    /// What is known of the project.
    pub project: Option<ProjectInfoView>,
    /// How answers are asked for.
    pub mode: ChatMode,
    /// The renderer of the answer under way.
    pub renderer: RenderState,
    /// The text of the answer under way.
    pub answer: Seq<char>,
    /// Whether anything of the answer under way has arrived.
    pub answered: bool,
    /// Whether an answer is under way: it was begun and has not ended.
    pub receiving: bool,
}

impl AssistantState {
    /// The state of a new assistant with these settings and this client.
    pub open spec fn initial(config: Config, client: OpenAIClient) -> AssistantState {
        AssistantState {
            config,
            client,
            messages: Seq::empty(),
            files: Seq::empty(),
            project: None,
            mode: ChatMode::Normal,
            renderer: RenderState::initial(),
            answer: Seq::empty(),
            answered: false,
            receiving: false,
        }
    }

    /// The state made ready for a new answer: no text yet, a fresh renderer.
    pub open spec fn awaiting_answer(self) -> AssistantState {
        AssistantState {
            answer: Seq::empty(),
            answered: false,
            renderer: RenderState::initial(),
            receiving: true,
            ..self
        }
    }

    /// The state after an answer has ended: nothing under way.
    pub open spec fn at_rest(self) -> AssistantState {
        AssistantState {
            answer: Seq::empty(),
            answered: false,
            renderer: RenderState::initial(),
            receiving: false,
            ..self
        }
    }

    /// What is recorded as the answer when it ends: its text, or the notice
    /// of silence where that is asked for and nothing arrived.
    pub open spec fn recorded_answer(self, note_silence: bool) -> Seq<char> {
        if note_silence && !self.answered {
            silence_notice()
        } else {
            self.answer
        }
    }

    /// Whether `next` is this state after `question` was asked at some
    /// time: made ready for the answer, with the question recorded as said
    /// by the user.
    pub open spec fn asked(self, question: Seq<char>, next: AssistantState) -> bool {
        exists|timestamp: int|
            next == #[trigger] self.awaiting_answer().with_message("user"@, question, timestamp)
    }

    /// The state with one more message.
    pub open spec fn with_message(self, role: Seq<char>, content: Seq<char>, timestamp: int) -> AssistantState {
        AssistantState {
            messages: self.messages.push(MessageView { role, content, timestamp }),
            ..self
        }
    }
}

/// The instruction that sets the tone of the model for a mode.
pub open spec fn system_prompt(mode: ChatMode) -> Seq<char> {
    match mode {
        ChatMode::Normal => "You are a helpful development assistant."@,
        ChatMode::Concise => "You are a concise assistant. Keep responses brief and to the point."@,
        ChatMode::Detailed => "You are a detailed assistant. Provide comprehensive explanations with examples."@,
        ChatMode::Code => "You are a code-focused assistant. Prioritize code examples and technical details."@,
        ChatMode::Planning => "You are a project planning assistant. Focus on architecture, design, and planning."@,
    }
}

/// The mode that a name stands for.
pub open spec fn mode_named(name: Seq<char>) -> Option<ChatMode> {
    if name == "normal"@ {
        Some(ChatMode::Normal)
    } else if name == "concise"@ {
        Some(ChatMode::Concise)
    } else if name == "detailed"@ {
        Some(ChatMode::Detailed)
    } else if name == "code"@ {
        Some(ChatMode::Code)
    } else if name == "planning"@ {
        Some(ChatMode::Planning)
    } else {
        None
    }
}

/// The mode that a name stands for.
pub fn parse_mode(name: &str) -> (mode: Option<ChatMode>)
    ensures
        mode == mode_named(name@),
{
    if str_eq(name, "normal") {
        Some(ChatMode::Normal)
    } else if str_eq(name, "concise") {
        Some(ChatMode::Concise)
    } else if str_eq(name, "detailed") {
        Some(ChatMode::Detailed)
    } else if str_eq(name, "code") {
        Some(ChatMode::Code)
    } else if str_eq(name, "planning") {
        Some(ChatMode::Planning)
    } else {
        None
    }
}

/// What a line typed into a conversation is.
#[derive(Debug, Clone, PartialEq, Eq)]
pub enum ChatInput {
    /// Nothing but whitespace.
    Empty,
    /// The word that ends the conversation.
    Exit,
    /// A command: what follows the slash.
    Command(String),
    /// Something to say to the model.
    Message(String),
}

/// A line of input as plain text.
pub enum ChatInputView {
    Empty,
    Exit,
    Command(Seq<char>),
    Message(Seq<char>),
}

impl View for ChatInput {
    type V = ChatInputView;

    open spec fn view(&self) -> ChatInputView {
        match self {
            ChatInput::Empty => ChatInputView::Empty,
            ChatInput::Exit => ChatInputView::Exit,
            ChatInput::Command(c) => ChatInputView::Command(c@),
            ChatInput::Message(m) => ChatInputView::Message(m@),
        }
    }
}

/// What a line of input is, once trimmed: empty, the word `exit`, a command
/// after a slash, or a message.
pub open spec fn chat_input(line: Seq<char>) -> ChatInputView {
    let input = trim(line);
    if input.len() == 0 {
        ChatInputView::Empty
    } else if input == "exit"@ {
        ChatInputView::Exit
    } else if input[0] == '/' {
        ChatInputView::Command(input.skip(1))
    } else {
        ChatInputView::Message(input)
    }
}

/// Tells what a line typed into a conversation is.
pub fn classify_chat_input(line: &str) -> (input: ChatInput)
    ensures
        input@ == chat_input(line@),
{
    let chars = chars_of(line);
    let input = trimmed(&chars);
    let exit = chars_of("exit");
    if input.len() == 0 {
        ChatInput::Empty
    } else if same_chars(&input, &exit) {
        ChatInput::Exit
    } else if input[0] == '/' {
        let rest = subvec(&input, 1, input.len());
        proof {
            assert(rest@ =~= input@.skip(1));
        }
        ChatInput::Command(string_of(&rest))
    } else {
        ChatInput::Message(string_of(&input))
    }
}

/// What a command of a conversation asks for.
#[derive(Debug, Clone, PartialEq, Eq)]
pub enum ChatCommand {
    /// Forget the conversation.
    Clear,
    /// Switch to this mode.
    SetMode(ChatMode),
    /// The mode that was asked for does not exist.
    UnknownMode,
    /// Tell the mode in use.
    ShowMode,
    /// Write the conversation to this file.
    Save(String),
    /// Not a command.
    Unknown,
}

/// A command as plain text.
pub enum ChatCommandView {
    Clear,
    SetMode(ChatMode),
    UnknownMode,
    ShowMode,
    Save(Seq<char>),
    Unknown,
}

impl View for ChatCommand {
    type V = ChatCommandView;

    open spec fn view(&self) -> ChatCommandView {
        match self {
            ChatCommand::Clear => ChatCommandView::Clear,
            ChatCommand::SetMode(mode) => ChatCommandView::SetMode(*mode),
            ChatCommand::UnknownMode => ChatCommandView::UnknownMode,
            ChatCommand::ShowMode => ChatCommandView::ShowMode,
            ChatCommand::Save(file) => ChatCommandView::Save(file@),
            ChatCommand::Unknown => ChatCommandView::Unknown,
        }
    }
}

/// What the words of a command ask for: `clear`; `mode` with or without the
/// name of a mode; `save` with or without a file name, `chat_history.md`
/// being the default.
pub open spec fn chat_command(words: Seq<Seq<char>>) -> ChatCommandView {
    if words.len() == 0 {
        ChatCommandView::Unknown
    } else if words[0] == "clear"@ {
        ChatCommandView::Clear
    } else if words[0] == "mode"@ {
        if words.len() > 1 {
            match mode_named(words[1]) {
                Some(mode) => ChatCommandView::SetMode(mode),
                None => ChatCommandView::UnknownMode,
            }
        } else {
            ChatCommandView::ShowMode
        }
    } else if words[0] == "save"@ {
        ChatCommandView::Save(
            if words.len() > 1 {
                words[1]
            } else {
                "chat_history.md"@
            },
        )
    } else {
        ChatCommandView::Unknown
    }
}

/// The state after a command.
pub open spec fn after_command(state: AssistantState, command: ChatCommandView) -> AssistantState {
    match command {
        ChatCommandView::Clear => AssistantState {
            messages: Seq::empty(),
            files: Seq::empty(),
            ..state
        },
        ChatCommandView::SetMode(mode) => AssistantState { mode, ..state },
        _ => state,
    }
}

/// Reads a command of a conversation.
pub fn parse_chat_command(command: &str) -> (parsed: ChatCommand)
    ensures
        parsed@ == chat_command(words_of(command@)),
{
    let chars = chars_of(command);
    let words = split_words(&chars);
    let clear = chars_of("clear");
    let mode = chars_of("mode");
    let save = chars_of("save");
    proof {
        if words@.len() > 0 {
            assert(vec_views(words@)[0] == words@[0]@);
        }
        if words@.len() > 1 {
            assert(vec_views(words@)[1] == words@[1]@);
        }
    }
    if words.len() == 0 {
        ChatCommand::Unknown
    } else if same_chars(&words[0], &clear) {
        ChatCommand::Clear
    } else if same_chars(&words[0], &mode) {
        if words.len() > 1 {
            let name = string_of(&words[1]);
            match parse_mode(name.as_str()) {
                Some(m) => ChatCommand::SetMode(m),
                None => ChatCommand::UnknownMode,
            }
        } else {
            ChatCommand::ShowMode
        }
    } else if same_chars(&words[0], &save) {
        if words.len() > 1 {
            ChatCommand::Save(string_of(&words[1]))
        } else {
            ChatCommand::Save("chat_history.md".to_owned())
        }
    } else {
        ChatCommand::Unknown
    }
}

/// The summary of what an assistant knows: the project, if any, and the
/// number of messages.
pub open spec fn context_summary(state: AssistantState) -> Seq<char> {
    let project = match state.project {
        Some(info) => "프로젝트: "@ + info.name + " ("@ + info.language + ")\n"@
            + match info.framework {
            Some(framework) => "프레임워크: "@ + framework + "\n"@,
            None => Seq::<char>::empty(),
        },
        None => Seq::<char>::empty(),
    };
    project + "대화 기록: "@ + decimal(state.messages.len()) + " 개\n"@
}

/// The changes that suggestions stand for: for each suggestion its file,
/// the code it replaces, the code it proposes, and its reason.
pub open spec fn suggested_changes(suggestions: Seq<CodeSuggestion>) -> Seq<FileChangeView> {
    suggestions.map_values(
        |s: CodeSuggestion|
            FileChangeView {
                path: s.file_path@,
                original_content: s.original_code@,
                new_content: s.suggested_code@,
                description: s.reason@,
            },
    )
}

/// What is said in place of an answer that never came.
pub open spec fn silence_notice() -> Seq<char> {
    "응답을 받지 못했습니다."@
}

/// What is recorded in place of an answer when the call failed.
pub open spec fn failure_notice(error: Seq<char>) -> Seq<char> {
    "오류가 발생했습니다: "@ + error
}

/// What is to be done after a line typed into a conversation.
#[derive(Debug, Clone, PartialEq, Eq)]
pub enum ChatTurn {
    /// Nothing: the line was empty.
    Skip,
    /// Leave the conversation.
    Quit,
    /// The command was carried out on the assistant; tell the user, and
    /// save the conversation if that is what it asks for.
    Command(ChatCommand),
    /// The question was recorded; send this instruction with the
    /// conversation and stream the answer.
    Ask(String),
}

/// A turn as plain text.
pub enum ChatTurnView {
    Skip,
    Quit,
    Command(ChatCommandView),
    Ask(Seq<char>),
}

impl View for ChatTurn {
    type V = ChatTurnView;

    open spec fn view(&self) -> ChatTurnView {
        match self {
            ChatTurn::Skip => ChatTurnView::Skip,
            ChatTurn::Quit => ChatTurnView::Quit,
            ChatTurn::Command(c) => ChatTurnView::Command(c@),
            ChatTurn::Ask(prompt) => ChatTurnView::Ask(prompt@),
        }
    }
}

/// What the channel of an answer delivers.
#[derive(Debug, Clone, PartialEq, Eq)]
pub enum StreamEvent {
    /// The next fragment of the answer.
    Fragment(String),
    /// The call failed or the stream broke; nothing follows.
    Failed(String),
    /// The answer is complete.
    Closed,
}

/// What is to be done with what the channel delivered.
#[derive(Debug, Clone, PartialEq, Eq)]
pub enum StreamStep {
    /// Show these segments and go on reading.
    Rendered(Vec<Segment>),
    /// Show these last segments, report the error if there is one, and read
    /// no more.
    Ended { segments: Vec<Segment>, error: Option<String> },
    /// No answer is under way: the event is dropped.
    Ignored,
}

/// The development assistant.
pub struct DevAssistant {
    client: OpenAIClient,
    config: Config,
    renderer: MarkdownRenderer,
    context: AssistantContext,
    chat_mode: ChatMode,
    response: String,
    has_content: bool,
    receiving: bool,
}

impl View for DevAssistant {
    type V = AssistantState;

    closed spec fn view(&self) -> AssistantState {
        AssistantState {
            config: self.config,
            client: self.client,
            messages: message_views(self.context.messages@),
            files: string_views(self.context.current_files@),
            project: project_view(self.context.project_info),
            mode: self.chat_mode,
            renderer: self.renderer@,
            answer: self.response@,
            answered: self.has_content,
            receiving: self.receiving,
        }
    }
}

impl DevAssistant {
    /// An assistant for the provider that `config` names, with nothing said
    /// yet, in normal mode; or the error that says which key is missing.
    pub fn new(config: Config) -> (result: Result<Self, ConfigError>)
        ensures
            match result {
                Ok(assistant) => assistant@ == AssistantState::initial(config, assistant@.client)
                    && assistant@.client.serves(config),
                Err(e) => key_of(config, config.model_preferences.default_provider@) is None
                    && e@ == missing_key(config.model_preferences.default_provider@),
            },
    {
        let client = match OpenAIClient::new(&config) {
            Ok(client) => client,
            Err(e) => {
                return Err(e);
            },
        };
        let assistant = DevAssistant {
            client,
            config,
            renderer: MarkdownRenderer::new(),
            context: AssistantContext::default(),
            chat_mode: ChatMode::Normal,
            response: String::new(),
            has_content: false,
            receiving: false,
        };
        proof {
            assert(assistant@.messages =~= Seq::<MessageView>::empty());
            assert(assistant@.files =~= Seq::<Seq<char>>::empty());
            assert(assistant@ =~= AssistantState::initial(config, assistant@.client));
        }
        Ok(assistant)
    }

    /// The settings that the assistant was made with.
    pub fn get_config(&self) -> (config: &Config)
        ensures
            *config == self@.config,
    {
        &self.config
    }

    /// The request for a single question, to be answered whole.
    pub fn query(&self, prompt: &str) -> (request: ChatRequest)
        ensures
            request@ == self@.client.question(prompt@),
    {
        self.client.query(prompt)
    }

    /// The request for a review of `code` by `criteria`.
    pub fn review_code(&self, code: &str, criteria: &str) -> (request: ChatRequest)
        ensures
            request@ == self@.client.question(review_request(criteria@, code@)),
    {
        review_code(&self.client, code, criteria)
    }

    /// What the assistant knows of the conversation.
    pub fn context(&self) -> (context: &AssistantContext)
        ensures
            message_views(context.messages@) == self@.messages,
            string_views(context.current_files@) == self@.files,
            project_view(context.project_info) == self@.project,
    {
        &self.context
    }

    /// What is written out when the session is saved: what the assistant
    /// knows of the conversation.
    pub fn save_session(&self) -> (context: &AssistantContext)
        ensures
            message_views(context.messages@) == self@.messages,
            string_views(context.current_files@) == self@.files,
            project_view(context.project_info) == self@.project,
    {
        &self.context
    }

    /// Puts back what a saved session knew.
    pub fn load_session(&mut self, context: AssistantContext)
        ensures
            final(self)@ == (AssistantState {
                messages: message_views(context.messages@),
                files: string_views(context.current_files@),
                project: project_view(context.project_info),
                ..old(self)@
            }),
    {
        self.context = context;
    }

    /// Switches to `mode`.
    pub fn set_mode(&mut self, mode: ChatMode)
        ensures
            final(self)@ == (AssistantState { mode, ..old(self)@ }),
    {
        self.chat_mode = mode;
    }

    /// The mode in use.
    pub fn get_mode(&self) -> (mode: ChatMode)
        ensures
            mode == self@.mode,
    {
        self.chat_mode
    }

    /// Notes that the conversation is about the file at `file_path`. A file
    /// is noted once.
    pub fn add_context_file(&mut self, file_path: &str)
        ensures
            final(self)@ == (AssistantState {
                files: if old(self)@.files.contains(file_path@) {
                    old(self)@.files
                } else {
                    old(self)@.files.push(file_path@)
                },
                ..old(self)@
            }),
    {
        let mut i: usize = 0;
        let ghost files = string_views(self.context.current_files@);
        while i < self.context.current_files.len()
            invariant
                i <= self.context.current_files.len(),
                files == string_views(self.context.current_files@),
                *self == *old(self),
                forall|k: int| 0 <= k < i ==> files[k] != file_path@,
            decreases self.context.current_files.len() - i,
        {
            if str_eq(self.context.current_files[i].as_str(), file_path) {
                proof {
                    assert(files[i as int] == file_path@);
                    assert(self@ =~= old(self)@);
                }
                return ;
            }
            i += 1;
        }
        self.context.current_files.push(file_path.to_owned());
        proof {
            assert(!files.contains(file_path@));
            assert(string_views(self.context.current_files@) =~= files.push(file_path@));
        }
    }

    /// Forgets the conversation and the files it was about.
    pub fn clear_context(&mut self)
        ensures
            final(self)@ == (AssistantState {
                messages: Seq::empty(),
                files: Seq::empty(),
                ..old(self)@
            }),
    {
        self.context.messages = Vec::new();
        self.context.current_files = Vec::new();
        proof {
            assert(self@.messages =~= Seq::<MessageView>::empty());
            assert(self@.files =~= Seq::<Seq<char>>::empty());
        }
    }

    /// Records what is known of the project.
    pub fn load_project_context(&mut self, info: ProjectInfo)
        ensures
            final(self)@ == (AssistantState { project: Some(info@), ..old(self)@ }),
    {
        self.context.project_info = Some(info);
    }

    /// The instruction that sets the tone of the model in the mode in use.
    pub fn get_system_prompt(&self) -> (prompt: String)
        ensures
            prompt@ == system_prompt(self@.mode),
    {
        match self.chat_mode {
            ChatMode::Normal => "You are a helpful development assistant.".to_owned(),
            ChatMode::Concise => "You are a concise assistant. Keep responses brief and to the point.".to_owned(),
            ChatMode::Detailed => "You are a detailed assistant. Provide comprehensive explanations with examples.".to_owned(),
            ChatMode::Code => "You are a code-focused assistant. Prioritize code examples and technical details.".to_owned(),
            ChatMode::Planning => "You are a project planning assistant. Focus on architecture, design, and planning.".to_owned(),
        }
    }

    /// Records a message said at time `timestamp`.
    pub fn add_message_at(&mut self, role: &str, content: &str, timestamp: i64)
        ensures
            final(self)@ == old(self)@.with_message(role@, content@, timestamp as int),
    {
        let message = Message { role: role.to_owned(), content: content.to_owned(), timestamp };
        let ghost before = message_views(self.context.messages@);
        self.context.messages.push(message);
        proof {
            assert(message_views(self.context.messages@) =~= before.push(message@));
        }
    }

    /// Records a message said now.
    pub fn add_message(&mut self, role: &str, content: &str)
        ensures
            exists|timestamp: int|
                final(self)@ == #[trigger] old(self)@.with_message(role@, content@, timestamp),
    {
        let now = now_utc_seconds();
        self.add_message_at(role, content, now);
        proof {
            assert(self@ == old(self)@.with_message(role@, content@, now as int));
        }
    }

    /// Carries out a command of a conversation on the assistant and says
    /// what the command was, so that the caller can report or save.
    pub fn handle_command(&mut self, command: &str) -> (parsed: ChatCommand)
        ensures
            parsed@ == chat_command(words_of(command@)),
            final(self)@ == after_command(old(self)@, parsed@),
    {
        let parsed = parse_chat_command(command);
        match &parsed {
            ChatCommand::Clear => {
                self.clear_context();
            },
            ChatCommand::SetMode(mode) => {
                self.set_mode(*mode);
            },
            _ => {},
        }
        parsed
    }

    /// The summary of what the assistant knows.
    pub fn get_context_summary(&self) -> (summary: String)
        ensures
            summary@ == context_summary(self@),
    {
        let mut out: Vec<char> = Vec::new();
        match &self.context.project_info {
            Some(info) => {
                push_str(&mut out, "프로젝트: ");
                push_str(&mut out, info.name.as_str());
                push_str(&mut out, " (");
                push_str(&mut out, info.language.as_str());
                push_str(&mut out, ")\n");
                match &info.framework {
                    Some(framework) => {
                        push_str(&mut out, "프레임워크: ");
                        push_str(&mut out, framework.as_str());
                        push_str(&mut out, "\n");
                    },
                    None => {},
                }
            },
            None => {},
        }
        push_str(&mut out, "대화 기록: ");
        let count = decimal_of(self.context.messages.len() as u64);
        push_all(&mut out, &count);
        push_str(&mut out, " 개\n");
        proof {
            assert(out@ =~= context_summary(self@));
        }
        string_of(&out)
    }

    /// The transcript of the conversation as Markdown, dated now.
    pub fn save_conversation(&self) -> (content: String)
        ensures
            exists|now: int| content@ == #[trigger] transcript(self@.messages, now),
    {
        let now = now_utc_seconds();
        let content = conversation_markdown(&self.context.messages, now);
        proof {
            assert(content@ == transcript(self@.messages, now as int));
        }
        content
    }

    /// The conversation written out, dated now: as a work plan when `format`
    /// is `markdown`, as a plain transcript otherwise.
    pub fn export_as_plan(&self, format: &str) -> (content: String)
        ensures
            exists|now: int|
                content@ == #[trigger] exported(self@.messages, self@.project, format@, now),
    {
        let now = now_utc_seconds();
        let content = export_conversation(
            &self.context.messages,
            &self.context.project_info,
            format,
            now,
        );
        proof {
            assert(content@ == exported(self@.messages, self@.project, format@, now as int));
        }
        content
    }

    /// The request for documentation of kind `doc_type` on `content`, which
    /// is the text of the file to document or, where there is no such file,
    /// the subject itself.
    pub fn generate_documentation(&self, content: &str, doc_type: &str) -> (prompt: String)
        ensures
            prompt@ == crate::assistant::prompts::doc_request(content@, doc_type@),
    {
        crate::assistant::prompts::build_doc_prompt(content, doc_type)
    }

    /// Takes a line typed into a conversation: an empty line is skipped,
    /// `exit` leaves, a command after a slash is carried out, and anything
    /// else is recorded as the next question.
    pub fn chat_interactive(&mut self, line: &str) -> (turn: ChatTurn)
        ensures
            chat_input(line@) is Empty ==> turn@ == ChatTurnView::Skip && final(self)@ == old(self)@,
            chat_input(line@) is Exit ==> turn@ == ChatTurnView::Quit && final(self)@ == old(self)@,
            chat_input(line@) matches ChatInputView::Command(command) ==> turn@
                == ChatTurnView::Command(chat_command(words_of(command))) && final(self)@
                == after_command(old(self)@, chat_command(words_of(command))),
            chat_input(line@) matches ChatInputView::Message(message) ==> turn@
                == ChatTurnView::Ask(system_prompt(old(self)@.mode)) && old(self)@.asked(
                message,
                final(self)@,
            ),
    {
        match classify_chat_input(line) {
            ChatInput::Empty => ChatTurn::Skip,
            ChatInput::Exit => ChatTurn::Quit,
            ChatInput::Command(command) => ChatTurn::Command(self.handle_command(command.as_str())),
            ChatInput::Message(message) => {
                let prompt = self.begin_response(message.as_str());
                proof {
                    assert(old(self)@.asked(message@, self@));
                }
                ChatTurn::Ask(prompt)
            },
        }
    }

    /// Begins the review of the changes that `suggestions` stand for. The
    /// user is asked about each.
    pub fn apply_code_suggestions(&self, suggestions: Vec<CodeSuggestion>) -> (batch: ChangeBatch)
        ensures
            batch@ == BatchState::start(suggested_changes(suggestions@), false, true),
    {
        let modifier = FileModifier::new(false);
        let mut changes: Vec<FileChange> = Vec::new();
        let mut i: usize = 0;
        while i < suggestions.len()
            invariant
                i <= suggestions.len(),
                change_views(changes@) == suggested_changes(suggestions@).take(i as int),
            decreases suggestions.len() - i,
        {
            let s = &suggestions[i];
            let change = FileChange {
                path: s.file_path.clone(),
                original_content: s.original_code.clone(),
                new_content: s.suggested_code.clone(),
                description: s.reason.clone(),
            };
            let ghost before = change_views(changes@);
            changes.push(change);
            proof {
                assert(change_views(changes@) =~= before.push(change@));
                assert(suggested_changes(suggestions@).take(i + 1) =~= before.push(change@));
            }
            i += 1;
        }
        proof {
            assert(suggested_changes(suggestions@).take(suggestions.len() as int)
                =~= suggested_changes(suggestions@));
        }
        modifier.apply_changes(changes)
    }

    /// Begins a review with backups; the user is asked about each change.
    /// `exists` says for each change whether its file exists.
    pub fn safe_modify_files(&self, changes: Vec<FileChange>, exists: &Vec<bool>) -> (run: BackupRun)
        ensures
            run.backup_dir@ == ".ricci_backups"@,
            exists|timestamp: Seq<char>|
                copy_views(run.copies@) == #[trigger] backup_copies(
                    change_views(changes@),
                    exists@,
                    ".ricci_backups"@,
                    timestamp,
                ),
            run.batch@ == BatchState::start(change_views(changes@), false, true),
    {
        let safe_modifier = SafeFileModifier::new(false);
        safe_modifier.modify_with_backup(changes, exists)
    }

    /// Begins an exchange: records the question of the user, makes ready for
    /// the answer, and hands back the instruction to send along with the
    /// conversation.
    pub fn begin_response(&mut self, query: &str) -> (prompt: String)
        ensures
            prompt@ == system_prompt(old(self)@.mode),
            exists|timestamp: int|
                final(self)@ == #[trigger] old(self)@.awaiting_answer().with_message("user"@, query@, timestamp),
    {
        let now = now_utc_seconds();
        self.response = String::new();
        self.has_content = false;
        self.receiving = true;
        self.renderer = MarkdownRenderer::new();
        self.add_message_at("user", query, now);
        proof {
            assert(self@ == old(self)@.awaiting_answer().with_message("user"@, query@, now as int));
        }
        self.get_system_prompt()
    }

    /// The request for the next answer: the instruction of the mode in use,
    /// then the conversation so far.
    pub fn next_request(&self) -> (request: ChatRequest)
        ensures
            request@ == self@.client.conversation(system_prompt(self@.mode), self@.messages),
    {
        let prompt = self.get_system_prompt();
        self.client.stream_chat(prompt.as_str(), &self.context.messages)
    }

    /// Takes a fragment of the answer: adds it to the answer and hands back
    /// the segments that it completes.
    pub fn push_chunk(&mut self, text: &str) -> (segments: Vec<Segment>)
        ensures
            segment_views(segments@) == old(self)@.renderer.feed(text@).1,
            final(self)@ == (AssistantState {
                answer: old(self)@.answer + text@,
                answered: true,
                renderer: old(self)@.renderer.feed(text@).0,
                ..old(self)@
            }),
    {
        let mut answer = chars_of(self.response.as_str());
        push_str(&mut answer, text);
        self.response = string_of(&answer);
        self.has_content = true;
        self.renderer.render_chunk(text)
    }

    /// Ends the answer, whether the stream closed or broke: hands back what
    /// the renderer still held and records the answer as said by the
    /// assistant. Where `note_silence` is set and nothing arrived, the notice
    /// of silence is recorded in its place.
    pub fn finish_response(&mut self, note_silence: bool) -> (segments: Vec<Segment>)
        ensures
            segment_views(segments@) == old(self)@.renderer.finish(),
            exists|timestamp: int|
                final(self)@ == #[trigger] old(self)@.at_rest().with_message(
                    "assistant"@,
                    old(self)@.recorded_answer(note_silence),
                    timestamp,
                ),
    {
        let segments = self.renderer.finish();
        let now = now_utc_seconds();
        let mut answer = String::new();
        core::mem::swap(&mut self.response, &mut answer);
        if note_silence && !self.has_content {
            answer = "응답을 받지 못했습니다.".to_owned();
        }
        self.has_content = false;
        self.receiving = false;
        self.add_message_at("assistant", answer.as_str(), now);
        proof {
            assert(self@ == old(self)@.at_rest().with_message(
                "assistant"@,
                old(self)@.recorded_answer(note_silence),
                now as int,
            ));
        }
        segments
    }

    /// Takes what the channel of the answer delivers. A fragment is added to
    /// the answer and rendered. An error or the end of the stream ends the
    /// answer: what the renderer still held is handed out and the answer is
    /// recorded. Once the answer has ended, whatever else arrives is dropped
    /// and changes nothing.
    pub fn stream_response(&mut self, event: StreamEvent, note_silence: bool) -> (step: StreamStep)
        ensures
            !old(self)@.receiving ==> step == StreamStep::Ignored && final(self)@ == old(self)@,
            old(self)@.receiving ==> match event {
                StreamEvent::Fragment(text) => {
                    &&& step matches StreamStep::Rendered(segments)
                    &&& segment_views(segments@) == old(self)@.renderer.feed(text@).1
                    &&& final(self)@ == (AssistantState {
                        answer: old(self)@.answer + text@,
                        answered: true,
                        renderer: old(self)@.renderer.feed(text@).0,
                        ..old(self)@
                    })
                },
                StreamEvent::Failed(error) => {
                    &&& step matches StreamStep::Ended { segments, error: reported }
                    &&& segment_views(segments@) == old(self)@.renderer.finish()
                    &&& reported == Some(error)
                    &&& !final(self)@.receiving
                },
                StreamEvent::Closed => {
                    &&& step matches StreamStep::Ended { segments, error: reported }
                    &&& segment_views(segments@) == old(self)@.renderer.finish()
                    &&& reported is None
                    &&& !final(self)@.receiving
                },
            },
            old(self)@.receiving && !(event is Fragment) ==> exists|timestamp: int|
                final(self)@ == #[trigger] old(self)@.at_rest().with_message(
                    "assistant"@,
                    old(self)@.recorded_answer(note_silence),
                    timestamp,
                ),
    {
        if !self.receiving {
            return StreamStep::Ignored;
        }
        match event {
            StreamEvent::Fragment(text) => StreamStep::Rendered(self.push_chunk(text.as_str())),
            StreamEvent::Failed(error) => {
                let segments = self.finish_response(note_silence);
                StreamStep::Ended { segments, error: Some(error) }
            },
            StreamEvent::Closed => {
                let segments = self.finish_response(note_silence);
                StreamStep::Ended { segments, error: None }
            },
        }
    }

    /// Records that the call to the model failed with `error`. Whatever
    /// answer was under way is dropped.
    pub fn fail_response(&mut self, error: &str)
        ensures
            exists|timestamp: int|
                final(self)@ == #[trigger] old(self)@.at_rest().with_message(
                    "assistant"@,
                    failure_notice(error@),
                    timestamp,
                ),
    {
        let mut notice: Vec<char> = Vec::new();
        push_str(&mut notice, "오류가 발생했습니다: ");
        push_str(&mut notice, error);
        let text = string_of(&notice);
        let now = now_utc_seconds();
        self.response = String::new();
        self.has_content = false;
        self.receiving = false;
        self.renderer = MarkdownRenderer::new();
        self.add_message_at("assistant", text.as_str(), now);
        proof {
            assert(text@ =~= failure_notice(error@));
            assert(self@ == old(self)@.at_rest().with_message(
                "assistant"@,
                failure_notice(error@),
                now as int,
            ));
        }
    }
}

} // verus!
