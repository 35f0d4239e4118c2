//! What is sent to the model. Sending it, and receiving the answer, is the
//! caller's part.

use vstd::prelude::*;
use crate::assistant::types::{message_views, Message, MessageView};
use crate::config::types::Config;
use crate::config::validators::{key_of, missing_key, ConfigError};
use crate::text::str_eq;

verus! {

/// Who a message of a request speaks for.
#[derive(Debug, Clone, Copy, PartialEq, Eq, Structural)]
pub enum ChatRole {
    System,
    User,
    Assistant,
}

/// One message of a request.
#[derive(Debug, Clone, PartialEq, Eq)]
pub struct ChatMessage {
    pub role: ChatRole,
    pub content: String,
}

/// A message of a request as plain text.
pub struct ChatMessageView {
    pub role: ChatRole,
    pub content: Seq<char>,
}

impl View for ChatMessage {
    type V = ChatMessageView;

    open spec fn view(&self) -> ChatMessageView {
        ChatMessageView { role: self.role, content: self.content@ }
    }
}

/// The messages of `messages` as plain text.
pub open spec fn chat_views(messages: Seq<ChatMessage>) -> Seq<ChatMessageView> {
    messages.map_values(|m: ChatMessage| m@)
}

/// A request to the model.
#[derive(Debug, Clone, PartialEq, Eq)]
pub struct ChatRequest {
    pub model: String,
    pub messages: Vec<ChatMessage>,
    pub max_tokens: u16,
    /// Whether the answer is to arrive in fragments.
    pub stream: bool,
}

/// A request to the model as plain values.
pub struct ChatRequestView {
    pub model: Seq<char>,
    pub messages: Seq<ChatMessageView>,
    pub max_tokens: int,
    pub stream: bool,
}

impl View for ChatRequest {
    type V = ChatRequestView;

    open spec fn view(&self) -> ChatRequestView {
        ChatRequestView {
            model: self.model@,
            messages: chat_views(self.messages@),
            max_tokens: self.max_tokens as int,
            stream: self.stream,
        }
    }
}

/// The first `n` messages of a conversation as messages of a request: those
/// of the user and of the assistant, in order; any other is left out.
pub open spec fn history(messages: Seq<MessageView>, n: int) -> Seq<ChatMessageView>
    decreases n,
{
    if n <= 0 {
        Seq::empty()
    } else {
        let earlier = history(messages, n - 1);
        let m = messages[n - 1];
        if m.role == "user"@ {
            earlier.push(ChatMessageView { role: ChatRole::User, content: m.content })
        } else if m.role == "assistant"@ {
            earlier.push(ChatMessageView { role: ChatRole::Assistant, content: m.content })
        } else {
            earlier
        }
    }
}

/// The instruction that a single question is sent with.
pub open spec fn default_instruction() -> Seq<char> {
    "You are a helpful development assistant."@
}

/// What is needed to ask the model.
pub struct OpenAIClient {
    api_key: String,
    model: String,
    max_tokens: u16,
}

impl OpenAIClient {
    /// The key that requests are made with.
    pub closed spec fn key(&self) -> Seq<char> {
        self.api_key@
    }

    /// The model that is asked.
    pub closed spec fn model(&self) -> Seq<char> {
        self.model@
    }

    /// The token budget of an answer.
    pub closed spec fn max_tokens(&self) -> int {
        self.max_tokens as int
    }

    /// Whether this is the client that `config` asks for: it holds the key
    /// of the provider in use, and the model and the token budget of the
    /// preferences.
    pub open spec fn serves(&self, config: Config) -> bool {
        &&& key_of(config, config.model_preferences.default_provider@) == Some(self.key())
        &&& self.model() == config.model_preferences.default_model@
        &&& self.max_tokens() == config.model_preferences.max_tokens
    }

    /// The request for a single question: the default instruction, then the
    /// question; the answer is to arrive whole.
    pub open spec fn question(&self, prompt: Seq<char>) -> ChatRequestView {
        ChatRequestView {
            model: self.model(),
            messages: seq![
                ChatMessageView { role: ChatRole::System, content: default_instruction() },
                ChatMessageView { role: ChatRole::User, content: prompt },
            ],
            max_tokens: self.max_tokens(),
            stream: false,
        }
    }

    /// The request for the next answer of a conversation: the instruction,
    /// then what the user and the assistant said so far; the answer is to
    /// arrive in fragments.
    pub open spec fn conversation(
        &self,
        system_prompt: Seq<char>,
        messages: Seq<MessageView>,
    ) -> ChatRequestView {
        ChatRequestView {
            model: self.model(),
            messages: seq![ChatMessageView { role: ChatRole::System, content: system_prompt }]
                + history(messages, messages.len() as int),
            max_tokens: self.max_tokens(),
            stream: true,
        }
    }

    /// A client for the provider in use, or the error that says which key is
    /// missing.
    pub fn new(config: &Config) -> (result: Result<Self, ConfigError>)
        ensures
            match result {
                Ok(client) => client.serves(*config),
                Err(e) => key_of(*config, config.model_preferences.default_provider@) is None
                    && e@ == missing_key(config.model_preferences.default_provider@),
            },
    {
        match config.get_active_api_key() {
            Ok(key) => Ok(
                OpenAIClient {
                    api_key: key.to_owned(),
                    model: config.model_preferences.default_model.clone(),
                    max_tokens: config.model_preferences.max_tokens,
                },
            ),
            Err(e) => Err(e),
        }
    }

    /// The key that requests are made with.
    pub fn api_key(&self) -> (key: &str)
        ensures
            key@ == self.key(),
    {
        self.api_key.as_str()
    }

    /// The request for a single question.
    pub fn query(&self, prompt: &str) -> (request: ChatRequest)
        ensures
            request@ == self.question(prompt@),
    {
        let mut messages: Vec<ChatMessage> = Vec::new();
        messages.push(
            ChatMessage {
                role: ChatRole::System,
                content: "You are a helpful development assistant.".to_owned(),
            },
        );
        messages.push(ChatMessage { role: ChatRole::User, content: prompt.to_owned() });
        proof {
            assert(chat_views(messages@) =~= seq![
                ChatMessageView { role: ChatRole::System, content: default_instruction() },
                ChatMessageView { role: ChatRole::User, content: prompt@ },
            ]);
        }
        ChatRequest {
            model: self.model.clone(),
            messages,
            max_tokens: self.max_tokens,
            stream: false,
        }
    }

    /// The request for the next answer of a conversation.
    pub fn stream_chat(&self, system_prompt: &str, messages: &Vec<Message>) -> (request:
        ChatRequest)
        ensures
            request@ == self.conversation(system_prompt@, message_views(messages@)),
    {
        let mut out: Vec<ChatMessage> = Vec::new();
        let first = ChatMessage { role: ChatRole::System, content: system_prompt.to_owned() };
        out.push(first);
        let ghost head = seq![first@];
        let mut i: usize = 0;
        proof {
            assert(chat_views(out@) =~= head + history(message_views(messages@), 0));
        }
        while i < messages.len()
            invariant
                i <= messages.len(),
                chat_views(out@) == head + history(message_views(messages@), i as int),
            decreases messages.len() - i,
        {
            let m = &messages[i];
            let ghost before = chat_views(out@);
            if str_eq(m.role.as_str(), "user") {
                let message = ChatMessage { role: ChatRole::User, content: m.content.clone() };
                out.push(message);
                proof {
                    assert(chat_views(out@) =~= before.push(message@));
                    assert(before.push(message@) =~= head + history(
                        message_views(messages@),
                        i + 1,
                    ));
                }
            } else if str_eq(m.role.as_str(), "assistant") {
                let message = ChatMessage {
                    role: ChatRole::Assistant,
                    content: m.content.clone(),
                };
                out.push(message);
                proof {
                    assert(chat_views(out@) =~= before.push(message@));
                    assert(before.push(message@) =~= head + history(
                        message_views(messages@),
                        i + 1,
                    ));
                }
            }
            i += 1;
        }
        ChatRequest { model: self.model.clone(), messages: out, max_tokens: self.max_tokens, stream: true }
    }
}

/// The text of an answer: the content of its first choice, if the answer
/// has a choice and that choice has content.
pub fn first_content(choices: &Vec<Option<String>>) -> (content: Option<String>)
    ensures
        content == if choices@.len() > 0 {
            choices@[0]
        } else {
            None
        },
{
    if choices.len() > 0 {
        choices[0].clone()
    } else {
        None
    }
}

} // verus!
