//! The settings of the assistant.

use vstd::prelude::*;

verus! {

/// The settings of the assistant. The sampling temperature, a fraction, is
/// kept beside these by whoever reads the configuration file.
#[derive(Debug, Clone)]
pub struct Config {
    pub openai_api_key: Option<String>,
    pub anthropic_api_key: Option<String>,
    pub gemini_api_key: Option<String>,
    pub api_key_source: ApiKeySource,
    pub model_preferences: ModelPreferences,
    pub output_preferences: OutputPreferences,
}

/// Where the API key in use came from.
#[derive(Debug, Clone, PartialEq, Eq)]
pub enum ApiKeySource {
    Environment,
    ConfigFile,
    RestApi { url: String },
}

/// Which model is asked, and for how much.
#[derive(Debug, Clone)]
pub struct ModelPreferences {
    pub default_provider: String,
    pub default_model: String,
    pub max_tokens: u16,
}

/// How answers are shown and kept.
#[derive(Debug, Clone)]
pub struct OutputPreferences {
    pub syntax_highlighting: bool,
    pub markdown_rendering: bool,
    pub auto_save_sessions: bool,
    /// The directory where sessions are kept, as a path in text form.
    pub session_dir: String,
}

/// An API key that may be missing, as plain text.
pub open spec fn key_view(key: Option<String>) -> Option<Seq<char>> {
    match key {
        Some(k) => Some(k@),
        None => None,
    }
}

impl Default for ModelPreferences {
    fn default() -> (preferences: Self)
        ensures
            preferences.default_provider@ == "openai"@,
            preferences.default_model@ == "gpt-4"@,
            preferences.max_tokens == 2048,
    {
        ModelPreferences {
            default_provider: "openai".to_owned(),
            default_model: "gpt-4".to_owned(),
            max_tokens: 2048,
        }
    }
}

impl OutputPreferences {
    /// Everything switched on, with sessions kept in `session_dir`.
    pub fn with_session_dir(session_dir: String) -> (preferences: Self)
        ensures
            preferences.syntax_highlighting,
            preferences.markdown_rendering,
            preferences.auto_save_sessions,
            preferences.session_dir == session_dir,
    {
        OutputPreferences {
            syntax_highlighting: true,
            markdown_rendering: true,
            auto_save_sessions: true,
            session_dir,
        }
    }
}

impl Config {
    /// The settings to start from: no key, the default model, everything
    /// switched on, sessions kept in `session_dir`.
    pub fn with_session_dir(session_dir: String) -> (config: Self)
        ensures
            config.openai_api_key is None,
            config.anthropic_api_key is None,
            config.gemini_api_key is None,
            config.api_key_source == ApiKeySource::Environment,
            config.model_preferences.default_provider@ == "openai"@,
            config.model_preferences.default_model@ == "gpt-4"@,
            config.model_preferences.max_tokens == 2048,
            config.output_preferences.syntax_highlighting,
            config.output_preferences.markdown_rendering,
            config.output_preferences.auto_save_sessions,
            config.output_preferences.session_dir == session_dir,
    {
        Config {
            openai_api_key: None,
            anthropic_api_key: None,
            gemini_api_key: None,
            api_key_source: ApiKeySource::Environment,
            model_preferences: ModelPreferences::default(),
            output_preferences: OutputPreferences::with_session_dir(session_dir),
        }
    }
}

} // verus!
