//! Checks on the settings.

use vstd::prelude::*;
use crate::config::types::{key_view, Config};
use crate::text::{push_str, str_eq, string_of};

verus! {

/// Why settings are refused or a key cannot be had.
#[derive(Debug, Clone, PartialEq, Eq)]
pub enum ConfigError {
    /// No API key at all is set.
    NoApiKey,
    /// The temperature is below zero or above two.
    TemperatureOutOfRange,
    /// The token budget is zero.
    ZeroMaxTokens,
    /// The provider is none of `openai`, `anthropic`, `gemini`.
    UnknownProvider(String),
    /// The key of OpenAI is asked for and not set.
    MissingOpenAiKey,
    /// The key of Anthropic is asked for and not set.
    MissingAnthropicKey,
    /// The key of Gemini is asked for and not set.
    MissingGeminiKey,
}

/// An error as plain text.
pub enum ConfigErrorView {
    NoApiKey,
    TemperatureOutOfRange,
    ZeroMaxTokens,
    UnknownProvider(Seq<char>),
    MissingOpenAiKey,
    MissingAnthropicKey,
    MissingGeminiKey,
}

impl View for ConfigError {
    type V = ConfigErrorView;

    open spec fn view(&self) -> ConfigErrorView {
        match self {
            ConfigError::NoApiKey => ConfigErrorView::NoApiKey,
            ConfigError::TemperatureOutOfRange => ConfigErrorView::TemperatureOutOfRange,
            ConfigError::ZeroMaxTokens => ConfigErrorView::ZeroMaxTokens,
            ConfigError::UnknownProvider(p) => ConfigErrorView::UnknownProvider(p@),
            ConfigError::MissingOpenAiKey => ConfigErrorView::MissingOpenAiKey,
            ConfigError::MissingAnthropicKey => ConfigErrorView::MissingAnthropicKey,
            ConfigError::MissingGeminiKey => ConfigErrorView::MissingGeminiKey,
        }
    }
}

/// What an error says to the user.
pub open spec fn error_message(error: ConfigErrorView) -> Seq<char> {
    match error {
        ConfigErrorView::NoApiKey => "최소 하나의 API 키가 필요합니다.\n환경 변수 설정: OPENAI_API_KEY, ANTHROPIC_API_KEY, GEMINI_API_KEY"@,
        ConfigErrorView::TemperatureOutOfRange => "temperature는 0.0에서 2.0 사이여야 합니다"@,
        ConfigErrorView::ZeroMaxTokens => "max_tokens는 0보다 커야 합니다"@,
        ConfigErrorView::UnknownProvider(provider) => "알 수 없는 제공자: "@ + provider,
        ConfigErrorView::MissingOpenAiKey => "OpenAI API 키가 설정되지 않았습니다"@,
        ConfigErrorView::MissingAnthropicKey => "Anthropic API 키가 설정되지 않았습니다"@,
        ConfigErrorView::MissingGeminiKey => "Gemini API 키가 설정되지 않았습니다"@,
    }
}

impl ConfigError {
    /// What the error says to the user.
    pub fn message(&self) -> (text: String)
        ensures
            text@ == error_message(self@),
    {
        match self {
            ConfigError::NoApiKey => "최소 하나의 API 키가 필요합니다.\n환경 변수 설정: OPENAI_API_KEY, ANTHROPIC_API_KEY, GEMINI_API_KEY".to_owned(),
            ConfigError::TemperatureOutOfRange => "temperature는 0.0에서 2.0 사이여야 합니다".to_owned(),
            ConfigError::ZeroMaxTokens => "max_tokens는 0보다 커야 합니다".to_owned(),
            ConfigError::UnknownProvider(provider) => {
                let mut out: Vec<char> = Vec::new();
                push_str(&mut out, "알 수 없는 제공자: ");
                push_str(&mut out, provider.as_str());
                proof {
                    assert(out@ =~= "알 수 없는 제공자: "@ + provider@);
                }
                string_of(&out)
            },
            ConfigError::MissingOpenAiKey => "OpenAI API 키가 설정되지 않았습니다".to_owned(),
            ConfigError::MissingAnthropicKey => "Anthropic API 키가 설정되지 않았습니다".to_owned(),
            ConfigError::MissingGeminiKey => "Gemini API 키가 설정되지 않았습니다".to_owned(),
        }
    }
}

/// What is wrong with settings, if anything: no key at all, then a
/// temperature out of range, then a token budget of zero.
pub open spec fn first_fault(
    has_key: bool,
    temperature_in_range: bool,
    max_tokens: int,
) -> Option<ConfigErrorView> {
    if !has_key {
        Some(ConfigErrorView::NoApiKey)
    } else if !temperature_in_range {
        Some(ConfigErrorView::TemperatureOutOfRange)
    } else if max_tokens == 0 {
        Some(ConfigErrorView::ZeroMaxTokens)
    } else {
        None
    }
}

/// Checks settings. `temperature_in_range` says whether the temperature
/// kept beside them lies between zero and two.
pub fn validate_config(config: &Config, temperature_in_range: bool) -> (result: Result<
    (),
    ConfigError,
>)
    ensures
        match first_fault(
            config.openai_api_key is Some || config.anthropic_api_key is Some
                || config.gemini_api_key is Some,
            temperature_in_range,
            config.model_preferences.max_tokens as int,
        ) {
            Some(fault) => result matches Err(e) && e@ == fault,
            None => result is Ok,
        },
{
    let has_any_key = config.openai_api_key.is_some() || config.anthropic_api_key.is_some()
        || config.gemini_api_key.is_some();
    if !has_any_key {
        return Err(ConfigError::NoApiKey);
    }
    if !temperature_in_range {
        return Err(ConfigError::TemperatureOutOfRange);
    }
    if config.model_preferences.max_tokens == 0 {
        return Err(ConfigError::ZeroMaxTokens);
    }
    Ok(())
}

/// The key that the settings hold for a provider.
pub open spec fn key_of(config: Config, provider: Seq<char>) -> Option<Seq<char>> {
    if provider == "openai"@ {
        key_view(config.openai_api_key)
    } else if provider == "anthropic"@ {
        key_view(config.anthropic_api_key)
    } else if provider == "gemini"@ {
        key_view(config.gemini_api_key)
    } else {
        None
    }
}

/// What is missing when there is no key for a provider: the key of the
/// provider if it is known, the provider itself if it is not.
pub open spec fn missing_key(provider: Seq<char>) -> ConfigErrorView {
    if provider == "openai"@ {
        ConfigErrorView::MissingOpenAiKey
    } else if provider == "anthropic"@ {
        ConfigErrorView::MissingAnthropicKey
    } else if provider == "gemini"@ {
        ConfigErrorView::MissingGeminiKey
    } else {
        ConfigErrorView::UnknownProvider(provider)
    }
}

/// The key that the settings hold for `provider`, if it is a known provider
/// and its key is set.
pub fn get_api_key(config: &Config, provider: &str) -> (key: Option<String>)
    ensures
        key_view(key) == key_of(*config, provider@),
{
    if str_eq(provider, "openai") {
        config.openai_api_key.clone()
    } else if str_eq(provider, "anthropic") {
        config.anthropic_api_key.clone()
    } else if str_eq(provider, "gemini") {
        config.gemini_api_key.clone()
    } else {
        None
    }
}

} // verus!
