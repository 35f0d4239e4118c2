//! Configuration of the assistant: which keys are set, which is in use, and
//! how the settings are shown.

pub mod types;
pub mod validators;

use vstd::prelude::*;
use crate::config::types::{key_view, ApiKeySource, Config};
use crate::config::validators::{ConfigError, ConfigErrorView};
use crate::text::{
    chars_of, chars_within, chars_within_end, decimal, decimal_of, prefix_fit, push_all,
    push_str, str_eq, string_of, subvec, suffix_fit,
};

verus! {

/// A key as it is shown: what of it ends within its first six bytes, three
/// dots, and what of it begins within its last four bytes.
pub open spec fn masked(key: Seq<char>) -> Seq<char> {
    key.take(prefix_fit(key, 6) as int) + "..."@ + key.skip(key.len() - suffix_fit(key, 4))
}

/// A key that may be missing, as it is shown.
pub open spec fn masked_or_unset(key: Option<Seq<char>>) -> Seq<char> {
    match key {
        Some(k) => masked(k),
        None => "미설정"@,
    }
}

/// Fifty equal signs.
pub open spec fn rule() -> Seq<char> {
    "=================================================="@
}

/// The part of a report on the model: provider, model, temperature and
/// token budget.
pub open spec fn model_block(config: Config, temperature: Seq<char>) -> Seq<char> {
    "\n모델 설정:\n"@ + "  기본 제공자: "@ + config.model_preferences.default_provider@ + "\n"@
        + "  기본 모델: "@ + config.model_preferences.default_model@ + "\n"@ + "  Temperature: "@
        + temperature + "\n"@ + "  Max Tokens: "@ + decimal(
        config.model_preferences.max_tokens as nat,
    ) + "\n"@
}

/// The part of a report on the keys, masked.
pub open spec fn keys_block(config: Config) -> Seq<char> {
    "  OpenAI: "@ + masked_or_unset(key_view(config.openai_api_key)) + "\n"@ + "  Anthropic: "@
        + masked_or_unset(key_view(config.anthropic_api_key)) + "\n"@ + "  Gemini: "@
        + masked_or_unset(key_view(config.gemini_api_key)) + "\n"@
}

/// The heading of a report on the settings.
pub open spec fn heading() -> Seq<char> {
    "현재 설정:\n"@ + rule() + "\n"@ + "API 키:\n"@
}

/// The settings as shown to the user, keys masked. `temperature` is the
/// temperature kept beside the settings, as text.
pub open spec fn displayed(config: Config, temperature: Seq<char>) -> Seq<char> {
    heading() + keys_block(config) + model_block(config, temperature)
}

/// A line of the status on a key: a mark, the provider, and whether the key
/// is set.
pub open spec fn key_status(provider: Seq<char>, set: bool) -> Seq<char> {
    "  "@ + if set {
        "✓"@
    } else {
        "✗"@
    } + " "@ + provider + ": "@ + if set {
        "설정됨"@
    } else {
        "미설정"@
    } + "\n"@
}

/// On or off.
pub open spec fn on_off(on: bool) -> Seq<char> {
    if on {
        "켜짐"@
    } else {
        "꺼짐"@
    }
}

/// The part of the status on which keys are set.
pub open spec fn keys_status(config: Config) -> Seq<char> {
    key_status("OpenAI"@, config.openai_api_key is Some) + key_status(
        "Anthropic"@,
        config.anthropic_api_key is Some,
    ) + key_status("Gemini"@, config.gemini_api_key is Some)
}

/// The part of the status on how output is shown.
pub open spec fn output_block(config: Config) -> Seq<char> {
    "\n출력 설정:\n"@ + "  구문 강조: "@ + on_off(config.output_preferences.syntax_highlighting)
        + "\n"@ + "  마크다운 렌더링: "@ + on_off(config.output_preferences.markdown_rendering)
        + "\n"@ + "  세션 자동 저장: "@ + on_off(config.output_preferences.auto_save_sessions)
        + "\n"@
}

/// The status of the settings: which keys are set, the model, and how
/// output is shown.
pub open spec fn status(config: Config, temperature: Seq<char>) -> Seq<char> {
    "\n"@ + heading() + keys_status(config) + model_block(config, temperature) + output_block(
        config,
    )
}

/// A key as it is shown.
pub fn mask_api_key(key: &str) -> (shown: String)
    ensures
        shown@ == masked(key@),
{
    let chars = chars_of(key);
    let head = chars_within(&chars, 6);
    let tail = chars_within_end(&chars, 4);
    let mut out = subvec(&chars, 0, head);
    push_str(&mut out, "...");
    let last = subvec(&chars, chars.len() - tail, chars.len());
    push_all(&mut out, &last);
    proof {
        assert(out@ =~= masked(key@));
    }
    string_of(&out)
}

fn push_masked(out: &mut Vec<char>, key: &Option<String>)
    ensures
        final(out)@ == old(out)@ + masked_or_unset(key_view(*key)),
{
    match key {
        Some(k) => {
            let shown = mask_api_key(k.as_str());
            push_str(out, shown.as_str());
        },
        None => {
            push_str(out, "미설정");
        },
    }
}

fn push_key_status(out: &mut Vec<char>, provider: &str, set: bool)
    ensures
        final(out)@ == old(out)@ + key_status(provider@, set),
{
    push_str(out, "  ");
    if set {
        push_str(out, "✓");
    } else {
        push_str(out, "✗");
    }
    push_str(out, " ");
    push_str(out, provider);
    push_str(out, ": ");
    if set {
        push_str(out, "설정됨");
    } else {
        push_str(out, "미설정");
    }
    push_str(out, "\n");
    proof {
        assert(out@ =~= old(out)@ + key_status(provider@, set));
    }
}

fn push_on_off(out: &mut Vec<char>, on: bool)
    ensures
        final(out)@ == old(out)@ + on_off(on),
{
    if on {
        push_str(out, "켜짐");
    } else {
        push_str(out, "꺼짐");
    }
}

fn push_model(out: &mut Vec<char>, config: &Config, temperature: &str)
    ensures
        final(out)@ == old(out)@ + model_block(*config, temperature@),
{
    push_str(out, "\n모델 설정:\n");
    push_str(out, "  기본 제공자: ");
    push_str(out, config.model_preferences.default_provider.as_str());
    push_str(out, "\n");
    push_str(out, "  기본 모델: ");
    push_str(out, config.model_preferences.default_model.as_str());
    push_str(out, "\n");
    push_str(out, "  Temperature: ");
    push_str(out, temperature);
    push_str(out, "\n");
    push_str(out, "  Max Tokens: ");
    let tokens = decimal_of(config.model_preferences.max_tokens as u64);
    push_all(out, &tokens);
    push_str(out, "\n");
    proof {
        assert(out@ =~= old(out)@ + model_block(*config, temperature@));
    }
}

fn push_heading(out: &mut Vec<char>)
    ensures
        final(out)@ == old(out)@ + heading(),
{
    push_str(out, "현재 설정:\n");
    push_str(out, "==================================================");
    push_str(out, "\n");
    push_str(out, "API 키:\n");
    proof {
        assert(out@ =~= old(out)@ + heading());
    }
}

fn push_keys(out: &mut Vec<char>, config: &Config)
    ensures
        final(out)@ == old(out)@ + keys_block(*config),
{
    push_str(out, "  OpenAI: ");
    push_masked(out, &config.openai_api_key);
    push_str(out, "\n");
    push_str(out, "  Anthropic: ");
    push_masked(out, &config.anthropic_api_key);
    push_str(out, "\n");
    push_str(out, "  Gemini: ");
    push_masked(out, &config.gemini_api_key);
    push_str(out, "\n");
    proof {
        assert(out@ =~= old(out)@ + keys_block(*config));
    }
}

fn push_keys_status(out: &mut Vec<char>, config: &Config)
    ensures
        final(out)@ == old(out)@ + keys_status(*config),
{
    push_key_status(out, "OpenAI", config.openai_api_key.is_some());
    push_key_status(out, "Anthropic", config.anthropic_api_key.is_some());
    push_key_status(out, "Gemini", config.gemini_api_key.is_some());
    proof {
        assert(out@ =~= old(out)@ + keys_status(*config));
    }
}

fn push_output(out: &mut Vec<char>, config: &Config)
    ensures
        final(out)@ == old(out)@ + output_block(*config),
{
    push_str(out, "\n출력 설정:\n");
    push_str(out, "  구문 강조: ");
    push_on_off(out, config.output_preferences.syntax_highlighting);
    push_str(out, "\n");
    push_str(out, "  마크다운 렌더링: ");
    push_on_off(out, config.output_preferences.markdown_rendering);
    push_str(out, "\n");
    push_str(out, "  세션 자동 저장: ");
    push_on_off(out, config.output_preferences.auto_save_sessions);
    push_str(out, "\n");
    proof {
        assert(out@ =~= old(out)@ + output_block(*config));
    }
}

/// The settings when there is no configuration file: the defaults, with
/// the keys that the environment holds.
pub fn load_config(
    session_dir: String,
    openai: Option<String>,
    anthropic: Option<String>,
    gemini: Option<String>,
) -> (config: Config)
    ensures
        config.openai_api_key == openai,
        config.anthropic_api_key == anthropic,
        config.gemini_api_key == gemini,
        config.api_key_source == ApiKeySource::Environment,
        config.model_preferences.default_provider@ == "openai"@,
        config.model_preferences.default_model@ == "gpt-4"@,
        config.model_preferences.max_tokens == 2048,
        config.output_preferences.syntax_highlighting,
        config.output_preferences.markdown_rendering,
        config.output_preferences.auto_save_sessions,
        config.output_preferences.session_dir == session_dir,
{
    let mut config = Config::with_session_dir(session_dir);
    config.openai_api_key = openai;
    config.anthropic_api_key = anthropic;
    config.gemini_api_key = gemini;
    config
}

impl Config {
    /// Sets the key of a provider and notes that keys now come from the
    /// configuration file. An unknown provider is refused and nothing
    /// changes.
    pub fn update_api_key(&mut self, provider: &str, key: String) -> (result: Result<
        (),
        ConfigError,
    >)
        ensures
            if provider@ == "openai"@ {
                result is Ok && *final(self) == (Config {
                    openai_api_key: Some(key),
                    api_key_source: ApiKeySource::ConfigFile,
                    ..*old(self)
                })
            } else if provider@ == "anthropic"@ {
                result is Ok && *final(self) == (Config {
                    anthropic_api_key: Some(key),
                    api_key_source: ApiKeySource::ConfigFile,
                    ..*old(self)
                })
            } else if provider@ == "gemini"@ {
                result is Ok && *final(self) == (Config {
                    gemini_api_key: Some(key),
                    api_key_source: ApiKeySource::ConfigFile,
                    ..*old(self)
                })
            } else {
                (result matches Err(e) && e@ == ConfigErrorView::UnknownProvider(provider@))
                    && *final(self) == *old(self)
            },
    {
        if str_eq(provider, "openai") {
            self.openai_api_key = Some(key);
        } else if str_eq(provider, "anthropic") {
            self.anthropic_api_key = Some(key);
        } else if str_eq(provider, "gemini") {
            self.gemini_api_key = Some(key);
        } else {
            return Err(ConfigError::UnknownProvider(provider.to_owned()));
        }
        self.api_key_source = ApiKeySource::ConfigFile;
        Ok(())
    }

    /// The key of the provider in use: the key if the provider is known and
    /// its key is set, else the error that says what is missing.
    pub fn get_active_api_key(&self) -> (result: Result<&str, ConfigError>)
        ensures
            match result {
                Ok(key) => crate::config::validators::key_of(
                    *self,
                    self.model_preferences.default_provider@,
                ) == Some(key@),
                Err(e) => e@ == crate::config::validators::missing_key(
                    self.model_preferences.default_provider@,
                ) && crate::config::validators::key_of(
                    *self,
                    self.model_preferences.default_provider@,
                ) is None,
            },
    {
        let provider = self.model_preferences.default_provider.as_str();
        if str_eq(provider, "openai") {
            match &self.openai_api_key {
                Some(key) => Ok(key.as_str()),
                None => Err(ConfigError::MissingOpenAiKey),
            }
        } else if str_eq(provider, "anthropic") {
            match &self.anthropic_api_key {
                Some(key) => Ok(key.as_str()),
                None => Err(ConfigError::MissingAnthropicKey),
            }
        } else if str_eq(provider, "gemini") {
            match &self.gemini_api_key {
                Some(key) => Ok(key.as_str()),
                None => Err(ConfigError::MissingGeminiKey),
            }
        } else {
            Err(ConfigError::UnknownProvider(provider.to_owned()))
        }
    }

    /// The settings as shown to the user, keys masked.
    pub fn display(&self, temperature: &str) -> (text: String)
        ensures
            text@ == displayed(*self, temperature@),
    {
        let mut out: Vec<char> = Vec::new();
        push_heading(&mut out);
        push_keys(&mut out, self);
        push_model(&mut out, self, temperature);
        proof {
            assert(out@ =~= displayed(*self, temperature@));
        }
        string_of(&out)
    }

    /// The status of the settings, ready to be printed.
    pub fn print_status(&self, temperature: &str) -> (text: String)
        ensures
            text@ == status(*self, temperature@),
    {
        let mut out: Vec<char> = Vec::new();
        push_str(&mut out, "\n");
        push_heading(&mut out);
        push_keys_status(&mut out, self);
        push_model(&mut out, self, temperature);
        push_output(&mut out, self);
        proof {
            assert(out@ =~= status(*self, temperature@));
        }
        string_of(&out)
    }
}

} // verus!
