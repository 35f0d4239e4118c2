use ricci_cli::api::{first_content, ChatMessage, ChatRole, OpenAIClient};
use ricci_cli::assistant::types::Message;
use ricci_cli::config::{load_config, mask_api_key};
use ricci_cli::config::types::{ApiKeySource, Config, ModelPreferences, OutputPreferences};
use ricci_cli::config::validators::{get_api_key, validate_config, ConfigError};

fn config() -> Config {
    Config::with_session_dir("/tmp/ricci".to_string())
}

#[test]
fn default_settings() {
    let c = config();
    assert!(c.openai_api_key.is_none() && c.anthropic_api_key.is_none() && c.gemini_api_key.is_none());
    assert_eq!(c.api_key_source, ApiKeySource::Environment);
    assert_eq!(c.model_preferences.default_provider, "openai");
    assert_eq!(c.model_preferences.default_model, "gpt-4");
    assert_eq!(c.model_preferences.max_tokens, 2048);
    assert!(c.output_preferences.syntax_highlighting);
    assert!(c.output_preferences.markdown_rendering);
    assert!(c.output_preferences.auto_save_sessions);
    assert_eq!(c.output_preferences.session_dir, "/tmp/ricci");
    let m = ModelPreferences::default();
    assert_eq!((m.default_provider.as_str(), m.default_model.as_str(), m.max_tokens), ("openai", "gpt-4", 2048));
    let o = OutputPreferences::with_session_dir("d".to_string());
    assert_eq!(o.session_dir, "d");
}

#[test]
fn environment_keys_are_taken() {
    let c = load_config("d".to_string(), Some("sk-1".to_string()), None, Some("g".to_string()));
    assert_eq!(c.openai_api_key.as_deref(), Some("sk-1"));
    assert_eq!(c.anthropic_api_key, None);
    assert_eq!(c.gemini_api_key.as_deref(), Some("g"));
    assert_eq!(c.api_key_source, ApiKeySource::Environment);
}

#[test]
fn validation_reports_the_first_fault() {
    let mut c = config();
    assert_eq!(validate_config(&c, true), Err(ConfigError::NoApiKey));
    assert_eq!(validate_config(&c, false), Err(ConfigError::NoApiKey));
    c.gemini_api_key = Some("k".to_string());
    assert_eq!(validate_config(&c, true), Ok(()));
    assert_eq!(validate_config(&c, false), Err(ConfigError::TemperatureOutOfRange));
    c.model_preferences.max_tokens = 0;
    assert_eq!(validate_config(&c, false), Err(ConfigError::TemperatureOutOfRange));
    assert_eq!(validate_config(&c, true), Err(ConfigError::ZeroMaxTokens));
}

#[test]
fn error_messages() {
    assert_eq!(
        ConfigError::NoApiKey.message(),
        "최소 하나의 API 키가 필요합니다.\n환경 변수 설정: OPENAI_API_KEY, ANTHROPIC_API_KEY, GEMINI_API_KEY"
    );
    assert_eq!(ConfigError::TemperatureOutOfRange.message(), "temperature는 0.0에서 2.0 사이여야 합니다");
    assert_eq!(ConfigError::ZeroMaxTokens.message(), "max_tokens는 0보다 커야 합니다");
    assert_eq!(ConfigError::UnknownProvider("x".to_string()).message(), "알 수 없는 제공자: x");
    assert_eq!(ConfigError::MissingOpenAiKey.message(), "OpenAI API 키가 설정되지 않았습니다");
    assert_eq!(ConfigError::MissingAnthropicKey.message(), "Anthropic API 키가 설정되지 않았습니다");
    assert_eq!(ConfigError::MissingGeminiKey.message(), "Gemini API 키가 설정되지 않았습니다");
}

#[test]
fn keys_by_provider() {
    let mut c = config();
    c.openai_api_key = Some("o".to_string());
    c.anthropic_api_key = Some("a".to_string());
    assert_eq!(get_api_key(&c, "openai").as_deref(), Some("o"));
    assert_eq!(get_api_key(&c, "anthropic").as_deref(), Some("a"));
    assert_eq!(get_api_key(&c, "gemini"), None);
    assert_eq!(get_api_key(&c, "other"), None);
}

#[test]
fn update_api_key_sets_key_and_source() {
    let mut c = config();
    assert_eq!(c.update_api_key("anthropic", "a-key".to_string()), Ok(()));
    assert_eq!(c.anthropic_api_key.as_deref(), Some("a-key"));
    assert_eq!(c.api_key_source, ApiKeySource::ConfigFile);
    assert_eq!(c.update_api_key("openai", "o".to_string()), Ok(()));
    assert_eq!(c.update_api_key("gemini", "g".to_string()), Ok(()));
    assert_eq!((c.openai_api_key.as_deref(), c.gemini_api_key.as_deref()), (Some("o"), Some("g")));
    let mut d = config();
    assert_eq!(
        d.update_api_key("mistral", "k".to_string()),
        Err(ConfigError::UnknownProvider("mistral".to_string()))
    );
    assert_eq!(d.api_key_source, ApiKeySource::Environment);
    assert!(d.openai_api_key.is_none());
}

#[test]
fn active_key_follows_the_provider() {
    let mut c = config();
    assert_eq!(c.get_active_api_key(), Err(ConfigError::MissingOpenAiKey));
    c.openai_api_key = Some("sk".to_string());
    assert_eq!(c.get_active_api_key(), Ok("sk"));
    c.model_preferences.default_provider = "anthropic".to_string();
    assert_eq!(c.get_active_api_key(), Err(ConfigError::MissingAnthropicKey));
    c.model_preferences.default_provider = "gemini".to_string();
    assert_eq!(c.get_active_api_key(), Err(ConfigError::MissingGeminiKey));
    c.gemini_api_key = Some("g".to_string());
    assert_eq!(c.get_active_api_key(), Ok("g"));
    c.model_preferences.default_provider = "llama".to_string();
    assert_eq!(c.get_active_api_key(), Err(ConfigError::UnknownProvider("llama".to_string())));
}

#[test]
fn keys_are_masked() {
    assert_eq!(mask_api_key("sk-abcdefghijklmnop"), "sk-abc...mnop");
    assert_eq!(mask_api_key("abcdef"), "abcdef...cdef");
    assert_eq!(mask_api_key("abc"), "abc...abc");
    assert_eq!(mask_api_key(""), "...");
    // two-byte characters: three of them fill six bytes, two fill four
    assert_eq!(mask_api_key("ééééé"), "ééé...éé");
    // a three-byte character does not fit into what is left of six bytes
    assert_eq!(mask_api_key("abcde가나z"), "abcde...나z");
    assert_eq!(mask_api_key("abcde가나zz"), "abcde...zz");
}

#[test]
fn display_masks_keys() {
    let mut c = config();
    c.openai_api_key = Some("sk-abcdefghijklmnop".to_string());
    let expected = "현재 설정:\n==================================================\nAPI 키:\n  OpenAI: sk-abc...mnop\n  Anthropic: 미설정\n  Gemini: 미설정\n\n모델 설정:\n  기본 제공자: openai\n  기본 모델: gpt-4\n  Temperature: 0.7\n  Max Tokens: 2048\n";
    assert_eq!(c.display("0.7"), expected);
}

#[test]
fn status_lists_everything() {
    let mut c = config();
    c.gemini_api_key = Some("g".to_string());
    c.output_preferences.markdown_rendering = false;
    let expected = "\n현재 설정:\n==================================================\nAPI 키:\n  ✗ OpenAI: 미설정\n  ✗ Anthropic: 미설정\n  ✓ Gemini: 설정됨\n\n모델 설정:\n  기본 제공자: openai\n  기본 모델: gpt-4\n  Temperature: 1.5\n  Max Tokens: 2048\n\n출력 설정:\n  구문 강조: 켜짐\n  마크다운 렌더링: 꺼짐\n  세션 자동 저장: 켜짐\n";
    assert_eq!(c.print_status("1.5"), expected);
}

fn msg(role: &str, content: &str) -> Message {
    Message { role: role.to_string(), content: content.to_string(), timestamp: 0 }
}

#[test]
fn client_needs_the_active_key() {
    let mut c = config();
    assert!(matches!(OpenAIClient::new(&c), Err(ConfigError::MissingOpenAiKey)));
    c.openai_api_key = Some("sk".to_string());
    let client = OpenAIClient::new(&c).unwrap();
    assert_eq!(client.api_key(), "sk");
    let request = client.query("hello");
    assert_eq!(request.model, "gpt-4");
    assert_eq!(request.max_tokens, 2048);
    assert!(!request.stream);
    assert_eq!(
        request.messages,
        vec![
            ChatMessage { role: ChatRole::System, content: "You are a helpful development assistant.".to_string() },
            ChatMessage { role: ChatRole::User, content: "hello".to_string() },
        ]
    );
}

#[test]
fn stream_request_keeps_user_and_assistant_turns() {
    let mut c = config();
    c.openai_api_key = Some("sk".to_string());
    let client = OpenAIClient::new(&c).unwrap();
    let history = vec![msg("user", "a"), msg("system", "ignored"), msg("assistant", "b"), msg("tool", "x"), msg("user", "c")];
    let request = client.stream_chat("be brief", &history);
    assert!(request.stream);
    assert_eq!(
        request.messages,
        vec![
            ChatMessage { role: ChatRole::System, content: "be brief".to_string() },
            ChatMessage { role: ChatRole::User, content: "a".to_string() },
            ChatMessage { role: ChatRole::Assistant, content: "b".to_string() },
            ChatMessage { role: ChatRole::User, content: "c".to_string() },
        ]
    );
    assert_eq!(client.stream_chat("s", &vec![]).messages.len(), 1);
}

#[test]
fn content_of_the_first_choice() {
    assert_eq!(first_content(&vec![]), None);
    assert_eq!(first_content(&vec![None, Some("b".to_string())]), None);
    assert_eq!(first_content(&vec![Some("a".to_string()), None]), Some("a".to_string()));
}
