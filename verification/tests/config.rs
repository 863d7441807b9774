use merco_llmproxy::adapter::{get_provider, LlmAdapter};
use merco_llmproxy::config::{ConfigError, LlmConfig, Provider, APP_SITE_NAME, APP_SITE_URL};
use merco_llmproxy::traits::ProviderError;

#[test]
fn a_new_config_has_no_key_and_no_address() {
    let config = LlmConfig::new(Provider::Ollama);
    assert_eq!(config.provider, Provider::Ollama);
    assert_eq!(config.api_key, None);
    assert_eq!(config.base_url, None);
}

#[test]
fn builders_set_their_field_only() {
    let config = LlmConfig::new(Provider::OpenAI).with_api_key("test-key".to_string());
    assert_eq!(config.api_key, Some("test-key".to_string()));
    assert_eq!(config.base_url, None);
    let config = config.with_base_url("https://example.test/v1".to_string());
    assert_eq!(config.api_key, Some("test-key".to_string()));
    assert_eq!(config.base_url, Some("https://example.test/v1".to_string()));
    assert_eq!(config.provider, Provider::OpenAI);
}

#[test]
fn a_copy_of_a_config_holds_the_same() {
    let config = LlmConfig::new(Provider::Custom).with_base_url("http://host".to_string());
    let copy = config.clone();
    assert_eq!(copy.provider, config.provider);
    assert_eq!(copy.api_key, config.api_key);
    assert_eq!(copy.base_url, config.base_url);
}

#[test]
fn validation_asks_for_what_each_provider_needs() {
    assert_eq!(
        LlmConfig::new(Provider::OpenAI).validate(),
        Err(ConfigError::MissingApiKey(Provider::OpenAI))
    );
    assert_eq!(
        LlmConfig::new(Provider::Anthropic).validate(),
        Err(ConfigError::MissingApiKey(Provider::Anthropic))
    );
    assert_eq!(LlmConfig::new(Provider::Custom).validate(), Err(ConfigError::MissingBaseUrl));
    assert_eq!(LlmConfig::new(Provider::Ollama).validate(), Ok(()));
    assert_eq!(LlmConfig::new(Provider::OpenAI).with_api_key("k".to_string()).validate(), Ok(()));
    assert_eq!(
        LlmConfig::new(Provider::Anthropic).with_api_key("k".to_string()).validate(),
        Ok(())
    );
    assert_eq!(
        LlmConfig::new(Provider::Custom).with_base_url("http://h".to_string()).validate(),
        Ok(())
    );
    assert_eq!(
        LlmConfig::new(Provider::Custom).with_api_key("k".to_string()).validate(),
        Err(ConfigError::MissingBaseUrl)
    );
}

#[test]
fn config_errors_have_their_texts() {
    assert_eq!(
        ConfigError::MissingApiKey(Provider::OpenAI).message(),
        "Missing API key for provider: OpenAI"
    );
    assert_eq!(
        ConfigError::MissingApiKey(Provider::Anthropic).message(),
        "Missing API key for provider: Anthropic"
    );
    assert_eq!(ConfigError::MissingBaseUrl.message(), "Missing base URL for custom provider");
    assert_eq!(Provider::Ollama.name(), "Ollama");
    assert_eq!(Provider::Custom.name(), "Custom");
}

#[test]
fn site_constants() {
    assert_eq!(APP_SITE_URL, "merco.app");
    assert_eq!(APP_SITE_NAME, "Merco LLM");
}

#[test]
fn get_provider_picks_the_adapter() {
    let openai = get_provider(LlmConfig::new(Provider::OpenAI).with_api_key("k".to_string()));
    assert!(matches!(openai, Ok(LlmAdapter::OpenAI(_))));
    let ollama = get_provider(LlmConfig::new(Provider::Ollama));
    assert!(matches!(ollama, Ok(LlmAdapter::Ollama(_))));
}

#[test]
fn get_provider_rejects_an_invalid_config() {
    match get_provider(LlmConfig::new(Provider::OpenAI)) {
        Err(ProviderError::ConfigError(m)) => {
            assert_eq!(m, "Missing API key for provider: OpenAI")
        }
        _ => panic!("expected a configuration error"),
    }
    match get_provider(LlmConfig::new(Provider::Custom)) {
        Err(ProviderError::ConfigError(m)) => {
            assert_eq!(m, "Missing base URL for custom provider")
        }
        _ => panic!("expected a configuration error"),
    }
}

#[test]
fn get_provider_says_what_is_not_implemented() {
    match get_provider(LlmConfig::new(Provider::Anthropic).with_api_key("k".to_string())) {
        Err(ProviderError::Unsupported(m)) => {
            assert_eq!(m, "Anthropic provider not yet implemented")
        }
        _ => panic!("expected an unsupported error"),
    }
    match get_provider(LlmConfig::new(Provider::Custom).with_base_url("http://h".to_string())) {
        Err(ProviderError::Unsupported(m)) => {
            assert_eq!(m, "Custom provider logic not yet implemented")
        }
        _ => panic!("expected an unsupported error"),
    }
}

#[test]
fn provider_errors_have_their_texts() {
    assert_eq!(
        ProviderError::RequestError("timeout".to_string()).message(),
        "API request failed: timeout"
    );
    assert_eq!(
        ProviderError::ApiError { status: 429, message: "slow down".to_string() }.message(),
        "API response error: 429: slow down"
    );
    assert_eq!(
        ProviderError::ApiError { status: 7, message: String::new() }.message(),
        "API response error: 7: "
    );
    assert_eq!(
        ProviderError::ParseError("eof".to_string()).message(),
        "Failed to parse API response: eof"
    );
    assert_eq!(
        ProviderError::ConfigError("bad".to_string()).message(),
        "Configuration error: bad"
    );
    assert_eq!(ProviderError::StreamError("cut".to_string()).message(), "Stream failed: cut");
    assert_eq!(
        ProviderError::MissingConfig("key".to_string()).message(),
        "Missing required configuration: key"
    );
    assert_eq!(
        ProviderError::ToolFormatError("shape".to_string()).message(),
        "Tool use response format error: shape"
    );
    assert_eq!(
        ProviderError::Unsupported("stream".to_string()).message(),
        "Unsupported operation: stream"
    );
    assert_eq!(
        ProviderError::Unexpected("lock".to_string()).message(),
        "An unexpected error occurred: lock"
    );
}
