//! Which backend to talk to, and with what credentials.

use vstd::prelude::*;
use vstd::string::StringExecFns;
use crate::text::clone_opt_string;

verus! {

/// Site address sent to proxy aggregators that ask callers to identify themselves.
pub const APP_SITE_URL: &'static str = "merco.app";

/// Site name sent to proxy aggregators that ask callers to identify themselves.
pub const APP_SITE_NAME: &'static str = "Merco LLM";

/// The backends a configuration can name.
#[derive(Debug, Clone, Copy, PartialEq, Eq, Structural)]
pub enum Provider {
    /// The OpenAI API, or an endpoint that speaks its protocol.
    OpenAI,
    /// A local Ollama instance.
    Ollama,
    /// Anthropic's models.
    Anthropic,
    /// A self-hosted model behind an explicitly given base address.
    Custom,
}

impl Provider {
    /// The provider's name as it appears in messages.
    pub open spec fn spec_name(self) -> Seq<char> {
        match self {
            Provider::OpenAI => "OpenAI"@,
            Provider::Ollama => "Ollama"@,
            Provider::Anthropic => "Anthropic"@,
            Provider::Custom => "Custom"@,
        }
    }

    /// The provider's name as it appears in messages.
    pub fn name(&self) -> (r: &'static str)
        ensures
            r@ == self.spec_name(),
    {
        match self {
            Provider::OpenAI => "OpenAI",
            Provider::Ollama => "Ollama",
            Provider::Anthropic => "Anthropic",
            Provider::Custom => "Custom",
        }
    }
}

/// What is needed to construct a provider.
#[derive(Debug)]
pub struct LlmConfig {
    /// The backend to use.
    pub provider: Provider,
    /// The credential the backend asks for, if any.
    pub api_key: Option<String>,
    /// The base address of the backend's API; each backend has a default.
    pub base_url: Option<String>,
}

/// The mathematical content of an [`LlmConfig`].
pub struct LlmConfigView {
    pub provider: Provider,
    pub api_key: Option<Seq<char>>,
    pub base_url: Option<Seq<char>>,
}

impl View for LlmConfig {
    type V = LlmConfigView;

    open spec fn view(&self) -> LlmConfigView {
        LlmConfigView {
            provider: self.provider,
            api_key: self.api_key.deep_view(),
            base_url: self.base_url.deep_view(),
        }
    }
}

impl Clone for LlmConfig {
    fn clone(&self) -> (r: Self)
        ensures
            r@ == self@,
    {
        LlmConfig {
            provider: self.provider,
            api_key: clone_opt_string(&self.api_key),
            base_url: clone_opt_string(&self.base_url),
        }
    }
}

/// Why a configuration cannot be used.
#[derive(Debug, Clone, Copy, PartialEq, Eq, Structural)]
pub enum ConfigError {
    /// The provider needs an API key and none was given.
    MissingApiKey(Provider),
    /// The custom provider needs a base address and none was given.
    MissingBaseUrl,
}

impl ConfigError {
    /// The text of the error.
    pub open spec fn spec_message(self) -> Seq<char> {
        match self {
            ConfigError::MissingApiKey(p) => "Missing API key for provider: "@ + p.spec_name(),
            ConfigError::MissingBaseUrl => "Missing base URL for custom provider"@,
        }
    }

    /// The text of the error, for display.
    pub fn message(&self) -> (r: String)
        ensures
            r@ == self.spec_message(),
    {
        match self {
            ConfigError::MissingApiKey(p) => {
                let mut s = "Missing API key for provider: ".to_owned();
                s.append(p.name());
                s
            },
            ConfigError::MissingBaseUrl => "Missing base URL for custom provider".to_owned(),
        }
    }
}

/// The outcome of validating a configuration with the given content.
pub open spec fn spec_validate(c: LlmConfigView) -> Result<(), ConfigError> {
    match c.provider {
        Provider::OpenAI | Provider::Anthropic => if c.api_key is None {
            Err(ConfigError::MissingApiKey(c.provider))
        } else {
            Ok(())
        },
        Provider::Custom => if c.base_url is None {
            Err(ConfigError::MissingBaseUrl)
        } else {
            Ok(())
        },
        Provider::Ollama => Ok(()),
    }
}

impl LlmConfig {
    /// A configuration for `provider` with no key and the default address.
    pub fn new(provider: Provider) -> (r: Self)
        ensures
            r@ == (LlmConfigView { provider, api_key: None, base_url: None }),
    {
        LlmConfig { provider, api_key: None, base_url: None }
    }

    /// The same configuration with `api_key` as its credential.
    pub fn with_api_key(self, api_key: String) -> (r: Self)
        ensures
            r@ == (LlmConfigView { api_key: Some(api_key@), ..self@ }),
    {
        let mut c = self;
        c.api_key = Some(api_key);
        c
    }

    /// The same configuration with `base_url` as its base address.
    pub fn with_base_url(self, base_url: String) -> (r: Self)
        ensures
            r@ == (LlmConfigView { base_url: Some(base_url@), ..self@ }),
    {
        let mut c = self;
        c.base_url = Some(base_url);
        c
    }

    /// Checks that the configuration holds what its provider requires: a key
    /// for OpenAI and Anthropic, a base address for a custom backend, nothing
    /// for Ollama.
    pub fn validate(&self) -> (r: Result<(), ConfigError>)
        ensures
            r == spec_validate(self@),
    {
        match self.provider {
            Provider::OpenAI | Provider::Anthropic => {
                if self.api_key.is_none() {
                    return Err(ConfigError::MissingApiKey(self.provider));
                }
            },
            Provider::Custom => {
                if self.base_url.is_none() {
                    return Err(ConfigError::MissingBaseUrl);
                }
            },
            Provider::Ollama => {},
        }
        Ok(())
    }
}

} // verus!
