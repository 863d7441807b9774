//! What every adapter can do, and choosing the adapter that a configuration
//! asks for.

use vstd::prelude::*;
use crate::config::{spec_validate, ConfigError, LlmConfig, LlmConfigView, Provider};
use crate::http::{HttpRequest, HttpRequestView};
use crate::providers::ollama::{
    ollama_completion, ollama_completion_request, ollama_status_error, ollama_stream_request,
    uses_json_mode,
    OllamaProvider, OllamaProviderView, OLLAMA_DEFAULT_BASE_URL,
};
use crate::providers::ollama_stream::{ollama_after_lines, OllamaStream};
use crate::providers::openai::{
    openai_completion, openai_completion_request, openai_status_error, openai_stream_request,
    OpenAIProvider,
    OpenAIProviderView, OPENAI_BASE_URL,
};
use crate::providers::openai_stream::{after_lines, OpenAIStream, OpenAIStreamView};
use crate::providers::stream::{StreamOutput, StreamPhase};
use crate::frames::lines_of;
use crate::traits::{
    outcome, CompletionRequest, CompletionRequestView, CompletionResponse,
    CompletionResponseView, ProviderError, ProviderErrorView,
};

verus! {

/// An adapter for one of the backends that this crate serves.
#[derive(Debug)]
pub enum LlmAdapter {
    /// The adapter for OpenAI-compatible backends.
    OpenAI(OpenAIProvider),
    /// The adapter for Ollama.
    Ollama(OllamaProvider),
}

/// The content of an [`LlmAdapter`].
pub enum LlmAdapterView {
    OpenAI(OpenAIProviderView),
    Ollama(OllamaProviderView),
}

impl View for LlmAdapter {
    type V = LlmAdapterView;

    open spec fn view(&self) -> LlmAdapterView {
        match self {
            LlmAdapter::OpenAI(p) => LlmAdapterView::OpenAI(p@),
            LlmAdapter::Ollama(p) => LlmAdapterView::Ollama(p@),
        }
    }
}

impl DeepView for LlmAdapter {
    type V = LlmAdapterView;

    open spec fn deep_view(&self) -> LlmAdapterView {
        self@
    }
}

/// The stream of a completion, read by the adapter that asked for it.
#[derive(Debug)]
pub enum LlmStream {
    /// A stream of server-sent events.
    OpenAI(OpenAIStream),
    /// A stream of JSON lines.
    Ollama(OllamaStream),
}

/// The adapter for a configuration: a configuration error where the
/// configuration is not valid, the adapter for OpenAI or Ollama where it names
/// one of them, and an error for a provider that is not implemented.
pub open spec fn provider_for(config: LlmConfigView) -> Result<LlmAdapterView, ProviderErrorView> {
    match spec_validate(config) {
        Err(e) => Err(ProviderErrorView::ConfigError(e.spec_message())),
        Ok(_) => match config.provider {
            Provider::OpenAI => Ok(
                LlmAdapterView::OpenAI(
                    OpenAIProviderView {
                        config,
                        api_key: config.api_key->0,
                        base_url: match config.base_url {
                            Some(u) => u,
                            None => OPENAI_BASE_URL@,
                        },
                    },
                ),
            ),
            Provider::Ollama => Ok(
                LlmAdapterView::Ollama(
                    OllamaProviderView {
                        config,
                        base_url: match config.base_url {
                            Some(u) => u,
                            None => OLLAMA_DEFAULT_BASE_URL@,
                        },
                    },
                ),
            ),
            Provider::Anthropic => Err(
                ProviderErrorView::Unsupported("Anthropic provider not yet implemented"@),
            ),
            Provider::Custom => Err(
                ProviderErrorView::Unsupported("Custom provider logic not yet implemented"@),
            ),
        },
    }
}

/// The adapter that `config` asks for.
pub fn get_provider(config: LlmConfig) -> (r: Result<LlmAdapter, ProviderError>)
    ensures
        outcome(r) == provider_for(config@),
{
    match config.validate() {
        Err(e) => {
            return Err(ProviderError::ConfigError(e.message()));
        },
        Ok(_) => {},
    }
    match config.provider {
        Provider::OpenAI => Ok(LlmAdapter::OpenAI(OpenAIProvider::new(config))),
        Provider::Ollama => Ok(LlmAdapter::Ollama(OllamaProvider::new(config))),
        Provider::Anthropic => Err(
            ProviderError::Unsupported("Anthropic provider not yet implemented".to_owned()),
        ),
        Provider::Custom => Err(
            ProviderError::Unsupported("Custom provider logic not yet implemented".to_owned()),
        ),
    }
}

/// What every adapter can do. An adapter does no I/O: it says what to send for
/// a request, what the answer that came back means, and it opens the stream in
/// which a streamed answer is read.
pub trait LlmProvider {
    /// What the adapter sends for a completion that is wanted in one piece.
    spec fn completion_request_for(&self, request: CompletionRequestView) -> Result<
        HttpRequestView,
        ProviderErrorView,
    >;

    /// What the adapter sends for a completion that is to be streamed.
    spec fn stream_request_for(&self, request: CompletionRequestView) -> Result<
        HttpRequestView,
        ProviderErrorView,
    >;

    /// What an answer to a request means to the adapter, given its status code
    /// and its body.
    spec fn completion_for(
        &self,
        request: CompletionRequestView,
        status: u16,
        body: Seq<char>,
    ) -> Result<CompletionResponseView, ProviderErrorView>;

    /// The error that a status stands for to the adapter, if it is not a
    /// success.
    spec fn status_error_for(&self, status: u16, body: Seq<char>) -> Option<ProviderErrorView>;

    /// What to send for `request` when the answer is wanted in one piece.
    fn completion_request(&self, request: &CompletionRequest) -> (r: Result<
        HttpRequest,
        ProviderError,
    >)
        ensures
            outcome(r) == self.completion_request_for(request@),
    ;

    /// What the backend's answer to `request` means, given its status code and
    /// its body.
    fn completion_response(&self, request: &CompletionRequest, status: u16, body: &str) -> (r:
        Result<CompletionResponse, ProviderError>)
        ensures
            outcome(r) == self.completion_for(request@, status, body@),
    ;

    /// What to send for `request` when the answer is to be streamed.
    fn stream_request(&self, request: &CompletionRequest) -> (r: Result<
        HttpRequest,
        ProviderError,
    >)
        ensures
            outcome(r) == self.stream_request_for(request@),
    ;

    /// Opens the stream of a response with the given status. A status that is
    /// not a success is an error, with the message read from `body`, and no
    /// stream comes to be.
    fn open_stream(&self, status: u16, body: &str) -> (r: Result<LlmStream, ProviderError>)
        ensures
            match self.status_error_for(status, body@) {
                Some(e) => r matches Err(x) && x@ == e,
                None => r matches Ok(s) && s.fresh(),
            },
    ;
}

impl LlmProvider for OpenAIProvider {
    open spec fn completion_request_for(&self, request: CompletionRequestView) -> Result<
        HttpRequestView,
        ProviderErrorView,
    > {
        openai_completion_request(self@, request)
    }

    open spec fn stream_request_for(&self, request: CompletionRequestView) -> Result<
        HttpRequestView,
        ProviderErrorView,
    > {
        openai_stream_request(self@, request)
    }

    open spec fn completion_for(
        &self,
        request: CompletionRequestView,
        status: u16,
        body: Seq<char>,
    ) -> Result<CompletionResponseView, ProviderErrorView> {
        openai_completion(status, body)
    }

    open spec fn status_error_for(&self, status: u16, body: Seq<char>) -> Option<
        ProviderErrorView,
    > {
        openai_status_error(status, body)
    }

    fn completion_request(&self, request: &CompletionRequest) -> (r: Result<
        HttpRequest,
        ProviderError,
    >) {
        OpenAIProvider::completion_request(self, request)
    }

    fn completion_response(&self, request: &CompletionRequest, status: u16, body: &str) -> (r:
        Result<CompletionResponse, ProviderError>) {
        OpenAIProvider::completion_response(status, body)
    }

    fn stream_request(&self, request: &CompletionRequest) -> (r: Result<
        HttpRequest,
        ProviderError,
    >) {
        OpenAIProvider::stream_request(self, request)
    }

    fn open_stream(&self, status: u16, body: &str) -> (r: Result<LlmStream, ProviderError>)
        ensures
            r matches Ok(s) ==> s is OpenAI,
    {
        match OpenAIStream::open(status, body) {
            Ok(s) => Ok(LlmStream::OpenAI(s)),
            Err(e) => Err(e),
        }
    }
}

impl LlmProvider for OllamaProvider {
    open spec fn completion_request_for(&self, request: CompletionRequestView) -> Result<
        HttpRequestView,
        ProviderErrorView,
    > {
        ollama_completion_request(self@, request)
    }

    open spec fn stream_request_for(&self, request: CompletionRequestView) -> Result<
        HttpRequestView,
        ProviderErrorView,
    > {
        ollama_stream_request(self@, request)
    }

    open spec fn completion_for(
        &self,
        request: CompletionRequestView,
        status: u16,
        body: Seq<char>,
    ) -> Result<CompletionResponseView, ProviderErrorView> {
        ollama_completion(status, body, uses_json_mode(request))
    }

    open spec fn status_error_for(&self, status: u16, body: Seq<char>) -> Option<
        ProviderErrorView,
    > {
        ollama_status_error(status, body)
    }

    fn completion_request(&self, request: &CompletionRequest) -> (r: Result<
        HttpRequest,
        ProviderError,
    >) {
        OllamaProvider::completion_request(self, request)
    }

    fn completion_response(&self, request: &CompletionRequest, status: u16, body: &str) -> (r:
        Result<CompletionResponse, ProviderError>) {
        OllamaProvider::completion_response(status, body, OllamaProvider::json_mode(request))
    }

    fn stream_request(&self, request: &CompletionRequest) -> (r: Result<
        HttpRequest,
        ProviderError,
    >) {
        OllamaProvider::stream_request(self, request)
    }

    fn open_stream(&self, status: u16, body: &str) -> (r: Result<LlmStream, ProviderError>)
        ensures
            r matches Ok(s) ==> s is Ollama,
    {
        match OllamaStream::open(status, body) {
            Ok(s) => Ok(LlmStream::Ollama(s)),
            Err(e) => Err(e),
        }
    }
}

impl LlmProvider for LlmAdapter {
    open spec fn completion_request_for(&self, request: CompletionRequestView) -> Result<
        HttpRequestView,
        ProviderErrorView,
    > {
        match self {
            LlmAdapter::OpenAI(p) => p.completion_request_for(request),
            LlmAdapter::Ollama(p) => p.completion_request_for(request),
        }
    }

    open spec fn stream_request_for(&self, request: CompletionRequestView) -> Result<
        HttpRequestView,
        ProviderErrorView,
    > {
        match self {
            LlmAdapter::OpenAI(p) => p.stream_request_for(request),
            LlmAdapter::Ollama(p) => p.stream_request_for(request),
        }
    }

    open spec fn completion_for(
        &self,
        request: CompletionRequestView,
        status: u16,
        body: Seq<char>,
    ) -> Result<CompletionResponseView, ProviderErrorView> {
        match self {
            LlmAdapter::OpenAI(p) => p.completion_for(request, status, body),
            LlmAdapter::Ollama(p) => p.completion_for(request, status, body),
        }
    }

    open spec fn status_error_for(&self, status: u16, body: Seq<char>) -> Option<
        ProviderErrorView,
    > {
        match self {
            LlmAdapter::OpenAI(p) => p.status_error_for(status, body),
            LlmAdapter::Ollama(p) => p.status_error_for(status, body),
        }
    }

    fn completion_request(&self, request: &CompletionRequest) -> (r: Result<
        HttpRequest,
        ProviderError,
    >) {
        match self {
            LlmAdapter::OpenAI(p) => LlmProvider::completion_request(p, request),
            LlmAdapter::Ollama(p) => LlmProvider::completion_request(p, request),
        }
    }

    fn completion_response(&self, request: &CompletionRequest, status: u16, body: &str) -> (r:
        Result<CompletionResponse, ProviderError>) {
        match self {
            LlmAdapter::OpenAI(p) => LlmProvider::completion_response(p, request, status, body),
            LlmAdapter::Ollama(p) => LlmProvider::completion_response(p, request, status, body),
        }
    }

    fn stream_request(&self, request: &CompletionRequest) -> (r: Result<
        HttpRequest,
        ProviderError,
    >) {
        match self {
            LlmAdapter::OpenAI(p) => LlmProvider::stream_request(p, request),
            LlmAdapter::Ollama(p) => LlmProvider::stream_request(p, request),
        }
    }

    fn open_stream(&self, status: u16, body: &str) -> (r: Result<LlmStream, ProviderError>)
        ensures
            r matches Ok(s) ==> (s is OpenAI <==> self is OpenAI),
    {
        match self {
            LlmAdapter::OpenAI(p) => p.open_stream(status, body),
            LlmAdapter::Ollama(p) => p.open_stream(status, body),
        }
    }
}

impl LlmStream {
    /// Whether the stream is one that has read nothing yet.
    pub open spec fn fresh(&self) -> bool {
        match self {
            LlmStream::OpenAI(s) => s@ == (OpenAIStreamView {
                phase: StreamPhase::Open,
                calls: Map::empty(),
            }),
            LlmStream::Ollama(s) => s@ == StreamPhase::Open,
        }
    }

    /// Where the stream stands.
    pub open spec fn spec_phase(&self) -> StreamPhase {
        match self {
            LlmStream::OpenAI(s) => s@.phase,
            LlmStream::Ollama(s) => s@,
        }
    }

    /// Where the stream stands.
    #[verifier::when_used_as_spec(spec_phase)]
    pub fn phase(&self) -> (r: StreamPhase)
        ensures
            r == self.spec_phase(),
    {
        match self {
            LlmStream::OpenAI(s) => s.phase(),
            LlmStream::Ollama(s) => s.phase(),
        }
    }

    /// Takes the next bytes of the body and hands back what they yield.
    pub fn push(&mut self, bytes: &[u8]) -> (r: StreamOutput)
        ensures
            match *old(self) {
                LlmStream::OpenAI(s) => *final(self) matches LlmStream::OpenAI(t) && t@
                    == after_lines(s@, lines_of(bytes@)).stream && r@ == after_lines(
                    s@,
                    lines_of(bytes@),
                ).output,
                LlmStream::Ollama(s) => *final(self) matches LlmStream::Ollama(t) && t@
                    == ollama_after_lines(s@, lines_of(bytes@)).phase && r@ == ollama_after_lines(
                    s@,
                    lines_of(bytes@),
                ).output,
            },
    {
        match self {
            LlmStream::OpenAI(s) => s.push(bytes),
            LlmStream::Ollama(s) => s.push(bytes),
        }
    }
}

} // verus!
