//! Reading a streamed Ollama completion: one JSON object on each line, the
//! last of them marked `done`.

use vstd::prelude::*;
use crate::frames::{lines_of, slice_views, split_lines};
use crate::json::{error_message, json_parse_bytes, parse_bytes};
use crate::providers::ollama::{ollama_status_error, usage_calculated, OllamaProvider};
use crate::providers::ollama_wire::{
    decode_stream_line, stream_line_of, OllamaChatStreamResponse, OllamaChatStreamResponseView,
};
use crate::providers::stream::{StreamOutput, StreamOutputView, StreamPhase};
use crate::traits::{
    CompletionStreamChunk, CompletionStreamChunkView, ProviderError, ProviderErrorView,
    StreamContentDelta, StreamContentDeltaView,
};

verus! {

/// The chunk that a line yields: its text, with the usage and the reason it
/// reports, where the text is not empty or the line is the last; none
/// otherwise.
pub open spec fn line_chunk(line: OllamaChatStreamResponseView) -> Option<
    CompletionStreamChunkView,
> {
    if line.content.len() > 0 || line.meta.done {
        Some(
            CompletionStreamChunkView {
                delta: StreamContentDeltaView::Text(line.content),
                usage: usage_calculated(line.meta.prompt_eval_count, line.meta.eval_count),
                finish_reason: line.done_reason,
            },
        )
    } else {
        None
    }
}

/// What a line does to a stream: where the stream stands afterwards, the chunk
/// the line yields and the error it raises.
pub struct OllamaLineEffect {
    pub phase: StreamPhase,
    pub chunk: Option<CompletionStreamChunkView>,
    pub error: Option<ProviderErrorView>,
}

/// What a line does to a stream. A stream that is not open ignores it, and an
/// open stream ignores an empty line. A line that is not JSON, or not of the
/// expected shape, fails the stream with a parse error. The line marked `done`
/// ends the stream.
pub open spec fn ollama_after_line(phase: StreamPhase, line: Seq<u8>) -> OllamaLineEffect {
    if phase != StreamPhase::Open || line.len() == 0 {
        OllamaLineEffect { phase, chunk: None, error: None }
    } else {
        match json_parse_bytes(line) {
            Ok(j) => match stream_line_of(j) {
                Some(decoded) => OllamaLineEffect {
                    phase: if decoded.meta.done {
                        StreamPhase::Done
                    } else {
                        StreamPhase::Open
                    },
                    chunk: line_chunk(decoded),
                    error: None,
                },
                None => OllamaLineEffect {
                    phase: StreamPhase::Failed,
                    chunk: None,
                    error: Some(
                        ProviderErrorView::ParseError(
                            "Ollama stream line does not have the expected shape"@,
                        ),
                    ),
                },
            },
            Err(msg) => OllamaLineEffect {
                phase: StreamPhase::Failed,
                chunk: None,
                error: Some(ProviderErrorView::ParseError(msg)),
            },
        }
    }
}

/// What a sequence of lines does to a stream: where the stream stands
/// afterwards, and what the lines yield.
pub struct OllamaLinesEffect {
    pub phase: StreamPhase,
    pub output: StreamOutputView,
}

/// What a sequence of lines does to a stream.
pub open spec fn ollama_after_lines(phase: StreamPhase, lines: Seq<Seq<u8>>) -> OllamaLinesEffect
    decreases lines.len(),
{
    if lines.len() == 0 {
        OllamaLinesEffect { phase, output: StreamOutputView { chunks: Seq::empty(), error: None } }
    } else {
        let before = ollama_after_lines(phase, lines.drop_last());
        let step = ollama_after_line(before.phase, lines.last());
        OllamaLinesEffect {
            phase: step.phase,
            output: StreamOutputView {
                chunks: match step.chunk {
                    Some(c) => before.output.chunks.push(c),
                    None => before.output.chunks,
                },
                error: match before.output.error {
                    Some(e) => Some(e),
                    None => step.error,
                },
            },
        }
    }
}

/// A stream of an Ollama completion, as far as it has been read.
#[derive(Debug)]
pub struct OllamaStream {
    phase: StreamPhase,
}

impl View for OllamaStream {
    type V = StreamPhase;

    closed spec fn view(&self) -> StreamPhase {
        self.phase
    }
}

impl OllamaStream {
    /// Opens the stream of a response with the given status. A status that is
    /// not a success is an API error, with the message read from `body`, and
    /// no stream comes to be.
    pub fn open(status: u16, body: &str) -> (r: Result<OllamaStream, ProviderError>)
        ensures
            match ollama_status_error(status, body@) {
                Some(e) => r matches Err(x) && x@ == e,
                None => r matches Ok(s) && s@ == StreamPhase::Open,
            },
    {
        match OllamaProvider::check_status(status, body) {
            Some(e) => Err(e),
            None => Ok(OllamaStream { phase: StreamPhase::Open }),
        }
    }

    /// Where the stream stands.
    pub fn phase(&self) -> (r: StreamPhase)
        ensures
            r == self@,
    {
        self.phase
    }

    /// The chunk that a decoded line yields.
    pub fn chunk_of(line: OllamaChatStreamResponse) -> (r: Option<CompletionStreamChunk>)
        ensures
            r.deep_view() == line_chunk(line@),
    {
        if !line.content.as_str().is_empty() || line.meta.done {
            Some(
                CompletionStreamChunk {
                    delta: StreamContentDelta::Text(line.content),
                    usage: OllamaProvider::calculate_usage(
                        line.meta.prompt_eval_count,
                        line.meta.eval_count,
                    ),
                    finish_reason: line.done_reason,
                },
            )
        } else {
            None
        }
    }

    /// Takes one line of the body and hands back the chunk it yields and the
    /// error it raises.
    pub fn push_line(&mut self, line: &[u8]) -> (r: (
        Option<CompletionStreamChunk>,
        Option<ProviderError>,
    ))
        ensures
            final(self)@ == ollama_after_line(old(self)@, line@).phase,
            r.0.deep_view() == ollama_after_line(old(self)@, line@).chunk,
            r.1.deep_view() == ollama_after_line(old(self)@, line@).error,
    {
        if self.phase != StreamPhase::Open || line.len() == 0 {
            return (None, None);
        }
        match parse_bytes(line) {
            Ok(v) => match decode_stream_line(&v) {
                Some(decoded) => {
                    if decoded.meta.done {
                        self.phase = StreamPhase::Done;
                    }
                    (Self::chunk_of(decoded), None)
                },
                None => {
                    self.phase = StreamPhase::Failed;
                    (
                        None,
                        Some(
                            ProviderError::ParseError(
                                "Ollama stream line does not have the expected shape".to_owned(),
                            ),
                        ),
                    )
                },
            },
            Err(e) => {
                self.phase = StreamPhase::Failed;
                (None, Some(ProviderError::ParseError(error_message(&e))))
            },
        }
    }

    /// Takes the next bytes of the body and hands back what they yield: one
    /// chunk for each line that carries text or ends the answer, in the order
    /// of the lines. Lines after the last, and after a line that could not be
    /// read, yield nothing.
    pub fn push(&mut self, bytes: &[u8]) -> (r: StreamOutput)
        ensures
            final(self)@ == ollama_after_lines(old(self)@, lines_of(bytes@)).phase,
            r@ == ollama_after_lines(old(self)@, lines_of(bytes@)).output,
    {
        let lines = split_lines(bytes);
        let ghost all = lines_of(bytes@);
        let mut chunks: Vec<CompletionStreamChunk> = Vec::new();
        let mut error: Option<ProviderError> = None;
        let mut i: usize = 0;
        assert(all.take(0) =~= Seq::<Seq<u8>>::empty());
        while i < lines.len()
            invariant
                i <= lines@.len(),
                all == slice_views(lines@),
                self@ == ollama_after_lines(old(self)@, all.take(i as int)).phase,
                chunks.deep_view() == ollama_after_lines(
                    old(self)@,
                    all.take(i as int),
                ).output.chunks,
                error.deep_view() == ollama_after_lines(
                    old(self)@,
                    all.take(i as int),
                ).output.error,
            decreases lines@.len() - i,
        {
            proof {
                assert(all.take(i as int + 1).drop_last() =~= all.take(i as int));
                assert(all.take(i as int + 1).last() == lines@[i as int]@);
            }
            let ghost before = chunks.deep_view();
            let (chunk, failure) = self.push_line(lines[i]);
            match chunk {
                Some(c) => {
                    chunks.push(c);
                    assert(chunks.deep_view() =~= before.push(c@));
                },
                None => {},
            }
            if error.is_none() {
                error = failure;
            }
            i = i + 1;
        }
        assert(all.take(i as int) =~= all);
        StreamOutput { chunks, error }
    }
}

/// A stream that has ended or failed is silent: whatever lines follow, it
/// yields no chunk and no error, and stays as it is.
pub proof fn lemma_closed_ollama_stream_is_silent(phase: StreamPhase, lines: Seq<Seq<u8>>)
    requires
        phase != StreamPhase::Open,
    ensures
        ollama_after_lines(phase, lines).phase == phase,
        ollama_after_lines(phase, lines).output.chunks.len() == 0,
        ollama_after_lines(phase, lines).output.error is None,
    decreases lines.len(),
{
    if lines.len() > 0 {
        lemma_closed_ollama_stream_is_silent(phase, lines.drop_last());
    }
}

/// Chunks come in the order of their lines: what the lines `first` and then
/// the lines `second` yield is what `first` yields, followed by what `second`
/// yields to the stream that `first` left; and the error is the first that
/// was raised.
pub proof fn lemma_ollama_lines_compose(
    phase: StreamPhase,
    first: Seq<Seq<u8>>,
    second: Seq<Seq<u8>>,
)
    ensures
        ollama_after_lines(phase, first + second).phase == ollama_after_lines(
            ollama_after_lines(phase, first).phase,
            second,
        ).phase,
        ollama_after_lines(phase, first + second).output.chunks == ollama_after_lines(
            phase,
            first,
        ).output.chunks + ollama_after_lines(
            ollama_after_lines(phase, first).phase,
            second,
        ).output.chunks,
        ollama_after_lines(phase, first + second).output.error == match ollama_after_lines(
            phase,
            first,
        ).output.error {
            Some(e) => Some(e),
            None => ollama_after_lines(
                ollama_after_lines(phase, first).phase,
                second,
            ).output.error,
        },
    decreases second.len(),
{
    let middle = ollama_after_lines(phase, first).phase;
    if second.len() == 0 {
        assert(first + second =~= first);
        assert(ollama_after_lines(phase, first).output.chunks + Seq::<
            CompletionStreamChunkView,
        >::empty() =~= ollama_after_lines(phase, first).output.chunks);
    } else {
        lemma_ollama_lines_compose(phase, first, second.drop_last());
        assert((first + second).drop_last() =~= first + second.drop_last());
        assert((first + second).last() == second.last());
        let before = ollama_after_lines(middle, second.drop_last());
        let step = ollama_after_line(before.phase, second.last());
        match step.chunk {
            Some(c) => {
                assert((ollama_after_lines(phase, first).output.chunks
                    + before.output.chunks).push(c) =~= ollama_after_lines(
                    phase,
                    first,
                ).output.chunks + before.output.chunks.push(c));
            },
            None => {},
        }
    }
}

} // verus!
