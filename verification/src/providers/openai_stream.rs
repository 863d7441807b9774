//! Reading a streamed OpenAI completion: server-sent events, one JSON frame
//! on each `data: ` line, the fragments of a tool call accumulated across
//! frames.

use vstd::prelude::*;
use vstd::slice::slice_subrange;
use vstd::string::StringExecFns;
use crate::frames::{begins_with, lines_of, same_bytes, slice_views, split_lines, starts_with};
use crate::json::{error_message, json_parse_bytes, parse_bytes};
use crate::providers::openai::{openai_status_error, usage_mapped, OpenAIProvider};
use crate::providers::openai_wire::{
    decode_stream_response, stream_response_of, OpenAIChatStreamResponse,
    OpenAIChatStreamResponseView,
};
use crate::providers::stream::{StreamOutput, StreamOutputView, StreamPhase};
use crate::text::clone_opt_string;
use crate::traits::{
    CompletionStreamChunk, CompletionStreamChunkView, ProviderError, ProviderErrorView,
    StreamContentDelta, StreamContentDeltaView, ToolCallFunctionStreamDelta,
    ToolCallFunctionStreamDeltaView, ToolCallStreamDelta, ToolCallStreamDeltaView,
};

verus! {

/// A field that a later fragment overwrites where it carries a value that is
/// not empty.
pub open spec fn overwritten(current: Option<Seq<char>>, incoming: Option<Seq<char>>) -> Option<
    Seq<char>,
> {
    match incoming {
        Some(s) => if s.len() > 0 {
            Some(s)
        } else {
            current
        },
        None => current,
    }
}

/// A field to which a later fragment appends what it carries.
pub open spec fn appended(current: Option<Seq<char>>, incoming: Option<Seq<char>>) -> Option<
    Seq<char>,
> {
    match incoming {
        Some(s) => Some(
            match current {
                Some(c) => c + s,
                None => s,
            },
        ),
        None => current,
    }
}

/// The function of a call after a fragment: the name overwritten, the
/// arguments appended.
pub open spec fn merged_function(
    current: Option<ToolCallFunctionStreamDeltaView>,
    incoming: Option<ToolCallFunctionStreamDeltaView>,
) -> Option<ToolCallFunctionStreamDeltaView> {
    match incoming {
        Some(f) => {
            let base = match current {
                Some(c) => c,
                None => ToolCallFunctionStreamDeltaView { name: None, arguments: None },
            };
            Some(
                ToolCallFunctionStreamDeltaView {
                    name: overwritten(base.name, f.name),
                    arguments: appended(base.arguments, f.arguments),
                },
            )
        },
        None => current,
    }
}

/// What is known of a call after a fragment, given what was known before.
pub open spec fn merged(
    existing: Option<ToolCallStreamDeltaView>,
    fragment: ToolCallStreamDeltaView,
) -> ToolCallStreamDeltaView {
    let base = match existing {
        Some(e) => e,
        None => ToolCallStreamDeltaView { index: fragment.index, id: None, function: None },
    };
    ToolCallStreamDeltaView {
        index: fragment.index,
        id: overwritten(base.id, fragment.id),
        function: merged_function(base.function, fragment.function),
    }
}

/// What is known of the call at `index`, if anything.
pub open spec fn call_at(calls: Map<usize, ToolCallStreamDeltaView>, index: usize) -> Option<
    ToolCallStreamDeltaView,
> {
    if calls.contains_key(index) {
        Some(calls[index])
    } else {
        None
    }
}

/// What is known of the calls after a sequence of fragments, each merged into
/// the call at its index.
pub open spec fn merged_calls(
    calls: Map<usize, ToolCallStreamDeltaView>,
    fragments: Seq<ToolCallStreamDeltaView>,
) -> Map<usize, ToolCallStreamDeltaView>
    decreases fragments.len(),
{
    if fragments.len() == 0 {
        calls
    } else {
        let before = merged_calls(calls, fragments.drop_last());
        let f = fragments.last();
        before.insert(f.index, merged(call_at(before, f.index), f))
    }
}

/// For each fragment of a sequence, what is known of its call once it is
/// merged.
pub open spec fn snapshots(
    calls: Map<usize, ToolCallStreamDeltaView>,
    fragments: Seq<ToolCallStreamDeltaView>,
) -> Seq<ToolCallStreamDeltaView> {
    Seq::new(
        fragments.len(),
        |k: int|
            merged(
                call_at(merged_calls(calls, fragments.take(k)), fragments[k].index),
                fragments[k],
            ),
    )
}

/// Whether one of the entries is for the call at `index`.
spec fn has_index(entries: Seq<ToolCallStreamDelta>, index: usize) -> bool {
    exists|i: int| 0 <= i < entries.len() && (#[trigger] entries[i]).index == index
}

/// The place of the entry for the call at `index`.
spec fn slot_of(entries: Seq<ToolCallStreamDelta>, index: usize) -> int {
    choose|i: int| 0 <= i < entries.len() && (#[trigger] entries[i]).index == index
}

/// Whether no two entries are for the same call.
spec fn distinct_indexes(entries: Seq<ToolCallStreamDelta>) -> bool {
    forall|i: int, j: int|
        0 <= i < entries.len() && 0 <= j < entries.len() && (#[trigger] entries[i]).index == (
        #[trigger] entries[j]).index ==> i == j
}

fn overwrite(current: &Option<String>, incoming: &Option<String>) -> (r: Option<String>)
    ensures
        r.deep_view() == overwritten(current.deep_view(), incoming.deep_view()),
{
    match incoming {
        Some(s) => if !s.as_str().is_empty() {
            Some(s.clone())
        } else {
            clone_opt_string(current)
        },
        None => clone_opt_string(current),
    }
}

fn append(current: &Option<String>, incoming: &Option<String>) -> (r: Option<String>)
    ensures
        r.deep_view() == appended(current.deep_view(), incoming.deep_view()),
{
    match incoming {
        Some(s) => match current {
            Some(c) => {
                let mut joined = c.clone();
                joined.append(s.as_str());
                Some(joined)
            },
            None => Some(s.clone()),
        },
        None => clone_opt_string(current),
    }
}

fn merge_function(
    current: &Option<ToolCallFunctionStreamDelta>,
    incoming: &Option<ToolCallFunctionStreamDelta>,
) -> (r: Option<ToolCallFunctionStreamDelta>)
    ensures
        r.deep_view() == merged_function(current.deep_view(), incoming.deep_view()),
{
    match incoming {
        Some(f) => match current {
            Some(c) => Some(
                ToolCallFunctionStreamDelta {
                    name: overwrite(&c.name, &f.name),
                    arguments: append(&c.arguments, &f.arguments),
                },
            ),
            None => Some(
                ToolCallFunctionStreamDelta {
                    name: overwrite(&None, &f.name),
                    arguments: append(&None, &f.arguments),
                },
            ),
        },
        None => match current {
            Some(c) => Some(c.clone()),
            None => None,
        },
    }
}

/// What is known of a call after `fragment`, given what was known before.
pub fn merge_fragment(existing: Option<&ToolCallStreamDelta>, fragment: &ToolCallStreamDelta) -> (r:
    ToolCallStreamDelta)
    ensures
        r@ == merged(existing.deep_view(), fragment@),
{
    match existing {
        Some(e) => ToolCallStreamDelta {
            index: fragment.index,
            id: overwrite(&e.id, &fragment.id),
            function: merge_function(&e.function, &fragment.function),
        },
        None => ToolCallStreamDelta {
            index: fragment.index,
            id: overwrite(&None, &fragment.id),
            function: merge_function(&None, &fragment.function),
        },
    }
}

/// The tool calls of one stream as far as its frames have told: for each
/// index, the fragments received so far, merged.
#[derive(Debug)]
pub struct ToolCallAggregator {
    entries: Vec<ToolCallStreamDelta>,
}

impl View for ToolCallAggregator {
    type V = Map<usize, ToolCallStreamDeltaView>;

    /// What is known of each call, by index.
    closed spec fn view(&self) -> Map<usize, ToolCallStreamDeltaView> {
        Map::new(
            |index: usize| has_index(self.entries@, index),
            |index: usize| self.entries@[slot_of(self.entries@, index)]@,
        )
    }
}

impl ToolCallAggregator {
    #[verifier::type_invariant]
    spec fn inv(&self) -> bool {
        distinct_indexes(self.entries@)
    }

    /// An aggregator that knows of no call.
    pub fn new() -> (r: Self)
        ensures
            r@ =~= Map::empty(),
    {
        let r = ToolCallAggregator { entries: Vec::new() };
        assert(r@ =~= Map::empty());
        r
    }

    /// Forgets every call.
    pub fn clear(&mut self)
        ensures
            final(self)@ =~= Map::empty(),
    {
        self.entries = Vec::new();
        assert(self@ =~= Map::empty());
    }

    fn slot(&self, index: usize) -> (r: Option<usize>)
        ensures
            match r {
                Some(i) => i < self.entries@.len() && self.entries@[i as int].index == index
                    && call_at(self@, index) == Some(self.entries@[i as int]@),
                None => call_at(self@, index) is None && !has_index(self.entries@, index),
            },
    {
        proof {
            use_type_invariant(self);
        }
        let mut i: usize = 0;
        while i < self.entries.len()
            invariant
                i <= self.entries@.len(),
                distinct_indexes(self.entries@),
                forall|j: int| 0 <= j < i ==> (#[trigger] self.entries@[j]).index != index,
            decreases self.entries@.len() - i,
        {
            if self.entries[i].index == index {
                assert(has_index(self.entries@, index));
                assert(slot_of(self.entries@, index) == i);
                return Some(i);
            }
            i = i + 1;
        }
        None
    }

    /// Merges `fragment` into the call at its index and hands back what is
    /// then known of that call. What is known of the other calls stays.
    pub fn merge(&mut self, fragment: &ToolCallStreamDelta) -> (r: ToolCallStreamDelta)
        ensures
            r@ == merged(call_at(old(self)@, fragment.index), fragment@),
            final(self)@ == old(self)@.insert(fragment.index, r@),
    {
        proof {
            use_type_invariant(&*self);
        }
        let found = self.slot(fragment.index);
        let ghost before = self.entries@;
        let ghost index = fragment.index;
        let updated = match found {
            Some(i) => merge_fragment(Some(&self.entries[i]), fragment),
            None => merge_fragment(None, fragment),
        };
        let snapshot = updated.clone();
        let mut entries: Vec<ToolCallStreamDelta> = Vec::new();
        std::mem::swap(&mut entries, &mut self.entries);
        match found {
            Some(i) => {
                entries.set(i, updated);
            },
            None => {
                entries.push(updated);
            },
        }
        let ghost after = entries@;
        proof {
            let p: int = match found {
                Some(i) => i as int,
                None => before.len() as int,
            };
            assert(after[p].index == index);
            assert forall|i: int| 0 <= i < after.len() && i != p implies after[i] == before[i]
                && (#[trigger] after[i]).index != index by {
                if found is Some {
                    assert(before[i].index == before[p].index ==> i == p);
                }
            }
            assert forall|i: int| 0 <= i < before.len() && i != p implies before[i] == after[i] by {}
            assert(distinct_indexes(after)) by {
                assert forall|i: int, j: int|
                    0 <= i < after.len() && 0 <= j < after.len() && (#[trigger] after[i]).index == (
                    #[trigger] after[j]).index implies i == j by {
                    if i != p && j != p {
                        assert(before[i].index == before[j].index);
                    }
                }
            }
            assert forall|other: usize| other != index implies has_index(after, other)
                == has_index(before, other) && (has_index(before, other) ==> slot_of(after, other)
                == slot_of(before, other)) by {
                if has_index(before, other) {
                    let i = slot_of(before, other);
                    assert(after[i].index == other);
                    let j = slot_of(after, other);
                    assert(before[j].index == other);
                }
                if has_index(after, other) {
                    let j = slot_of(after, other);
                    assert(before[j].index == other);
                }
            }
            assert(has_index(after, index));
            assert(slot_of(after, index) == p);
        }
        self.entries = entries;
        assert(self@ =~= old(self)@.insert(index, snapshot@));
        snapshot
    }
}

/// The six bytes of `data: `, with which a line that carries a frame begins.
pub open spec fn data_prefix() -> Seq<u8> {
    seq![100u8, 97u8, 116u8, 97u8, 58u8, 32u8]
}

/// The six bytes of `[DONE]`, which end the stream.
pub open spec fn done_marker() -> Seq<u8> {
    seq![91u8, 68u8, 79u8, 78u8, 69u8, 93u8]
}

/// What a line of a server-sent-event stream is.
pub enum SseLine {
    /// Not a `data: ` line, or one without payload.
    Ignored,
    /// The line that ends the stream.
    Done,
    /// A line that carries the given frame.
    Frame(Seq<u8>),
}

/// What a line is.
pub open spec fn sse_line(line: Seq<u8>) -> SseLine {
    if !begins_with(line, data_prefix()) {
        SseLine::Ignored
    } else {
        let payload = line.subrange(6, line.len() as int);
        if payload.len() == 0 {
            SseLine::Ignored
        } else if payload == done_marker() {
            SseLine::Done
        } else {
            SseLine::Frame(payload)
        }
    }
}

/// What a line of a server-sent-event stream is, with the frame it carries.
pub enum SseEvent<'a> {
    /// Not a `data: ` line, or one without payload.
    Ignored,
    /// The line that ends the stream.
    Done,
    /// A line that carries the given frame.
    Frame(&'a [u8]),
}

impl<'a> View for SseEvent<'a> {
    type V = SseLine;

    open spec fn view(&self) -> SseLine {
        match self {
            SseEvent::Ignored => SseLine::Ignored,
            SseEvent::Done => SseLine::Done,
            SseEvent::Frame(payload) => SseLine::Frame(payload@),
        }
    }
}

/// Says what a line is.
pub fn classify_line<'a>(line: &'a [u8]) -> (r: SseEvent<'a>)
    ensures
        r@ == sse_line(line@),
{
    let prefix: [u8; 6] = [100, 97, 116, 97, 58, 32];
    let marker: [u8; 6] = [91, 68, 79, 78, 69, 93];
    assert(prefix@ =~= data_prefix());
    assert(marker@ =~= done_marker());
    if !starts_with(line, prefix.as_slice()) {
        return SseEvent::Ignored;
    }
    let payload = slice_subrange(line, 6, line.len());
    if payload.len() == 0 {
        SseEvent::Ignored
    } else if same_bytes(payload, marker.as_slice()) {
        SseEvent::Done
    } else {
        SseEvent::Frame(payload)
    }
}

/// What a frame shows and what it does to the accumulated calls. Text that is
/// not empty is shown and clears the calls; where the frame carries no text,
/// its tool-call fragments are merged and what is then known of their calls is
/// shown.
pub open spec fn frame_content(
    calls: Map<usize, ToolCallStreamDeltaView>,
    frame: OpenAIChatStreamResponseView,
) -> (Map<usize, ToolCallStreamDeltaView>, Option<StreamContentDeltaView>) {
    if frame.choices.len() == 0 {
        (calls, None)
    } else {
        let delta = frame.choices[0].delta;
        match delta.content {
            Some(text) => if text.len() > 0 {
                (Map::empty(), Some(StreamContentDeltaView::Text(text)))
            } else {
                (calls, None)
            },
            None => match delta.tool_calls {
                Some(fragments) => if fragments.len() > 0 {
                    (
                        merged_calls(calls, fragments),
                        Some(StreamContentDeltaView::ToolCallDelta(snapshots(calls, fragments))),
                    )
                } else {
                    (calls, None)
                },
                None => (calls, None),
            },
        }
    }
}

/// The calls after a frame, and the chunk that the frame yields: its content
/// where it shows any; else, where it carries a finish reason or a usage, an
/// empty text with both; else none.
pub open spec fn after_frame(
    calls: Map<usize, ToolCallStreamDeltaView>,
    frame: OpenAIChatStreamResponseView,
) -> (Map<usize, ToolCallStreamDeltaView>, Option<CompletionStreamChunkView>) {
    let reason = if frame.choices.len() > 0 {
        frame.choices[0].finish_reason
    } else {
        None
    };
    let content = frame_content(calls, frame);
    match content.1 {
        Some(delta) => (
            content.0,
            Some(CompletionStreamChunkView { delta, usage: None, finish_reason: None }),
        ),
        None => (
            content.0,
            if reason is Some || frame.usage is Some {
                Some(
                    CompletionStreamChunkView {
                        delta: StreamContentDeltaView::Text(Seq::empty()),
                        usage: usage_mapped(frame.usage),
                        finish_reason: reason,
                    },
                )
            } else {
                None
            },
        ),
    }
}

/// A stream of an OpenAI completion, as far as it has been read.
#[derive(Debug)]
pub struct OpenAIStream {
    phase: StreamPhase,
    calls: ToolCallAggregator,
}

/// The content of an [`OpenAIStream`].
pub struct OpenAIStreamView {
    pub phase: StreamPhase,
    pub calls: Map<usize, ToolCallStreamDeltaView>,
}

impl View for OpenAIStream {
    type V = OpenAIStreamView;

    closed spec fn view(&self) -> OpenAIStreamView {
        OpenAIStreamView { phase: self.phase, calls: self.calls@ }
    }
}

/// What a line does to a stream: the stream afterwards, the chunk the line
/// yields and the error it raises.
pub struct LineEffect {
    pub stream: OpenAIStreamView,
    pub chunk: Option<CompletionStreamChunkView>,
    pub error: Option<ProviderErrorView>,
}

/// What a line does to a stream. A stream that is not open ignores it. The
/// end marker closes the stream. A frame that is not JSON, or not of the
/// expected shape, fails the stream with a parse error.
pub open spec fn after_line(stream: OpenAIStreamView, line: Seq<u8>) -> LineEffect {
    if stream.phase != StreamPhase::Open {
        LineEffect { stream, chunk: None, error: None }
    } else {
        match sse_line(line) {
            SseLine::Ignored => LineEffect { stream, chunk: None, error: None },
            SseLine::Done => LineEffect {
                stream: OpenAIStreamView { phase: StreamPhase::Done, calls: stream.calls },
                chunk: None,
                error: None,
            },
            SseLine::Frame(payload) => match json_parse_bytes(payload) {
                Ok(j) => match stream_response_of(j) {
                    Some(frame) => {
                        let next = after_frame(stream.calls, frame);
                        LineEffect {
                            stream: OpenAIStreamView { phase: StreamPhase::Open, calls: next.0 },
                            chunk: next.1,
                            error: None,
                        }
                    },
                    None => LineEffect {
                        stream: OpenAIStreamView { phase: StreamPhase::Failed, calls: stream.calls },
                        chunk: None,
                        error: Some(
                            ProviderErrorView::ParseError(
                                "OpenAI stream frame does not have the expected shape"@,
                            ),
                        ),
                    },
                },
                Err(msg) => LineEffect {
                    stream: OpenAIStreamView { phase: StreamPhase::Failed, calls: stream.calls },
                    chunk: None,
                    error: Some(ProviderErrorView::ParseError(msg)),
                },
            },
        }
    }
}

/// What a sequence of lines does to a stream: the stream afterwards, the
/// chunks the lines yield, in order, and the error that one of them raises.
pub struct LinesEffect {
    pub stream: OpenAIStreamView,
    pub output: StreamOutputView,
}

/// What a sequence of lines does to a stream.
pub open spec fn after_lines(stream: OpenAIStreamView, lines: Seq<Seq<u8>>) -> LinesEffect
    decreases lines.len(),
{
    if lines.len() == 0 {
        LinesEffect { stream, output: StreamOutputView { chunks: Seq::empty(), error: None } }
    } else {
        let before = after_lines(stream, lines.drop_last());
        let step = after_line(before.stream, lines.last());
        LinesEffect {
            stream: step.stream,
            output: StreamOutputView {
                chunks: match step.chunk {
                    Some(c) => before.output.chunks.push(c),
                    None => before.output.chunks,
                },
                error: match before.output.error {
                    Some(e) => Some(e),
                    None => step.error,
                },
            },
        }
    }
}

impl OpenAIStream {
    /// Opens the stream of a response with the given status. A status that is
    /// not a success is an API error, with the message read from `body`, and
    /// no stream comes to be.
    pub fn open(status: u16, body: &str) -> (r: Result<OpenAIStream, ProviderError>)
        ensures
            match openai_status_error(status, body@) {
                Some(e) => r matches Err(x) && x@ == e,
                None => r matches Ok(s) && s@ == (OpenAIStreamView {
                    phase: StreamPhase::Open,
                    calls: Map::empty(),
                }),
            },
    {
        match OpenAIProvider::check_status(status, body) {
            Some(e) => Err(e),
            None => Ok(OpenAIStream { phase: StreamPhase::Open, calls: ToolCallAggregator::new() }),
        }
    }

    /// Where the stream stands.
    pub fn phase(&self) -> (r: StreamPhase)
        ensures
            r == self@.phase,
    {
        self.phase
    }

    /// Takes a decoded frame into an open stream and hands back the chunk it
    /// yields.
    pub fn apply_frame(&mut self, frame: OpenAIChatStreamResponse) -> (r: Option<
        CompletionStreamChunk,
    >)
        ensures
            final(self)@.phase == old(self)@.phase,
            final(self)@.calls == after_frame(old(self)@.calls, frame@).0,
            r.deep_view() == after_frame(old(self)@.calls, frame@).1,
    {
        let usage = OpenAIProvider::map_usage(frame.usage);
        let mut choices = frame.choices;
        let ghost start = self.calls@;
        let mut reason: Option<String> = None;
        let mut content: Option<StreamContentDelta> = None;
        if choices.len() > 0 {
            let choice = choices.remove(0);
            reason = choice.finish_reason;
            match choice.delta.content {
                Some(text) => {
                    if !text.as_str().is_empty() {
                        content = Some(StreamContentDelta::Text(text));
                        self.calls.clear();
                    }
                },
                None => match choice.delta.tool_calls {
                    Some(fragments) => {
                        if fragments.len() > 0 {
                            let ghost all = fragments.deep_view();
                            let mut shown: Vec<ToolCallStreamDelta> = Vec::new();
                            let mut k: usize = 0;
                            assert(all.take(0) =~= Seq::<ToolCallStreamDeltaView>::empty());
                            while k < fragments.len()
                                invariant
                                    k <= fragments@.len(),
                                    all == fragments.deep_view(),
                                    shown@.len() == k,
                                    self.calls@ == merged_calls(start, all.take(k as int)),
                                    self.phase == old(self).phase,
                                    forall|j: int|
                                        0 <= j < k ==> (#[trigger] shown@[j])@ == snapshots(
                                            start,
                                            all,
                                        )[j],
                                decreases fragments@.len() - k,
                            {
                                proof {
                                    assert(all.take(k as int + 1).drop_last() =~= all.take(
                                        k as int,
                                    ));
                                    assert(all.take(k as int + 1).last() == all[k as int]);
                                    assert(all[k as int] == fragments@[k as int]@);
                                }
                                let snapshot = self.calls.merge(&fragments[k]);
                                shown.push(snapshot);
                                k = k + 1;
                            }
                            assert(all.take(k as int) =~= all);
                            assert(shown.deep_view() =~= snapshots(start, all));
                            content = Some(StreamContentDelta::ToolCallDelta(shown));
                        }
                    },
                    None => {},
                },
            }
        }
        match content {
            Some(delta) => Some(CompletionStreamChunk { delta, usage: None, finish_reason: None }),
            None => {
                if reason.is_some() || usage.is_some() {
                    Some(
                        CompletionStreamChunk {
                            delta: StreamContentDelta::Text(String::new()),
                            usage,
                            finish_reason: reason,
                        },
                    )
                } else {
                    None
                }
            },
        }
    }

    /// Takes one line of the body and hands back the chunk it yields and the
    /// error it raises.
    pub fn push_line(&mut self, line: &[u8]) -> (r: (
        Option<CompletionStreamChunk>,
        Option<ProviderError>,
    ))
        ensures
            final(self)@ == after_line(old(self)@, line@).stream,
            r.0.deep_view() == after_line(old(self)@, line@).chunk,
            r.1.deep_view() == after_line(old(self)@, line@).error,
    {
        if self.phase != StreamPhase::Open {
            return (None, None);
        }
        match classify_line(line) {
            SseEvent::Ignored => (None, None),
            SseEvent::Done => {
                self.phase = StreamPhase::Done;
                (None, None)
            },
            SseEvent::Frame(payload) => match parse_bytes(payload) {
                Ok(v) => match decode_stream_response(&v) {
                    Some(frame) => {
                        let chunk = self.apply_frame(frame);
                        (chunk, None)
                    },
                    None => {
                        self.phase = StreamPhase::Failed;
                        (
                            None,
                            Some(
                                ProviderError::ParseError(
                                    "OpenAI stream frame does not have the expected shape".to_owned(),
                                ),
                            ),
                        )
                    },
                },
                Err(e) => {
                    self.phase = StreamPhase::Failed;
                    (None, Some(ProviderError::ParseError(error_message(&e))))
                },
            },
        }
    }

    /// Takes the next bytes of the body and hands back what they yield: one
    /// chunk for each frame that shows something, in the order of the frames.
    /// Frames after the end marker, and after a frame that could not be read,
    /// yield nothing.
    pub fn push(&mut self, bytes: &[u8]) -> (r: StreamOutput)
        ensures
            final(self)@ == after_lines(old(self)@, lines_of(bytes@)).stream,
            r@ == after_lines(old(self)@, lines_of(bytes@)).output,
    {
        let lines = split_lines(bytes);
        let ghost all = lines_of(bytes@);
        let mut chunks: Vec<CompletionStreamChunk> = Vec::new();
        let mut error: Option<ProviderError> = None;
        let mut i: usize = 0;
        assert(all.take(0) =~= Seq::<Seq<u8>>::empty());
        while i < lines.len()
            invariant
                i <= lines@.len(),
                all == slice_views(lines@),
                self@ == after_lines(old(self)@, all.take(i as int)).stream,
                chunks.deep_view() == after_lines(old(self)@, all.take(i as int)).output.chunks,
                error.deep_view() == after_lines(old(self)@, all.take(i as int)).output.error,
            decreases lines@.len() - i,
        {
            proof {
                assert(all.take(i as int + 1).drop_last() =~= all.take(i as int));
                assert(all.take(i as int + 1).last() == lines@[i as int]@);
            }
            let ghost before = chunks.deep_view();
            let (chunk, failure) = self.push_line(lines[i]);
            match chunk {
                Some(c) => {
                    chunks.push(c);
                    assert(chunks.deep_view() =~= before.push(c@));
                },
                None => {},
            }
            if error.is_none() {
                error = failure;
            }
            i = i + 1;
        }
        assert(all.take(i as int) =~= all);
        StreamOutput { chunks, error }
    }
}


/// The fragment of arguments that a tool-call fragment carries; what is known
/// of a call's arguments, where the fragment stands for the call.
pub open spec fn fragment_arguments(f: ToolCallStreamDeltaView) -> Seq<char> {
    match f.function {
        Some(g) => match g.arguments {
            Some(a) => a,
            None => Seq::empty(),
        },
        None => Seq::empty(),
    }
}

/// The fragments of arguments of a sequence of tool-call fragments, joined in
/// order.
pub open spec fn joined_arguments(fragments: Seq<ToolCallStreamDeltaView>) -> Seq<char>
    decreases fragments.len(),
{
    if fragments.len() == 0 {
        Seq::empty()
    } else {
        joined_arguments(fragments.drop_last()) + fragment_arguments(fragments.last())
    }
}

/// What is known of a call's arguments.
pub open spec fn known_arguments(call: Option<ToolCallStreamDeltaView>) -> Seq<char> {
    match call {
        Some(c) => fragment_arguments(c),
        None => Seq::empty(),
    }
}

/// Whether a fragment leaves a call's identifier at `id`: it carries none, an
/// empty one, or `id` itself.
pub open spec fn keeps_id(f: ToolCallStreamDeltaView, id: Seq<char>) -> bool {
    match f.id {
        Some(s) => s.len() == 0 || s == id,
        None => true,
    }
}

/// Fragments of one call are joined, never overwritten: after a sequence of
/// fragments for the call at `index`, the arguments known of the call are
/// those known before, followed by the fragments' arguments in order.
pub proof fn lemma_arguments_accumulate(
    calls: Map<usize, ToolCallStreamDeltaView>,
    fragments: Seq<ToolCallStreamDeltaView>,
    index: usize,
)
    requires
        forall|k: int| 0 <= k < fragments.len() ==> (#[trigger] fragments[k]).index == index,
    ensures
        known_arguments(call_at(merged_calls(calls, fragments), index)) == known_arguments(
            call_at(calls, index),
        ) + joined_arguments(fragments),
        fragments.len() > 0 ==> merged_calls(calls, fragments).contains_key(index),
    decreases fragments.len(),
{
    if fragments.len() == 0 {
        assert(known_arguments(call_at(calls, index)) + Seq::<char>::empty()
            =~= known_arguments(call_at(calls, index)));
    } else {
        let rest = fragments.drop_last();
        let f = fragments.last();
        assert forall|k: int| 0 <= k < rest.len() implies (#[trigger] rest[k]).index == index by {
            assert(rest[k] == fragments[k]);
        }
        lemma_arguments_accumulate(calls, rest, index);
        let before = merged_calls(calls, rest);
        let known = known_arguments(call_at(before, index));
        assert(f.index == index);
        let after = merged(call_at(before, index), f);
        assert(merged_calls(calls, fragments) == before.insert(index, after));
        assert(fragment_arguments(after) =~= known + fragment_arguments(f));
        assert(known_arguments(call_at(calls, index)) + joined_arguments(rest)
            + fragment_arguments(f) =~= known_arguments(call_at(calls, index)) + (joined_arguments(
            rest,
        ) + fragment_arguments(f)));
    }
}

/// A call keeps the identifier that its first fragment gives it: where the
/// first fragment for the call at `index` carries the identifier `id` and
/// every later one leaves it, the identifier known of the call is `id`.
pub proof fn lemma_id_stable(
    calls: Map<usize, ToolCallStreamDeltaView>,
    fragments: Seq<ToolCallStreamDeltaView>,
    index: usize,
    id: Seq<char>,
)
    requires
        fragments.len() > 0,
        id.len() > 0,
        fragments[0].id == Some(id),
        forall|k: int| 0 <= k < fragments.len() ==> (#[trigger] fragments[k]).index == index,
        forall|k: int| 1 <= k < fragments.len() ==> keeps_id(#[trigger] fragments[k], id),
    ensures
        merged_calls(calls, fragments).contains_key(index),
        merged_calls(calls, fragments)[index].id == Some(id),
        merged_calls(calls, fragments)[index].index == index,
    decreases fragments.len(),
{
    let rest = fragments.drop_last();
    let f = fragments.last();
    let before = merged_calls(calls, rest);
    assert(f.index == index);
    assert(merged_calls(calls, fragments) == before.insert(
        index,
        merged(call_at(before, index), f),
    ));
    if fragments.len() > 1 {
        assert(rest[0] == fragments[0]);
        assert forall|k: int| 0 <= k < rest.len() implies (#[trigger] rest[k]).index == index by {
            assert(rest[k] == fragments[k]);
        }
        assert forall|k: int| 1 <= k < rest.len() implies keeps_id(#[trigger] rest[k], id) by {
            assert(rest[k] == fragments[k]);
        }
        lemma_id_stable(calls, rest, index, id);
        assert(keeps_id(fragments[fragments.len() - 1], id));
    } else {
        assert(f == fragments[0]);
    }
}


/// Merging fragments frame by frame is merging them all at once: what is known
/// after the fragments `first` and then the fragments `second` is what is
/// known after the fragments of both, in order.
pub proof fn lemma_merging_composes(
    calls: Map<usize, ToolCallStreamDeltaView>,
    first: Seq<ToolCallStreamDeltaView>,
    second: Seq<ToolCallStreamDeltaView>,
)
    ensures
        merged_calls(merged_calls(calls, first), second) == merged_calls(calls, first + second),
    decreases second.len(),
{
    if second.len() == 0 {
        assert(first + second =~= first);
    } else {
        lemma_merging_composes(calls, first, second.drop_last());
        assert((first + second).drop_last() =~= first + second.drop_last());
        assert((first + second).last() == second.last());
    }
}

/// The chunk of a frame shows each call as it stands once the fragment is
/// merged: the last entry shown is what is known of its call after the frame.
pub proof fn lemma_last_snapshot_is_current(
    calls: Map<usize, ToolCallStreamDeltaView>,
    fragments: Seq<ToolCallStreamDeltaView>,
)
    requires
        fragments.len() > 0,
    ensures
        merged_calls(calls, fragments).contains_key(fragments.last().index),
        snapshots(calls, fragments).last() == merged_calls(calls, fragments)[fragments.last().index],
{
    assert(fragments.take(fragments.len() - 1) =~= fragments.drop_last());
}

/// A stream that has ended or failed is silent: whatever lines follow, it
/// yields no chunk and no error, and stays as it is.
pub proof fn lemma_closed_stream_is_silent(stream: OpenAIStreamView, lines: Seq<Seq<u8>>)
    requires
        stream.phase != StreamPhase::Open,
    ensures
        after_lines(stream, lines).stream == stream,
        after_lines(stream, lines).output.chunks.len() == 0,
        after_lines(stream, lines).output.error is None,
    decreases lines.len(),
{
    if lines.len() > 0 {
        lemma_closed_stream_is_silent(stream, lines.drop_last());
    }
}

/// Chunks come in the order of their frames: what the lines `first` and then
/// the lines `second` yield is what `first` yields, followed by what `second`
/// yields to the stream that `first` left; and the error is the first that
/// was raised.
pub proof fn lemma_lines_compose(
    stream: OpenAIStreamView,
    first: Seq<Seq<u8>>,
    second: Seq<Seq<u8>>,
)
    ensures
        after_lines(stream, first + second).stream == after_lines(
            after_lines(stream, first).stream,
            second,
        ).stream,
        after_lines(stream, first + second).output.chunks == after_lines(
            stream,
            first,
        ).output.chunks + after_lines(after_lines(stream, first).stream, second).output.chunks,
        after_lines(stream, first + second).output.error == match after_lines(
            stream,
            first,
        ).output.error {
            Some(e) => Some(e),
            None => after_lines(after_lines(stream, first).stream, second).output.error,
        },
    decreases second.len(),
{
    let middle = after_lines(stream, first).stream;
    if second.len() == 0 {
        assert(first + second =~= first);
        assert(after_lines(stream, first).output.chunks + Seq::<
            CompletionStreamChunkView,
        >::empty() =~= after_lines(stream, first).output.chunks);
    } else {
        lemma_lines_compose(stream, first, second.drop_last());
        assert((first + second).drop_last() =~= first + second.drop_last());
        assert((first + second).last() == second.last());
        let before = after_lines(middle, second.drop_last());
        let step = after_line(before.stream, second.last());
        match step.chunk {
            Some(c) => {
                assert((after_lines(stream, first).output.chunks + before.output.chunks).push(c)
                    =~= after_lines(stream, first).output.chunks + before.output.chunks.push(c));
            },
            None => {},
        }
    }
}

} // verus!
