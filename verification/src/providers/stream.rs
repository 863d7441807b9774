//! What the two adapters share when they read a streamed body.

use vstd::prelude::*;
use crate::traits::{
    CompletionStreamChunk, CompletionStreamChunkView, ProviderError, ProviderErrorView,
};

verus! {

/// Where a stream stands. A stream is open until its end is seen or a frame
/// cannot be read; from then on it yields nothing.
#[derive(Debug, Clone, Copy, PartialEq, Eq, Structural)]
pub enum StreamPhase {
    /// Frames are being read.
    Open,
    /// The end of the stream was seen.
    Done,
    /// A frame could not be read.
    Failed,
}

/// What a chunk of the body yields: the stream chunks of its frames, in order,
/// and the error that ended the stream, if one did.
#[derive(Debug)]
pub struct StreamOutput {
    /// The chunks to hand to the caller, in order.
    pub chunks: Vec<CompletionStreamChunk>,
    /// The error to hand to the caller after the chunks.
    pub error: Option<ProviderError>,
}

/// The content of a [`StreamOutput`].
pub struct StreamOutputView {
    pub chunks: Seq<CompletionStreamChunkView>,
    pub error: Option<ProviderErrorView>,
}

impl View for StreamOutput {
    type V = StreamOutputView;

    open spec fn view(&self) -> StreamOutputView {
        StreamOutputView { chunks: self.chunks.deep_view(), error: self.error.deep_view() }
    }
}

} // verus!
