//! The two executors behind one request-construction path.  The
//! streaming executor turns the provider's chunk sequence into an
//! ordered, finite sequence of completion deltas, one item per chunk,
//! ended early by the first chunk error.  The batch executor combines
//! the model's single completion with the collector's accumulated stop
//! reason and tool-call record into one aggregated response, or fails as
//! a unit.  The branch between them is a tagged result, statically
//! distinguishable by callers.

use vstd::prelude::*;

use crate::chat_completion::CompletionModelDefinition;
use crate::chat_completion::ExecutionMode;
use crate::events::CollectorState;
use crate::events::CollectorStateView;
use crate::events::ToolCall;
use crate::events::ToolCallView;
use crate::types::CompletionModelUsage;
use crate::types::GatewayApiError;
use crate::types::GatewayApiErrorView;

verus! {

/// One incremental fragment of a streamed completion.
#[derive(PartialEq, Eq, Debug)]
pub struct ChatCompletionDelta {
    pub content: String,
}

#[verifier::ext_equal]
pub struct ChatCompletionDeltaView {
    pub content: Seq<char>,
}

impl View for ChatCompletionDelta {
    type V = ChatCompletionDeltaView;

    open spec fn view(&self) -> ChatCompletionDeltaView {
        ChatCompletionDeltaView { content: self.content@ }
    }
}

/// One chunk as received from the upstream provider: content, usage,
/// both, or neither.
#[derive(PartialEq, Eq, Debug)]
pub struct ChatCompletionChunk {
    pub content: Option<String>,
    pub usage: Option<CompletionModelUsage>,
}

#[verifier::ext_equal]
pub struct ChatCompletionChunkView {
    pub content: Option<Seq<char>>,
    pub usage: Option<CompletionModelUsage>,
}

impl View for ChatCompletionChunk {
    type V = ChatCompletionChunkView;

    open spec fn view(&self) -> ChatCompletionChunkView {
        ChatCompletionChunkView { content: self.content.deep_view(), usage: self.usage }
    }
}

/// What one poll of the upstream stream produced: a chunk, or the
/// provider's error.
#[derive(PartialEq, Eq, Debug)]
pub enum ChunkOutcome {
    Chunk(ChatCompletionChunk),
    Failed(String),
}

#[verifier::ext_equal]
pub enum ChunkOutcomeView {
    Chunk(ChatCompletionChunkView),
    Failed(Seq<char>),
}

impl View for ChunkOutcome {
    type V = ChunkOutcomeView;

    open spec fn view(&self) -> ChunkOutcomeView {
        match self {
            ChunkOutcome::Chunk(c) => ChunkOutcomeView::Chunk(c@),
            ChunkOutcome::Failed(msg) => ChunkOutcomeView::Failed(msg@),
        }
    }
}

impl DeepView for ChunkOutcome {
    type V = ChunkOutcomeView;

    open spec fn deep_view(&self) -> ChunkOutcomeView {
        self.view()
    }
}

/// One item of the produced stream: a delta/usage pair, or the surfaced
/// error that ends the stream.
#[derive(PartialEq, Eq, Debug)]
pub enum StreamItem {
    Item(Option<ChatCompletionDelta>, Option<CompletionModelUsage>),
    Failed(GatewayApiError),
}

#[verifier::ext_equal]
pub enum StreamItemView {
    Item(Option<ChatCompletionDeltaView>, Option<CompletionModelUsage>),
    Failed(GatewayApiErrorView),
}

impl View for StreamItem {
    type V = StreamItemView;

    open spec fn view(&self) -> StreamItemView {
        match self {
            StreamItem::Item(delta, usage) => StreamItemView::Item(
                match delta {
                    Some(d) => Some(d@),
                    None => None,
                },
                *usage,
            ),
            StreamItem::Failed(e) => StreamItemView::Failed(e@),
        }
    }
}

impl DeepView for StreamItem {
    type V = StreamItemView;

    open spec fn deep_view(&self) -> StreamItemView {
        self.view()
    }
}

/// The delta a successful chunk carries, if any.
pub open spec fn delta_of(c: ChatCompletionChunkView) -> Option<ChatCompletionDeltaView> {
    match c.content {
        Some(t) => Some(ChatCompletionDeltaView { content: t }),
        None => None,
    }
}

/// The stream item one successful chunk maps to.
pub open spec fn stream_item_of(c: ChatCompletionChunkView) -> StreamItemView {
    StreamItemView::Item(delta_of(c), c.usage)
}

/// The items the streaming executor produces for a received chunk
/// sequence: one item per successful chunk, in order; the first chunk
/// error is surfaced as one final item and nothing follows it.
pub open spec fn stream_items_spec(chunks: Seq<ChunkOutcomeView>) -> Seq<StreamItemView>
    decreases chunks.len(),
{
    if chunks.len() == 0 {
        Seq::empty()
    } else {
        match chunks.first() {
            ChunkOutcomeView::Chunk(c) => seq![stream_item_of(c)] + stream_items_spec(
                chunks.drop_first(),
            ),
            ChunkOutcomeView::Failed(msg) => seq![
                StreamItemView::Failed(GatewayApiErrorView::UpstreamError(msg)),
            ],
        }
    }
}

/// Maps the received provider chunks to the produced stream, in order.
/// Everything already produced before a chunk error stands; the error
/// itself is the last item.
pub fn stream_chunks(received: &Vec<ChunkOutcome>) -> (items: Vec<StreamItem>)
    ensures
        items.deep_view() == stream_items_spec(received.deep_view()),
{
    let ghost all = received.deep_view();
    let mut out: Vec<StreamItem> = Vec::new();
    let mut i: usize = 0;
    proof {
        assert(out.deep_view() =~= Seq::<StreamItemView>::empty());
        assert(all.skip(0) =~= all);
        assert(out.deep_view() + stream_items_spec(all) =~= stream_items_spec(all));
    }
    while i < received.len()
        invariant
            i <= received.len(),
            all == received.deep_view(),
            all.len() == received@.len(),
            out.deep_view().len() == i as int,
            stream_items_spec(all) == out.deep_view() + stream_items_spec(all.skip(i as int)),
        decreases received.len() - i,
    {
        let ghost rest = all.skip(i as int);
        proof {
            assert(rest.len() == all.len() - i);
            assert(rest.first() == all[i as int]);
            assert(all[i as int] == received@[i as int]@);
            assert(rest.drop_first() =~= all.skip(i as int + 1));
        }
        let ghost prev = out.deep_view();
        match &received[i] {
            ChunkOutcome::Chunk(c) => {
                let delta = match &c.content {
                    Some(t) => Some(ChatCompletionDelta { content: t.clone() }),
                    None => None,
                };
                let item = StreamItem::Item(delta, c.usage);
                proof {
                    assert(item@ =~= stream_item_of(c@));
                }
                out.push(item);
                proof {
                    assert(out.deep_view() =~= prev.push(stream_item_of(c@)));
                    assert(prev.push(stream_item_of(c@)) =~= prev + seq![stream_item_of(c@)]);
                    assert(out.deep_view() + stream_items_spec(all.skip(i as int + 1)) =~= prev
                        + stream_items_spec(rest));
                }
            },
            ChunkOutcome::Failed(msg) => {
                let item = StreamItem::Failed(GatewayApiError::UpstreamError(msg.clone()));
                proof {
                    assert(item@ =~= StreamItemView::Failed(
                        GatewayApiErrorView::UpstreamError(msg@),
                    ));
                }
                out.push(item);
                proof {
                    assert(out.deep_view() =~= prev + stream_items_spec(rest));
                }
                return out;
            },
        }
        i = i + 1;
    }
    proof {
        assert(all.skip(all.len() as int) =~= Seq::<ChunkOutcomeView>::empty());
        assert(out.deep_view() =~= stream_items_spec(all));
    }
    out
}

/// Every received chunk, up to and including a first failure, produces
/// exactly one item: a stream over a finite chunk sequence is finite,
/// and an error-free one has exactly one item per chunk.
pub proof fn lemma_stream_item_count(chunks: Seq<ChunkOutcomeView>)
    ensures
        stream_items_spec(chunks).len() <= chunks.len(),
        (forall|i: int| 0 <= i < chunks.len() ==> chunks[i] is Chunk) ==> stream_items_spec(
            chunks,
        ).len() == chunks.len(),
    decreases chunks.len(),
{
    if chunks.len() > 0 {
        lemma_stream_item_count(chunks.drop_first());
        if forall|i: int| 0 <= i < chunks.len() ==> chunks[i] is Chunk {
            assert forall|i: int| 0 <= i < chunks.drop_first().len() implies chunks.drop_first()[i]
                is Chunk by {
                assert(chunks.drop_first()[i] == chunks[i + 1]);
            }
        }
    }
}

/// What the model instance returned on the batch path.
#[derive(PartialEq, Eq, Debug)]
pub struct CompletionOutput {
    pub content: String,
    pub usage: Option<CompletionModelUsage>,
}

#[verifier::ext_equal]
pub struct CompletionOutputView {
    pub content: Seq<char>,
    pub usage: Option<CompletionModelUsage>,
}

impl View for CompletionOutput {
    type V = CompletionOutputView;

    open spec fn view(&self) -> CompletionOutputView {
        CompletionOutputView { content: self.content@, usage: self.usage }
    }
}

/// The one aggregated response of a batch request.
#[derive(PartialEq, Eq, Debug)]
pub struct ChatCompletionResponse {
    pub model: String,
    pub content: String,
    pub usage: Option<CompletionModelUsage>,
    pub finish_reason: Option<String>,
    pub tool_calls: Option<Vec<ToolCall>>,
}

#[verifier::ext_equal]
pub struct ChatCompletionResponseView {
    pub model: Seq<char>,
    pub content: Seq<char>,
    pub usage: Option<CompletionModelUsage>,
    pub finish_reason: Option<Seq<char>>,
    pub tool_calls: Option<Seq<ToolCallView>>,
}

impl View for ChatCompletionResponse {
    type V = ChatCompletionResponseView;

    open spec fn view(&self) -> ChatCompletionResponseView {
        ChatCompletionResponseView {
            model: self.model@,
            content: self.content@,
            usage: self.usage,
            finish_reason: self.finish_reason.deep_view(),
            tool_calls: match &self.tool_calls {
                Some(v) => Some(v.deep_view()),
                None => None,
            },
        }
    }
}

/// The aggregated response assembled from the model's output and the
/// collector's accumulated record.
pub open spec fn aggregated_response_spec(
    model: Seq<char>,
    out: CompletionOutputView,
    collected: CollectorStateView,
) -> ChatCompletionResponseView {
    ChatCompletionResponseView {
        model,
        content: out.content,
        usage: out.usage,
        finish_reason: match collected.stop_event {
            Some(stop) => Some(stop.reason),
            None => None,
        },
        tool_calls: collected.tool_calls,
    }
}

/// Drives the batch path to its single outcome: one aggregated response
/// combining model output, usage and the collector's accumulated stop
/// reason and tool-call record, or — when the provider failed — exactly
/// one error and nothing partial.
pub fn execute_batch(
    definition: &CompletionModelDefinition,
    invoke: Result<CompletionOutput, String>,
    collected: CollectorState,
) -> (r: Result<ChatCompletionResponse, GatewayApiError>)
    ensures
        match invoke {
            Ok(out) => r matches Ok(resp) && resp@ == aggregated_response_spec(
                definition@.name,
                out@,
                collected@,
            ),
            Err(msg) => r matches Err(e) && e@ == GatewayApiErrorView::UpstreamError(msg@),
        },
{
    match invoke {
        Ok(out) => {
            let ghost outv = out@;
            let resp = ChatCompletionResponse {
                model: definition.name.clone(),
                content: out.content,
                usage: out.usage,
                finish_reason: match collected.stop_event {
                    Some(stop) => Some(stop.reason),
                    None => None,
                },
                tool_calls: collected.tool_calls,
            };
            proof {
                assert(resp@ =~= aggregated_response_spec(definition@.name, outv, collected@));
            }
            Ok(resp)
        },
        Err(msg) => Err(GatewayApiError::UpstreamError(msg)),
    }
}

/// The plain-value record of what the upstream provider did for one
/// request: the received chunk sequence on the streaming path, or the
/// single completion outcome on the batch path.
#[derive(PartialEq, Eq, Debug)]
pub enum UpstreamTranscript {
    Chunks(Vec<ChunkOutcome>),
    Completed(Result<CompletionOutput, String>),
}

/// The one response of a request: a streamed item sequence or a single
/// aggregated response — never both.
#[derive(PartialEq, Eq, Debug)]
pub enum CompletionExecutionResult {
    Streamed(Vec<StreamItem>),
    Aggregated(ChatCompletionResponse),
}

/// Finishes one request on the protocol it asked for.  A streaming
/// request always yields the streamed item sequence (chunk errors stay
/// inside it, past items stand); a batch request yields exactly one
/// aggregated response or exactly one error.
pub fn finish_completion(
    definition: &CompletionModelDefinition,
    mode: ExecutionMode,
    transcript: UpstreamTranscript,
    collected: CollectorState,
) -> (r: Result<CompletionExecutionResult, GatewayApiError>)
    requires
        mode == ExecutionMode::Streaming <==> transcript matches UpstreamTranscript::Chunks(_),
    ensures
        mode == ExecutionMode::Streaming ==> (transcript matches UpstreamTranscript::Chunks(
            chunks,
        ) && r matches Ok(CompletionExecutionResult::Streamed(items)) && items.deep_view()
            == stream_items_spec(chunks.deep_view())),
        mode == ExecutionMode::Batch ==> (transcript matches UpstreamTranscript::Completed(invoke)
            && match invoke {
            Ok(out) => r matches Ok(CompletionExecutionResult::Aggregated(resp)) && resp@
                == aggregated_response_spec(definition@.name, out@, collected@),
            Err(msg) => r matches Err(e) && e@ == GatewayApiErrorView::UpstreamError(msg@),
        }),
{
    match transcript {
        UpstreamTranscript::Chunks(chunks) => {
            let items = stream_chunks(&chunks);
            Ok(CompletionExecutionResult::Streamed(items))
        },
        UpstreamTranscript::Completed(invoke) => {
            match execute_batch(definition, invoke, collected) {
                Ok(resp) => Ok(CompletionExecutionResult::Aggregated(resp)),
                Err(e) => Err(e),
            }
        },
    }
}

} // verus!
