use llm_gateway::chat_completion::prepare_chat_completion;
use llm_gateway::chat_completion::ExecutionMode;
use llm_gateway::embeddings::Input;
use llm_gateway::events::collect_events;
use llm_gateway::events::LlmStopEvent;
use llm_gateway::events::ModelEvent;
use llm_gateway::events::ModelEventType;
use llm_gateway::events::ToolCall;
use llm_gateway::executor::execute_batch;
use llm_gateway::executor::finish_completion;
use llm_gateway::executor::ChatCompletionChunk;
use llm_gateway::executor::ChunkOutcome;
use llm_gateway::executor::CompletionExecutionResult;
use llm_gateway::executor::CompletionOutput;
use llm_gateway::executor::StreamItem;
use llm_gateway::executor::UpstreamTranscript;
use llm_gateway::messages::ChatCompletionMessage;
use llm_gateway::messages::MessageContent;
use llm_gateway::types::AvailableModels;
use llm_gateway::types::CompletionModelUsage;
use llm_gateway::types::Credentials;
use llm_gateway::types::GatewayApiError;
use llm_gateway::types::InferenceProvider;
use llm_gateway::types::LlmModelDefinition;
use llm_gateway::types::ModelType;
use llm_gateway::types::ProviderKind;

fn gpt4_binding() -> LlmModelDefinition {
    LlmModelDefinition {
        model: String::from("openai/gpt-4"),
        model_provider: ProviderKind::OpenAi,
        inference_provider: InferenceProvider {
            provider: ProviderKind::OpenAi,
            model_name: String::from("gpt-4"),
            endpoint: None,
        },
    }
}

fn catalogue() -> AvailableModels {
    AvailableModels(vec![gpt4_binding()])
}

fn user_message(text: &str) -> ChatCompletionMessage {
    ChatCompletionMessage {
        role: String::from("user"),
        content: Some(MessageContent::Text(String::from(text))),
    }
}

fn request(stream: Option<bool>) -> llm_gateway::chat_completion::ChatCompletionRequest {
    llm_gateway::chat_completion::ChatCompletionRequest {
        model: String::from("openai/gpt-4"),
        messages: vec![user_message("hello"), user_message("how are you")],
        tools: None,
        stream,
    }
}

#[test]
fn batch_request_returns_one_aggregated_response() {
    let models = catalogue();
    let prepared = prepare_chat_completion(request(Some(false)), &models, None).unwrap();
    assert_eq!(prepared.mode, ExecutionMode::Batch);
    assert_eq!(prepared.definition.name, String::from("gpt-4"));
    assert_eq!(prepared.request.model, String::from("gpt-4"));
    assert_eq!(prepared.messages.len(), 2);

    let events = vec![
        ModelEvent { event: ModelEventType::LlmStart },
        ModelEvent {
            event: ModelEventType::LlmStop(LlmStopEvent {
                reason: String::from("stop"),
                usage: Some(CompletionModelUsage {
                    input_tokens: 10,
                    output_tokens: 5,
                    total_tokens: 15,
                }),
            }),
        },
    ];
    let (collected, delivered) = collect_events(&events, &prepared.definition.db_model);
    assert_eq!(delivered.len(), 2);

    let invoke = Ok(CompletionOutput {
        content: String::from("fine, thanks"),
        usage: Some(CompletionModelUsage { input_tokens: 10, output_tokens: 5, total_tokens: 15 }),
    });
    let response = execute_batch(&prepared.definition, invoke, collected).unwrap();
    assert_eq!(response.model, String::from("gpt-4"));
    assert_eq!(response.content, String::from("fine, thanks"));
    assert_eq!(response.tool_calls, None);
    assert_eq!(response.finish_reason, Some(String::from("stop")));
}

#[test]
fn batch_upstream_error_aborts_whole_call() {
    let models = catalogue();
    let prepared = prepare_chat_completion(request(None), &models, None).unwrap();
    let (collected, _) = collect_events(&vec![], &prepared.definition.db_model);
    let result = execute_batch(
        &prepared.definition,
        Err(String::from("provider unavailable")),
        collected,
    );
    assert_eq!(
        result,
        Err(GatewayApiError::UpstreamError(String::from("provider unavailable")))
    );
}

#[test]
fn streaming_request_yields_ordered_deltas_then_usage() {
    let models = catalogue();
    let prepared = prepare_chat_completion(request(Some(true)), &models, None).unwrap();
    assert_eq!(prepared.mode, ExecutionMode::Streaming);

    let chunks = vec![
        ChunkOutcome::Chunk(ChatCompletionChunk {
            content: Some(String::from("fi")),
            usage: None,
        }),
        ChunkOutcome::Chunk(ChatCompletionChunk {
            content: Some(String::from("ne")),
            usage: None,
        }),
        ChunkOutcome::Chunk(ChatCompletionChunk {
            content: None,
            usage: Some(CompletionModelUsage {
                input_tokens: 10,
                output_tokens: 2,
                total_tokens: 12,
            }),
        }),
    ];
    let (collected, _) = collect_events(&vec![], &prepared.definition.db_model);
    let result = finish_completion(
        &prepared.definition,
        prepared.mode,
        UpstreamTranscript::Chunks(chunks),
        collected,
    )
    .unwrap();
    match result {
        CompletionExecutionResult::Streamed(items) => {
            assert_eq!(items.len(), 3);
            match &items[0] {
                StreamItem::Item(Some(delta), None) => {
                    assert_eq!(delta.content, String::from("fi"));
                }
                other => panic!("unexpected first item: {:?}", other),
            }
            match &items[1] {
                StreamItem::Item(Some(delta), None) => {
                    assert_eq!(delta.content, String::from("ne"));
                }
                other => panic!("unexpected second item: {:?}", other),
            }
            match &items[2] {
                StreamItem::Item(None, Some(usage)) => {
                    assert_eq!(usage.total_tokens, 12);
                }
                other => panic!("unexpected final item: {:?}", other),
            }
        }
        CompletionExecutionResult::Aggregated(_) => panic!("streaming request aggregated"),
    }
}

#[test]
fn stream_error_ends_stream_and_keeps_prior_items() {
    let models = catalogue();
    let prepared = prepare_chat_completion(request(Some(true)), &models, None).unwrap();
    let chunks = vec![
        ChunkOutcome::Chunk(ChatCompletionChunk {
            content: Some(String::from("par")),
            usage: None,
        }),
        ChunkOutcome::Failed(String::from("connection reset")),
        ChunkOutcome::Chunk(ChatCompletionChunk {
            content: Some(String::from("never delivered")),
            usage: None,
        }),
    ];
    let items = llm_gateway::executor::stream_chunks(&chunks);
    assert_eq!(items.len(), 2);
    assert!(matches!(&items[0], StreamItem::Item(Some(_), None)));
    assert_eq!(
        items[1],
        StreamItem::Failed(GatewayApiError::UpstreamError(String::from("connection reset")))
    );
}

#[test]
fn unknown_model_fails_before_anything_is_prepared() {
    let models = catalogue();
    let mut req = request(Some(false));
    req.model = String::from("unknown/model");
    let result = prepare_chat_completion(req, &models, None);
    match result {
        Err(GatewayApiError::ModelNotFound(name)) => {
            assert_eq!(name, String::from("unknown/model"));
        }
        other => panic!("expected ModelNotFound, got {:?}", other.is_ok()),
    }
}

#[test]
fn tool_start_event_is_accumulated_once() {
    let models = catalogue();
    let mut req = request(Some(true));
    req.tools = Some(vec![llm_gateway::tools::ToolDefinition {
        function: llm_gateway::tools::ToolFunction {
            name: String::from("lookup"),
            description: Some(String::from("looks a record up")),
            parameters: None,
        },
    }]);
    let prepared = prepare_chat_completion(req, &models, None).unwrap();
    assert!(prepared.tools_map.get(&String::from("lookup")).is_some());

    let call = ToolCall {
        tool_id: String::from("call-1"),
        tool_name: String::from("lookup"),
        input: String::from("{\"key\":\"k1\"}"),
    };
    let events = vec![
        ModelEvent { event: ModelEventType::LlmStart },
        ModelEvent { event: ModelEventType::ToolStart(call.clone()) },
        ModelEvent {
            event: ModelEventType::LlmStop(LlmStopEvent {
                reason: String::from("tool_calls"),
                usage: None,
            }),
        },
    ];
    let (collected, delivered) = collect_events(&events, &prepared.definition.db_model);
    assert_eq!(delivered.len(), 3);
    assert_eq!(collected.tool_calls, Some(vec![call]));
}

#[test]
fn prepared_user_id_is_a_hyphenated_identifier() {
    let models = catalogue();
    let prepared = prepare_chat_completion(request(None), &models, None).unwrap();
    assert_eq!(prepared.user_id.chars().count(), 36);
    for message in &prepared.messages {
        assert_eq!(message.user_id, prepared.user_id);
        assert_eq!(message.model, String::from("gpt-4"));
    }
}

#[test]
fn credentials_flow_into_engine_and_metadata() {
    let models = catalogue();
    let prepared = prepare_chat_completion(
        request(None),
        &models,
        Some(Credentials::ApiKey(String::from("SECRET-REDACTED"))),
    )
    .unwrap();
    assert_eq!(
        prepared.definition.model_params.engine.credentials,
        Some(Credentials::ApiKey(String::from("SECRET-REDACTED")))
    );
    assert_eq!(
        prepared.definition.db_model.credentials,
        Some(Credentials::ApiKey(String::from("SECRET-REDACTED")))
    );
    assert_eq!(prepared.definition.db_model.model_type, ModelType::Completions);
}

#[test]
fn mapping_failure_aborts_whole_request() {
    let models = catalogue();
    let mut req = request(None);
    req.messages.push(ChatCompletionMessage {
        role: String::from("moderator"),
        content: Some(MessageContent::Text(String::from("hi"))),
    });
    let result = prepare_chat_completion(req, &models, None);
    assert!(matches!(result, Err(GatewayApiError::MessageMappingError(_))));
}

#[test]
fn embedding_input_variants_are_kept() {
    // The embeddings path hands its input through untouched.
    let binding = gpt4_binding();
    let prepared = llm_gateway::embeddings::prepare_embeddings_invoke(
        llm_gateway::embeddings::CreateEmbeddingRequest {
            model: String::from("openai/gpt-4"),
            input: Input::Array(vec![String::from("a"), String::from("b")]),
            dimensions: Some(64),
        },
        &binding,
        None,
    );
    assert_eq!(prepared.request.input, Input::Array(vec![String::from("a"), String::from("b")]));
    assert_eq!(prepared.request.model, String::from("gpt-4"));
    assert_eq!(prepared.params.dimensions, Some(64));
}
