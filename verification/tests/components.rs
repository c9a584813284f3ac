use llm_gateway::events::collect_events;
use llm_gateway::events::collector_step;
use llm_gateway::events::CollectorState;
use llm_gateway::events::LlmFirstToken;
use llm_gateway::events::LlmStopEvent;
use llm_gateway::events::ModelEvent;
use llm_gateway::events::ModelEventType;
use llm_gateway::messages::ChatCompletionMessage;
use llm_gateway::messages::ContentPart;
use llm_gateway::messages::InternalRole;
use llm_gateway::messages::MessageContent;
use llm_gateway::messages::MessageMapper;
use llm_gateway::registry::find_model_by_full_name;
use llm_gateway::tools::build_tool_capability_map;
use llm_gateway::tools::build_tool_descriptors;
use llm_gateway::tools::ToolDefinition;
use llm_gateway::tools::ToolFunction;
use llm_gateway::types::AvailableModels;
use llm_gateway::types::Credentials;
use llm_gateway::types::GatewayApiError;
use llm_gateway::types::InferenceProvider;
use llm_gateway::types::LlmModelDefinition;
use llm_gateway::types::ModelType;
use llm_gateway::types::Prompt;
use llm_gateway::types::ProviderKind;

fn binding(full_name: &str, upstream: &str, provider: ProviderKind) -> LlmModelDefinition {
    LlmModelDefinition {
        model: String::from(full_name),
        model_provider: provider,
        inference_provider: InferenceProvider {
            provider,
            model_name: String::from(upstream),
            endpoint: None,
        },
    }
}

fn tool(name: &str) -> ToolDefinition {
    ToolDefinition {
        function: ToolFunction {
            name: String::from(name),
            description: None,
            parameters: None,
        },
    }
}

#[test]
fn resolution_finds_exact_name_only() {
    let models = AvailableModels(vec![
        binding("openai/gpt-4", "gpt-4", ProviderKind::OpenAi),
        binding("acme/raven", "raven-large", ProviderKind::Anthropic),
    ]);
    let found = find_model_by_full_name(&String::from("acme/raven"), &models).unwrap();
    assert_eq!(found.inference_provider.model_name, String::from("raven-large"));

    let missing = find_model_by_full_name(&String::from("acme/rave"), &models);
    assert_eq!(
        missing,
        Err(GatewayApiError::ModelNotFound(String::from("acme/rave")))
    );
}

#[test]
fn resolution_is_idempotent_on_the_same_catalogue() {
    let models = AvailableModels(vec![
        binding("openai/gpt-4", "gpt-4", ProviderKind::OpenAi),
    ]);
    let first = find_model_by_full_name(&String::from("openai/gpt-4"), &models).unwrap();
    let second = find_model_by_full_name(&String::from("openai/gpt-4"), &models).unwrap();
    assert_eq!(first, second);
}

#[test]
fn resolution_returns_first_of_equally_named_entries() {
    let models = AvailableModels(vec![
        binding("openai/gpt-4", "gpt-4-first", ProviderKind::OpenAi),
        binding("openai/gpt-4", "gpt-4-second", ProviderKind::OpenAi),
    ]);
    let found = find_model_by_full_name(&String::from("openai/gpt-4"), &models).unwrap();
    assert_eq!(found.inference_provider.model_name, String::from("gpt-4-first"));
}

#[test]
fn duplicate_tool_names_last_wins_in_mapping_but_both_descriptors_stay() {
    let declared = Some(vec![
        ToolDefinition {
            function: ToolFunction {
                name: String::from("lookup"),
                description: Some(String::from("first declaration")),
                parameters: None,
            },
        },
        ToolDefinition {
            function: ToolFunction {
                name: String::from("lookup"),
                description: Some(String::from("second declaration")),
                parameters: None,
            },
        },
    ]);
    let map = build_tool_capability_map(&declared);
    let capability = map.get(&String::from("lookup")).unwrap();
    assert_eq!(
        capability.def.function.description,
        Some(String::from("second declaration"))
    );
    assert!(map.get(&String::from("other")).is_none());

    let descriptors = build_tool_descriptors(&declared);
    assert_eq!(descriptors.0.len(), 2);
    assert_eq!(descriptors.0[0].description, Some(String::from("first declaration")));
    assert_eq!(descriptors.0[1].description, Some(String::from("second declaration")));
    assert_eq!(descriptors.0[0].name, String::from("lookup"));
    assert_eq!(descriptors.0[1].name, String::from("lookup"));
}

#[test]
fn descriptors_carry_no_bound_arguments() {
    let declared = Some(vec![tool("a"), tool("b")]);
    let descriptors = build_tool_descriptors(&declared);
    assert_eq!(descriptors.0.len(), 2);
    assert!(descriptors.0[0].passed_args.is_empty());
    assert_eq!(build_tool_descriptors(&None).0.len(), 0);
}

#[test]
fn message_mapping_flattens_text_parts() {
    let message = ChatCompletionMessage {
        role: String::from("user"),
        content: Some(MessageContent::Parts(vec![
            ContentPart::Text(String::from("see ")),
            ContentPart::Text(String::from("spot run")),
        ])),
    };
    let mapped = MessageMapper::map_completions_message(
        &message,
        &String::from("gpt-4"),
        &String::from("user-1"),
    )
    .unwrap();
    assert_eq!(mapped.role, InternalRole::User);
    assert_eq!(mapped.content, String::from("see spot run"));
    assert_eq!(mapped.model, String::from("gpt-4"));
    assert_eq!(mapped.user_id, String::from("user-1"));
}

#[test]
fn message_mapping_rejects_image_parts_and_unknown_roles() {
    let image = ChatCompletionMessage {
        role: String::from("user"),
        content: Some(MessageContent::Parts(vec![
            ContentPart::Text(String::from("look:")),
            ContentPart::ImageUrl(String::from("https://example.test/cat.png")),
        ])),
    };
    let result = MessageMapper::map_completions_message(
        &image,
        &String::from("gpt-4"),
        &String::from("user-1"),
    );
    assert!(matches!(result, Err(GatewayApiError::MessageMappingError(_))));

    let unknown = ChatCompletionMessage { role: String::from("narrator"), content: None };
    let result = MessageMapper::map_completions_message(
        &unknown,
        &String::from("gpt-4"),
        &String::from("user-1"),
    );
    assert!(matches!(result, Err(GatewayApiError::MessageMappingError(_))));
}

#[test]
fn message_without_content_maps_to_empty_text() {
    let message = ChatCompletionMessage { role: String::from("assistant"), content: None };
    let mapped = MessageMapper::map_completions_message(
        &message,
        &String::from("gpt-4"),
        &String::from("user-1"),
    )
    .unwrap();
    assert_eq!(mapped.role, InternalRole::Assistant);
    assert_eq!(mapped.content, String::new());
}

#[test]
fn collector_keeps_latest_stop_event_and_first_token_latency() {
    let model = llm_gateway::types::Model {
        name: String::from("gpt-4"),
        description: None,
        provider_name: String::from("openai"),
        prompt_name: None,
        model_params: Vec::new(),
        execution_options: llm_gateway::types::ExecutionOptions { timeout_ms: None },
        input_args: llm_gateway::types::InputArgs(Vec::new()),
        tools: llm_gateway::types::ModelTools(Vec::new()),
        model_type: ModelType::Completions,
        response_schema: None,
        credentials: None,
    };
    let events = vec![
        ModelEvent {
            event: ModelEventType::LlmFirstToken(LlmFirstToken { ttft: 120 }),
        },
        ModelEvent {
            event: ModelEventType::LlmStop(LlmStopEvent {
                reason: String::from("length"),
                usage: None,
            }),
        },
        ModelEvent {
            event: ModelEventType::LlmStop(LlmStopEvent {
                reason: String::from("stop"),
                usage: None,
            }),
        },
    ];
    let (collected, delivered) = collect_events(&events, &model);
    assert_eq!(collected.ttft, Some(120));
    assert_eq!(
        collected.stop_event,
        Some(LlmStopEvent { reason: String::from("stop"), usage: None })
    );
    assert_eq!(collected.tool_calls, None);

    assert_eq!(delivered.len(), 3);
    for (delivered_event, emitted) in delivered.iter().zip(events.iter()) {
        assert_eq!(&delivered_event.event, emitted);
        assert_eq!(delivered_event.model, model);
    }
}

#[test]
fn collector_step_passes_content_events_through() {
    let model = llm_gateway::types::Model {
        name: String::from("gpt-4"),
        description: None,
        provider_name: String::from("openai"),
        prompt_name: None,
        model_params: Vec::new(),
        execution_options: llm_gateway::types::ExecutionOptions { timeout_ms: None },
        input_args: llm_gateway::types::InputArgs(Vec::new()),
        tools: llm_gateway::types::ModelTools(Vec::new()),
        model_type: ModelType::Completions,
        response_schema: None,
        credentials: None,
    };
    let event = ModelEvent { event: ModelEventType::LlmContent(String::from("hi")) };
    let (state, forwarded) = collector_step(CollectorState::new(), &event, &model);
    assert_eq!(state, CollectorState::new());
    assert_eq!(forwarded.event, event);
    assert_eq!(forwarded.model, model);
}

#[test]
fn provider_labels_are_lower_case() {
    assert_eq!(ProviderKind::OpenAi.label(), String::from("openai"));
    assert_eq!(ProviderKind::Anthropic.label(), String::from("anthropic"));
    assert_eq!(ProviderKind::Gemini.label(), String::from("gemini"));
    assert_eq!(ProviderKind::Bedrock.label(), String::from("bedrock"));
}

#[test]
fn empty_prompt_is_empty() {
    assert_eq!(Prompt::empty().text, String::new());
}

#[test]
fn embeddings_api_key_comes_from_credentials_only() {
    let model = binding("openai/ada", "text-embedding-ada-002", ProviderKind::OpenAi);
    let with_key = llm_gateway::embeddings::prepare_embeddings_invoke(
        llm_gateway::embeddings::CreateEmbeddingRequest {
            model: String::from("openai/ada"),
            input: llm_gateway::embeddings::Input::Text(String::from("embed me")),
            dimensions: None,
        },
        &model,
        Some(&Credentials::ApiKey(String::from("SECRET-REDACTED"))),
    );
    assert_eq!(with_key.api_key, Some(String::from("SECRET-REDACTED")));
    assert_eq!(with_key.params.model, Some(String::from("openai/ada")));
    assert_eq!(with_key.event_model.provider_name, String::from("openai"));
    assert_eq!(with_key.event_model.model_type, ModelType::Embedding);
    assert_eq!(with_key.event_model.name, String::from("openai/ada"));

    let without_key = llm_gateway::embeddings::prepare_embeddings_invoke(
        llm_gateway::embeddings::CreateEmbeddingRequest {
            model: String::from("openai/ada"),
            input: llm_gateway::embeddings::Input::Text(String::from("embed me")),
            dimensions: None,
        },
        &model,
        None,
    );
    assert_eq!(without_key.api_key, None);
}

#[test]
fn image_generation_resolves_before_anything_else() {
    let models = AvailableModels(vec![binding("openai/dall-e", "dall-e-3", ProviderKind::OpenAi)]);
    let request = llm_gateway::image::CreateImageRequest {
        model: String::from("openai/dall-e"),
        prompt: String::from("a lighthouse"),
        n: Some(1),
        size: None,
    };
    let resolved = llm_gateway::image::prepare_image_generation(&request, &models).unwrap();
    assert_eq!(resolved.inference_provider.model_name, String::from("dall-e-3"));

    let unknown = llm_gateway::image::CreateImageRequest {
        model: String::from("openai/unknown"),
        prompt: String::from("a lighthouse"),
        n: None,
        size: None,
    };
    let result = llm_gateway::image::prepare_image_generation(&unknown, &models);
    assert_eq!(
        result,
        Err(GatewayApiError::ModelNotFound(String::from("openai/unknown")))
    );
}
