//! The chat-completion execution core: resolves the requested model,
//! rewrites the request onto the upstream model name, assembles the
//! provider-bound execution plan and the tool capability set, normalizes
//! the caller's messages, and splits execution into the streaming and
//! batch paths.  The asynchronous plumbing — the event channel, the
//! background collector task and the provider adapter calls — lives
//! outside the crate and hands plain values in and out.

use vstd::prelude::*;
use vstd::string::StringExecFns;

use crate::messages::all_messages_mappable;
use crate::messages::mapped_messages;
use crate::messages::ChatCompletionMessage;
use crate::messages::ChatCompletionMessageView;
use crate::messages::InternalMessage;
use crate::messages::MessageMapper;
use crate::registry::find_model_by_full_name;
use crate::registry::resolve_model;
use crate::tools::build_tool_capability_map;
use crate::tools::build_tool_descriptors;
use crate::tools::capability_map_spec;
use crate::tools::declared_tools;
use crate::tools::descriptors_spec;
use crate::tools::ToolCapabilityMap;
use crate::tools::ToolDefinition;
use crate::tools::ToolDefinitionView;
use crate::types::clone_opt_credentials;
use crate::types::clone_opt_string;
use crate::types::AvailableModels;
use crate::types::Credentials;
use crate::types::CredentialsView;
use crate::types::ExecutionOptions;
use crate::types::GatewayApiError;
use crate::types::GatewayApiErrorView;
use crate::types::InputArgs;
use crate::types::LlmModelDefinition;
use crate::types::LlmModelDefinitionView;
use crate::types::Model;
use crate::types::ModelToolView;
use crate::types::ModelTools;
use crate::types::ModelType;
use crate::types::ModelView;
use crate::types::Prompt;
use crate::types::ProviderKind;

verus! {

/// One chat-completion request as decoded by the transport layer.
#[derive(PartialEq, Eq, Debug)]
pub struct ChatCompletionRequest {
    pub model: String,
    pub messages: Vec<ChatCompletionMessage>,
    pub tools: Option<Vec<ToolDefinition>>,
    pub stream: Option<bool>,
}

#[verifier::ext_equal]
pub struct ChatCompletionRequestView {
    pub model: Seq<char>,
    pub messages: Seq<ChatCompletionMessageView>,
    pub tools: Option<Seq<ToolDefinitionView>>,
    pub stream: Option<bool>,
}

impl View for ChatCompletionRequest {
    type V = ChatCompletionRequestView;

    open spec fn view(&self) -> ChatCompletionRequestView {
        ChatCompletionRequestView {
            model: self.model@,
            messages: self.messages.deep_view(),
            tools: match &self.tools {
                Some(ts) => Some(ts.deep_view()),
                None => None,
            },
            stream: self.stream,
        }
    }
}

/// The engine handle of an execution plan: the provider adapter the plan
/// is bound to, with the upstream model name, the per-request
/// credentials, and the custom endpoint when one is configured.
#[derive(PartialEq, Eq, Debug)]
pub struct CompletionEngine {
    pub provider: ProviderKind,
    pub model_name: String,
    pub credentials: Option<Credentials>,
    pub endpoint: Option<String>,
}

#[verifier::ext_equal]
pub struct CompletionEngineView {
    pub provider: ProviderKind,
    pub model_name: Seq<char>,
    pub credentials: Option<CredentialsView>,
    pub endpoint: Option<Seq<char>>,
}

impl View for CompletionEngine {
    type V = CompletionEngineView;

    open spec fn view(&self) -> CompletionEngineView {
        CompletionEngineView {
            provider: self.provider,
            model_name: self.model_name@,
            credentials: self.credentials.deep_view(),
            endpoint: self.endpoint.deep_view(),
        }
    }
}

impl Clone for CompletionEngine {
    fn clone(&self) -> (res: Self)
        ensures
            res@ == self@,
    {
        let res = CompletionEngine {
            provider: self.provider,
            model_name: self.model_name.clone(),
            credentials: clone_opt_credentials(&self.credentials),
            endpoint: clone_opt_string(&self.endpoint),
        };
        proof {
            assert(res@ =~= self@);
        }
        res
    }
}

/// The engine parameters of an execution plan.
#[derive(PartialEq, Eq, Debug)]
pub struct CompletionModelParams {
    pub engine: CompletionEngine,
    pub provider_name: String,
    pub prompt_name: Option<String>,
}

#[verifier::ext_equal]
pub struct CompletionModelParamsView {
    pub engine: CompletionEngineView,
    pub provider_name: Seq<char>,
    pub prompt_name: Option<Seq<char>>,
}

impl View for CompletionModelParams {
    type V = CompletionModelParamsView;

    open spec fn view(&self) -> CompletionModelParamsView {
        CompletionModelParamsView {
            engine: self.engine@,
            provider_name: self.provider_name@,
            prompt_name: self.prompt_name.deep_view(),
        }
    }
}

/// The execution plan of one request: fully resolved, immutable once
/// built, shared by the executor and the collector task.
#[derive(PartialEq, Eq, Debug)]
pub struct CompletionModelDefinition {
    pub name: String,
    pub model_params: CompletionModelParams,
    pub input_args: InputArgs,
    pub prompt: Prompt,
    pub tools: ModelTools,
    pub db_model: Model,
}

#[verifier::ext_equal]
pub struct CompletionModelDefinitionView {
    pub name: Seq<char>,
    pub model_params: CompletionModelParamsView,
    pub input_args: Seq<Seq<char>>,
    pub prompt: Seq<char>,
    pub tools: Seq<ModelToolView>,
    pub db_model: ModelView,
}

impl View for CompletionModelDefinition {
    type V = CompletionModelDefinitionView;

    open spec fn view(&self) -> CompletionModelDefinitionView {
        CompletionModelDefinitionView {
            name: self.name@,
            model_params: self.model_params@,
            input_args: self.input_args@,
            prompt: self.prompt@,
            tools: self.tools@,
            db_model: self.db_model@,
        }
    }
}

/// The two response protocols a request can ask for; mutually exclusive.
#[derive(Clone, Copy, PartialEq, Eq, Structural, Debug)]
pub enum ExecutionMode {
    Streaming,
    Batch,
}

/// The protocol a request asks for: streaming exactly when it sets
/// `stream` to true.
pub open spec fn mode_spec(stream: Option<bool>) -> ExecutionMode {
    if stream == Some(true) {
        ExecutionMode::Streaming
    } else {
        ExecutionMode::Batch
    }
}

/// Reads the response protocol off a request.
pub fn execution_mode(request: &ChatCompletionRequest) -> (m: ExecutionMode)
    ensures
        m == mode_spec(request@.stream),
{
    match &request.stream {
        Some(true) => ExecutionMode::Streaming,
        _ => ExecutionMode::Batch,
    }
}

/// The engine handle the resolved binding selects.
pub open spec fn engine_spec(
    m: LlmModelDefinitionView,
    creds: Option<CredentialsView>,
) -> CompletionEngineView {
    CompletionEngineView {
        provider: m.inference_provider.provider,
        model_name: m.inference_provider.model_name,
        credentials: creds,
        endpoint: m.inference_provider.endpoint,
    }
}

/// Selects the completion engine for a resolved binding, wiring in the
/// per-request credentials.
pub fn get_completion_engine_for_model(
    llm_model: &LlmModelDefinition,
    key_credentials: Option<Credentials>,
) -> (e: CompletionEngine)
    ensures
        e@ == engine_spec(llm_model@, key_credentials.deep_view()),
{
    let e = CompletionEngine {
        provider: llm_model.inference_provider.provider,
        model_name: llm_model.inference_provider.model_name.clone(),
        credentials: key_credentials,
        endpoint: clone_opt_string(&llm_model.inference_provider.endpoint),
    };
    proof {
        assert(e@ =~= engine_spec(llm_model@, key_credentials.deep_view()));
    }
    e
}

/// The descriptive metadata record built for one request: attributed to
/// every event the request emits.
pub open spec fn model_metadata_spec(
    name: Seq<char>,
    m: LlmModelDefinitionView,
    tool_descriptors: Seq<ModelToolView>,
    creds: Option<CredentialsView>,
) -> ModelView {
    ModelView {
        name,
        description: Some("Generated model for chat completion"@),
        provider_name: m.inference_provider.provider.label_spec(),
        prompt_name: None,
        model_params: Seq::empty(),
        execution_options: ExecutionOptions { timeout_ms: None },
        input_args: Seq::empty(),
        tools: tool_descriptors,
        model_type: ModelType::Completions,
        response_schema: None,
        credentials: creds,
    }
}

/// Builds the metadata record for one request.
pub fn build_model_metadata(
    upstream_name: &String,
    llm_model: &LlmModelDefinition,
    tools: ModelTools,
    key_credentials: Option<Credentials>,
) -> (r: Model)
    ensures
        r@ == model_metadata_spec(
            upstream_name@,
            llm_model@,
            tools@,
            key_credentials.deep_view(),
        ),
{
    let r = Model {
        name: upstream_name.clone(),
        description: Some(String::from_str("Generated model for chat completion")),
        provider_name: llm_model.inference_provider.provider.label(),
        prompt_name: None,
        model_params: Vec::new(),
        execution_options: ExecutionOptions { timeout_ms: None },
        input_args: InputArgs(Vec::new()),
        tools,
        model_type: ModelType::Completions,
        response_schema: None,
        credentials: key_credentials,
    };
    proof {
        assert(r@.model_params =~= Seq::<crate::types::ModelParamView>::empty());
        assert(r@.input_args =~= Seq::<Seq<char>>::empty());
        assert(r@ =~= model_metadata_spec(
            upstream_name@,
            llm_model@,
            r@.tools,
            key_credentials.deep_view(),
        ));
    }
    r
}

/// Everything the transport layer needs to run one chat-completion
/// request: the execution plan, the dispatch mapping, the normalized
/// messages, the chosen response protocol, and the rewritten request.
pub struct PreparedChatCompletion {
    pub definition: CompletionModelDefinition,
    pub tools_map: ToolCapabilityMap,
    pub messages: Vec<InternalMessage>,
    pub mode: ExecutionMode,
    pub endpoint: Option<String>,
    pub user_id: String,
    pub request: ChatCompletionRequest,
}

/// What preparation promises of its result, given the inbound request as
/// it arrived, the resolved binding, the credentials and the request's
/// user identifier.
pub open spec fn prepare_post(
    request: ChatCompletionRequestView,
    m: LlmModelDefinitionView,
    creds: Option<CredentialsView>,
    user_id: Seq<char>,
    p: PreparedChatCompletion,
) -> bool {
    let upstream = m.inference_provider.model_name;
    let tools = declared_tools(request.tools);
    &&& p.definition@.name == upstream
    &&& p.definition@.model_params.engine == engine_spec(m, creds)
    &&& p.definition@.model_params.provider_name == m.model_provider.label_spec()
    &&& p.definition@.model_params.prompt_name is None
    &&& p.definition@.input_args == Seq::<Seq<char>>::empty()
    &&& p.definition@.prompt == Seq::<char>::empty()
    &&& p.definition@.tools == descriptors_spec(tools)
    &&& p.definition@.db_model == model_metadata_spec(upstream, m, descriptors_spec(tools), creds)
    &&& p.tools_map.wf()
    &&& p.tools_map@ == capability_map_spec(tools)
    &&& p.messages.deep_view() == mapped_messages(request.messages, upstream, user_id)
    &&& p.mode == mode_spec(request.stream)
    &&& p.endpoint.deep_view() == m.inference_provider.endpoint
    &&& p.user_id@ == user_id
    &&& p.request@ == (ChatCompletionRequestView { model: upstream, ..request })
}

/// Prepares one chat-completion request under a given per-request user
/// identifier: resolves the model, rewrites the request onto the
/// upstream model name, builds the execution plan and the tool
/// capability set, and normalizes the messages.  Nothing is allocated
/// for a request whose model cannot be resolved.
pub fn prepare_chat_completion_with_user(
    request: ChatCompletionRequest,
    provided_models: &AvailableModels,
    key_credentials: Option<Credentials>,
    user_id: &String,
) -> (r: Result<PreparedChatCompletion, GatewayApiError>)
    ensures
        match r {
            Ok(p) => {
                &&& resolve_model(provided_models@, request@.model) matches Some(m)
                    && prepare_post(
                    request@,
                    m,
                    key_credentials.deep_view(),
                    user_id@,
                    p,
                )
                &&& all_messages_mappable(request@.messages)
            },
            Err(e) => match e@ {
                GatewayApiErrorView::ModelNotFound(n) => resolve_model(
                    provided_models@,
                    request@.model,
                ) is None && n == request@.model,
                GatewayApiErrorView::MessageMappingError(_) => resolve_model(
                    provided_models@,
                    request@.model,
                ) is Some && !all_messages_mappable(request@.messages),
                _ => false,
            },
        },
        r is Ok <==> resolve_model(provided_models@, request@.model) is Some
            && all_messages_mappable(request@.messages),
{
    let mut request = request;
    let llm_model = match find_model_by_full_name(&request.model, provided_models) {
        Ok(m) => m,
        Err(e) => {
            return Err(e);
        },
    };
    let upstream_name = llm_model.inference_provider.model_name.clone();

    let messages = match MessageMapper::map_messages(&request.messages, &upstream_name, user_id) {
        Ok(ms) => ms,
        Err(e) => {
            return Err(e);
        },
    };

    let engine = get_completion_engine_for_model(&llm_model, clone_opt_credentials(
        &key_credentials,
    ));

    let tools = build_tool_descriptors(&request.tools);
    let db_model = build_model_metadata(
        &upstream_name,
        &llm_model,
        tools.clone(),
        key_credentials,
    );

    let definition = CompletionModelDefinition {
        name: upstream_name.clone(),
        model_params: CompletionModelParams {
            engine,
            provider_name: llm_model.model_provider.label(),
            prompt_name: None,
        },
        input_args: InputArgs(Vec::new()),
        prompt: Prompt::empty(),
        tools,
        db_model,
    };

    let tools_map = build_tool_capability_map(&request.tools);

    let mode = execution_mode(&request);
    let endpoint = clone_opt_string(&llm_model.inference_provider.endpoint);
    request.model = upstream_name;

    let p = PreparedChatCompletion {
        definition,
        tools_map,
        messages,
        mode,
        endpoint,
        user_id: user_id.clone(),
        request,
    };
    proof {
        assert(p.definition@.input_args =~= Seq::<Seq<char>>::empty());
    }
    Ok(p)
}

/// Relies on `uuid::Uuid::new_v4` and its `Display` rendering: a fresh
/// random version-4 identifier in the hyphenated form, which is 36
/// characters long.  Nothing else can be promised of a random value.
#[verifier::external_body]
fn fresh_user_id() -> (r: String)
    ensures
        r@.len() == 36,
{
    uuid::Uuid::new_v4().to_string()
}

/// Prepares one chat-completion request, drawing a fresh random user
/// identifier for provider-side conversation bookkeeping.
pub fn prepare_chat_completion(
    request: ChatCompletionRequest,
    provided_models: &AvailableModels,
    key_credentials: Option<Credentials>,
) -> (r: Result<PreparedChatCompletion, GatewayApiError>)
    ensures
        match r {
            Ok(p) => {
                &&& resolve_model(provided_models@, request@.model) matches Some(m) && exists|
                    uid: Seq<char>,
                |
                    uid.len() == 36 && #[trigger] prepare_post(
                        request@,
                        m,
                        key_credentials.deep_view(),
                        uid,
                        p,
                    )
                &&& all_messages_mappable(request@.messages)
            },
            Err(e) => match e@ {
                GatewayApiErrorView::ModelNotFound(n) => resolve_model(
                    provided_models@,
                    request@.model,
                ) is None && n == request@.model,
                GatewayApiErrorView::MessageMappingError(_) => resolve_model(
                    provided_models@,
                    request@.model,
                ) is Some && !all_messages_mappable(request@.messages),
                _ => false,
            },
        },
        r is Ok <==> resolve_model(provided_models@, request@.model) is Some
            && all_messages_mappable(request@.messages),
{
    let user_id = fresh_user_id();
    let r = prepare_chat_completion_with_user(
        request,
        provided_models,
        key_credentials,
        &user_id,
    );
    r
}

/// The upstream model name of the resolved binding — never the
/// caller-facing name — is what the execution plan, its metadata record
/// and the rewritten request all carry.
pub proof fn lemma_upstream_name_substituted(
    request: ChatCompletionRequestView,
    models: Seq<LlmModelDefinitionView>,
    m: LlmModelDefinitionView,
    creds: Option<CredentialsView>,
    user_id: Seq<char>,
    p: PreparedChatCompletion,
)
    requires
        resolve_model(models, request.model) == Some(m),
        prepare_post(request, m, creds, user_id, p),
    ensures
        p.definition@.name == m.inference_provider.model_name,
        p.definition@.db_model.name == m.inference_provider.model_name,
        p.request@.model == m.inference_provider.model_name,
        request.model != m.inference_provider.model_name ==> p.definition@.name != request.model,
{
}

} // verus!
