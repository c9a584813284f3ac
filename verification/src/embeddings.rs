//! The compute part of the embeddings handler: rewrites the request onto
//! the upstream model name, derives the provider parameters, selects the
//! API key from the per-request credentials, and builds the metadata
//! record attributed to the request's telemetry events.  The provider
//! call itself, and the channel that carries its events, live outside
//! the crate.

use vstd::prelude::*;
use vstd::string::StringExecFns;

use crate::types::clone_opt_string;
use crate::types::Credentials;
use crate::types::CredentialsView;
use crate::types::ExecutionOptions;
use crate::types::InputArgs;
use crate::types::LlmModelDefinition;
use crate::types::LlmModelDefinitionView;
use crate::types::Model;
use crate::types::ModelTools;
use crate::types::ModelType;
use crate::types::ModelView;

verus! {

/// The caller's embedding input: one text, or a batch of texts.
#[derive(PartialEq, Eq, Debug)]
pub enum Input {
    Text(String),
    Array(Vec<String>),
}

#[verifier::ext_equal]
pub enum InputView {
    Text(Seq<char>),
    Array(Seq<Seq<char>>),
}

impl View for Input {
    type V = InputView;

    open spec fn view(&self) -> InputView {
        match self {
            Input::Text(s) => InputView::Text(s@),
            Input::Array(v) => InputView::Array(v.deep_view()),
        }
    }
}

/// One embeddings request as decoded by the transport layer.
#[derive(PartialEq, Eq, Debug)]
pub struct CreateEmbeddingRequest {
    pub model: String,
    pub input: Input,
    pub dimensions: Option<u32>,
}

#[verifier::ext_equal]
pub struct CreateEmbeddingRequestView {
    pub model: Seq<char>,
    pub input: InputView,
    pub dimensions: Option<u32>,
}

impl View for CreateEmbeddingRequest {
    type V = CreateEmbeddingRequestView;

    open spec fn view(&self) -> CreateEmbeddingRequestView {
        CreateEmbeddingRequestView {
            model: self.model@,
            input: self.input@,
            dimensions: self.dimensions,
        }
    }
}

/// The parameters handed to the upstream embeddings provider.
#[derive(PartialEq, Eq, Debug)]
pub struct OpenAiEmbeddingParams {
    pub model: Option<String>,
    pub dimensions: Option<u32>,
}

#[verifier::ext_equal]
pub struct OpenAiEmbeddingParamsView {
    pub model: Option<Seq<char>>,
    pub dimensions: Option<u32>,
}

impl View for OpenAiEmbeddingParams {
    type V = OpenAiEmbeddingParamsView;

    open spec fn view(&self) -> OpenAiEmbeddingParamsView {
        OpenAiEmbeddingParamsView {
            model: self.model.deep_view(),
            dimensions: self.dimensions,
        }
    }
}

/// The metadata record attributed to an embeddings request's events.
pub open spec fn embedding_event_model_spec(model_name: Seq<char>) -> ModelView {
    ModelView {
        name: model_name,
        description: None,
        provider_name: "openai"@,
        prompt_name: None,
        model_params: Seq::empty(),
        execution_options: ExecutionOptions { timeout_ms: None },
        input_args: Seq::empty(),
        tools: Seq::empty(),
        model_type: ModelType::Embedding,
        response_schema: None,
        credentials: None,
    }
}

/// The API key the provider call uses, when the request carried one.
pub open spec fn selected_api_key(creds: Option<CredentialsView>) -> Option<Seq<char>> {
    match creds {
        Some(CredentialsView::ApiKey(k)) => Some(k),
        None => None,
    }
}

/// Everything the transport layer needs to make the provider call for
/// one embeddings request.
pub struct PreparedEmbeddings {
    pub request: CreateEmbeddingRequest,
    pub params: OpenAiEmbeddingParams,
    pub api_key: Option<String>,
    pub event_model: Model,
}

/// What embeddings preparation promises of its result.
pub open spec fn embeddings_prepare_post(
    request: CreateEmbeddingRequestView,
    m: LlmModelDefinitionView,
    creds: Option<CredentialsView>,
    p: PreparedEmbeddings,
) -> bool {
    &&& p.request@.model == m.inference_provider.model_name
    &&& p.request@.input == request.input
    &&& p.request@.dimensions == request.dimensions
    &&& p.params@.model == Some(m.model)
    &&& p.params@.dimensions == request.dimensions
    &&& p.api_key.deep_view() == selected_api_key(creds)
    &&& p.event_model@ == embedding_event_model_spec(m.model)
}

/// Prepares one embeddings request: rewrites it onto the upstream model
/// name, derives the provider parameters and the API key, and builds the
/// metadata record for the request's events.
pub fn prepare_embeddings_invoke(
    request: CreateEmbeddingRequest,
    llm_model: &LlmModelDefinition,
    key_credentials: Option<&Credentials>,
) -> (p: PreparedEmbeddings)
    ensures
        embeddings_prepare_post(request@, llm_model@, key_credentials.deep_view(), p),
{
    let mut request = request;
    request.model = llm_model.inference_provider.model_name.clone();

    let params = OpenAiEmbeddingParams {
        model: Some(llm_model.model.clone()),
        dimensions: request.dimensions,
    };

    let api_key = match key_credentials {
        Some(Credentials::ApiKey(k)) => Some(k.clone()),
        None => None,
    };

    let event_model = Model {
        name: llm_model.model.clone(),
        description: None,
        provider_name: String::from_str("openai"),
        prompt_name: None,
        model_params: Vec::new(),
        execution_options: ExecutionOptions { timeout_ms: None },
        input_args: InputArgs(Vec::new()),
        tools: ModelTools(Vec::new()),
        model_type: ModelType::Embedding,
        response_schema: None,
        credentials: None,
    };
    proof {
        assert(event_model@ =~= embedding_event_model_spec(llm_model@.model));
    }
    PreparedEmbeddings { request, params, api_key, event_model }
}

} // verus!
