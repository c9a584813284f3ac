//! The data model shared by every component of the gateway core: provider
//! bindings, credentials, descriptive model metadata, and the error
//! taxonomy exposed to the transport layer.
//!
//! Each data-carrying type has a mathematical view (`...View`) over which
//! every contract in this crate is stated.

use vstd::prelude::*;
use vstd::string::StringExecFns;

verus! {

/// Per-request secret material attached by the transport layer; optional,
/// and read-only once execution begins.
#[derive(PartialEq, Eq, Debug)]
pub enum Credentials {
    ApiKey(String),
}

#[verifier::ext_equal]
pub enum CredentialsView {
    ApiKey(Seq<char>),
}

impl View for Credentials {
    type V = CredentialsView;

    open spec fn view(&self) -> CredentialsView {
        match self {
            Credentials::ApiKey(k) => CredentialsView::ApiKey(k@),
        }
    }
}

impl DeepView for Credentials {
    type V = CredentialsView;

    open spec fn deep_view(&self) -> CredentialsView {
        self.view()
    }
}

impl Clone for Credentials {
    fn clone(&self) -> (res: Self)
        ensures
            res@ == self@,
    {
        match self {
            Credentials::ApiKey(k) => Credentials::ApiKey(k.clone()),
        }
    }
}

/// Copies an optional string, preserving the value exactly.
pub(crate) fn clone_opt_string(o: &Option<String>) -> (r: Option<String>)
    ensures
        r == *o,
{
    match o {
        Some(s) => Some(s.clone()),
        None => None,
    }
}

/// Copies a vector of strings element by element, preserving its view.
pub(crate) fn clone_string_vec(v: &Vec<String>) -> (r: Vec<String>)
    ensures
        r@ == v@,
        r.deep_view() == v.deep_view(),
{
    let mut r: Vec<String> = Vec::new();
    let mut i: usize = 0;
    while i < v.len()
        invariant
            i <= v.len(),
            r@ == v@.take(i as int),
        decreases v.len() - i,
    {
        r.push(v[i].clone());
        proof {
            assert(r@ =~= v@.take(i as int + 1));
        }
        i = i + 1;
    }
    proof {
        assert(r@ =~= v@);
        assert(r.deep_view() =~= v.deep_view());
    }
    r
}

/// The upstream provider family a resolved binding dispatches to.
#[derive(Clone, Copy, PartialEq, Eq, Structural, Debug)]
pub enum ProviderKind {
    OpenAi,
    Anthropic,
    Gemini,
    Bedrock,
}

impl ProviderKind {
    /// The lower-case provider label carried in telemetry records.
    pub open spec fn label_spec(self) -> Seq<char> {
        match self {
            ProviderKind::OpenAi => "openai"@,
            ProviderKind::Anthropic => "anthropic"@,
            ProviderKind::Gemini => "gemini"@,
            ProviderKind::Bedrock => "bedrock"@,
        }
    }

    pub fn label(&self) -> (r: String)
        ensures
            r@ == self.label_spec(),
    {
        match self {
            ProviderKind::OpenAi => String::from_str("openai"),
            ProviderKind::Anthropic => String::from_str("anthropic"),
            ProviderKind::Gemini => String::from_str("gemini"),
            ProviderKind::Bedrock => String::from_str("bedrock"),
        }
    }
}

/// What a model is used for; attributed to every telemetry event.
#[derive(Clone, Copy, PartialEq, Eq, Structural, Debug)]
pub enum ModelType {
    Completions,
    Embedding,
    Image,
}

/// The resolved mapping from a caller-facing model name to a concrete
/// upstream endpoint, model name and provider kind.
#[derive(PartialEq, Eq, Debug)]
pub struct InferenceProvider {
    pub provider: ProviderKind,
    pub model_name: String,
    pub endpoint: Option<String>,
}

#[verifier::ext_equal]
pub struct InferenceProviderView {
    pub provider: ProviderKind,
    pub model_name: Seq<char>,
    pub endpoint: Option<Seq<char>>,
}

impl View for InferenceProvider {
    type V = InferenceProviderView;

    open spec fn view(&self) -> InferenceProviderView {
        InferenceProviderView {
            provider: self.provider,
            model_name: self.model_name@,
            endpoint: self.endpoint.deep_view(),
        }
    }
}

impl DeepView for InferenceProvider {
    type V = InferenceProviderView;

    open spec fn deep_view(&self) -> InferenceProviderView {
        self.view()
    }
}

impl Clone for InferenceProvider {
    fn clone(&self) -> (res: Self)
        ensures
            res@ == self@,
    {
        InferenceProvider {
            provider: self.provider,
            model_name: self.model_name.clone(),
            endpoint: clone_opt_string(&self.endpoint),
        }
    }
}

/// One configured model: the caller-facing full name together with the
/// provider binding it resolves to.
#[derive(PartialEq, Eq, Debug)]
pub struct LlmModelDefinition {
    /// The caller-facing full model name, e.g. `"openai/gpt-4"`.
    pub model: String,
    /// The provider family recorded for the execution plan.
    pub model_provider: ProviderKind,
    /// Where and as what the model is actually served.
    pub inference_provider: InferenceProvider,
}

#[verifier::ext_equal]
pub struct LlmModelDefinitionView {
    pub model: Seq<char>,
    pub model_provider: ProviderKind,
    pub inference_provider: InferenceProviderView,
}

impl View for LlmModelDefinition {
    type V = LlmModelDefinitionView;

    open spec fn view(&self) -> LlmModelDefinitionView {
        LlmModelDefinitionView {
            model: self.model@,
            model_provider: self.model_provider,
            inference_provider: self.inference_provider@,
        }
    }
}

impl DeepView for LlmModelDefinition {
    type V = LlmModelDefinitionView;

    open spec fn deep_view(&self) -> LlmModelDefinitionView {
        self.view()
    }
}

impl Clone for LlmModelDefinition {
    fn clone(&self) -> (res: Self)
        ensures
            res@ == self@,
    {
        LlmModelDefinition {
            model: self.model.clone(),
            model_provider: self.model_provider,
            inference_provider: self.inference_provider.clone(),
        }
    }
}

/// The catalogue of configured models a request is resolved against.
#[derive(Debug)]
pub struct AvailableModels(pub Vec<LlmModelDefinition>);

impl View for AvailableModels {
    type V = Seq<LlmModelDefinitionView>;

    open spec fn view(&self) -> Seq<LlmModelDefinitionView> {
        self.0.deep_view()
    }
}

/// A lightweight tool descriptor attached to model metadata for
/// telemetry and introspection; carries no bound arguments.
#[derive(PartialEq, Eq, Debug)]
pub struct ModelTool {
    pub name: String,
    pub description: Option<String>,
    pub passed_args: Vec<String>,
}

#[verifier::ext_equal]
pub struct ModelToolView {
    pub name: Seq<char>,
    pub description: Option<Seq<char>>,
    pub passed_args: Seq<Seq<char>>,
}

impl View for ModelTool {
    type V = ModelToolView;

    open spec fn view(&self) -> ModelToolView {
        ModelToolView {
            name: self.name@,
            description: self.description.deep_view(),
            passed_args: self.passed_args.deep_view(),
        }
    }
}

impl DeepView for ModelTool {
    type V = ModelToolView;

    open spec fn deep_view(&self) -> ModelToolView {
        self.view()
    }
}

impl Clone for ModelTool {
    fn clone(&self) -> (res: Self)
        ensures
            res@ == self@,
    {
        let res = ModelTool {
            name: self.name.clone(),
            description: clone_opt_string(&self.description),
            passed_args: clone_string_vec(&self.passed_args),
        };
        proof {
            assert(res@ =~= self@);
        }
        res
    }
}

/// The ordered list of tool descriptors declared by one request.
#[derive(PartialEq, Eq, Debug)]
pub struct ModelTools(pub Vec<ModelTool>);

impl View for ModelTools {
    type V = Seq<ModelToolView>;

    open spec fn view(&self) -> Seq<ModelToolView> {
        self.0.deep_view()
    }
}

impl Clone for ModelTools {
    fn clone(&self) -> (res: Self)
        ensures
            res@ == self@,
    {
        let mut inner: Vec<ModelTool> = Vec::new();
        let mut i: usize = 0;
        while i < self.0.len()
            invariant
                i <= self.0.len(),
                inner@.len() == i as int,
                forall|k: int|
                    0 <= k < i ==> #[trigger] inner@[k].deep_view() == self.0@[k].deep_view(),
            decreases self.0.len() - i,
        {
            let tool = self.0[i].clone();
            inner.push(tool);
            i = i + 1;
        }
        proof {
            assert(inner.deep_view() =~= self.0.deep_view());
        }
        ModelTools(inner)
    }
}

/// One named model parameter of the descriptive metadata record.
#[derive(PartialEq, Eq, Debug)]
pub struct ModelParam {
    pub key: String,
    pub value: String,
}

#[verifier::ext_equal]
pub struct ModelParamView {
    pub key: Seq<char>,
    pub value: Seq<char>,
}

impl View for ModelParam {
    type V = ModelParamView;

    open spec fn view(&self) -> ModelParamView {
        ModelParamView { key: self.key@, value: self.value@ }
    }
}

impl DeepView for ModelParam {
    type V = ModelParamView;

    open spec fn deep_view(&self) -> ModelParamView {
        self.view()
    }
}

impl Clone for ModelParam {
    fn clone(&self) -> (res: Self)
        ensures
            res@ == self@,
    {
        ModelParam { key: self.key.clone(), value: self.value.clone() }
    }
}

/// Execution options of the metadata record; the gateway core leaves them
/// at their defaults.
#[derive(Clone, Copy, PartialEq, Eq, Structural, Debug)]
pub struct ExecutionOptions {
    pub timeout_ms: Option<u64>,
}

impl Default for ExecutionOptions {
    fn default() -> (r: Self)
        ensures
            r == (ExecutionOptions { timeout_ms: None }),
    {
        ExecutionOptions { timeout_ms: None }
    }
}

/// The named input arguments of a server-side prompt; empty when the
/// caller's own messages are the entire prompt.
#[derive(PartialEq, Eq, Debug)]
pub struct InputArgs(pub Vec<String>);

impl View for InputArgs {
    type V = Seq<Seq<char>>;

    open spec fn view(&self) -> Seq<Seq<char>> {
        self.0.deep_view()
    }
}

impl Clone for InputArgs {
    fn clone(&self) -> (res: Self)
        ensures
            res@ == self@,
    {
        InputArgs(clone_string_vec(&self.0))
    }
}

/// A server-side prompt template; empty when none is configured.
#[derive(PartialEq, Eq, Debug)]
pub struct Prompt {
    pub text: String,
}

impl View for Prompt {
    type V = Seq<char>;

    open spec fn view(&self) -> Seq<char> {
        self.text@
    }
}

impl Clone for Prompt {
    fn clone(&self) -> (res: Self)
        ensures
            res@ == self@,
    {
        Prompt { text: self.text.clone() }
    }
}

impl Prompt {
    /// The empty prompt: the caller's messages are the entire prompt.
    pub fn empty() -> (p: Prompt)
        ensures
            p@ == Seq::<char>::empty(),
    {
        Prompt { text: String::new() }
    }
}

/// Descriptive/telemetry record carried alongside every emitted event, so
/// the callback sink can attribute telemetry without re-resolving the
/// model.
#[derive(PartialEq, Eq, Debug)]
pub struct Model {
    pub name: String,
    pub description: Option<String>,
    pub provider_name: String,
    pub prompt_name: Option<String>,
    pub model_params: Vec<ModelParam>,
    pub execution_options: ExecutionOptions,
    pub input_args: InputArgs,
    pub tools: ModelTools,
    pub model_type: ModelType,
    pub response_schema: Option<String>,
    pub credentials: Option<Credentials>,
}

#[verifier::ext_equal]
pub struct ModelView {
    pub name: Seq<char>,
    pub description: Option<Seq<char>>,
    pub provider_name: Seq<char>,
    pub prompt_name: Option<Seq<char>>,
    pub model_params: Seq<ModelParamView>,
    pub execution_options: ExecutionOptions,
    pub input_args: Seq<Seq<char>>,
    pub tools: Seq<ModelToolView>,
    pub model_type: ModelType,
    pub response_schema: Option<Seq<char>>,
    pub credentials: Option<CredentialsView>,
}

impl View for Model {
    type V = ModelView;

    open spec fn view(&self) -> ModelView {
        ModelView {
            name: self.name@,
            description: self.description.deep_view(),
            provider_name: self.provider_name@,
            prompt_name: self.prompt_name.deep_view(),
            model_params: self.model_params.deep_view(),
            execution_options: self.execution_options,
            input_args: self.input_args@,
            tools: self.tools@,
            model_type: self.model_type,
            response_schema: self.response_schema.deep_view(),
            credentials: self.credentials.deep_view(),
        }
    }
}

/// Copies an optional credential, preserving its view.
pub(crate) fn clone_opt_credentials(o: &Option<Credentials>) -> (r: Option<Credentials>)
    ensures
        r.deep_view() == o.deep_view(),
{
    match o {
        Some(c) => Some(c.clone()),
        None => None,
    }
}

impl Clone for Model {
    fn clone(&self) -> (res: Self)
        ensures
            res@ == self@,
    {
        let mut model_params: Vec<ModelParam> = Vec::new();
        let mut i: usize = 0;
        while i < self.model_params.len()
            invariant
                i <= self.model_params.len(),
                model_params@.len() == i as int,
                forall|k: int|
                    0 <= k < i ==> #[trigger] model_params@[k].deep_view()
                        == self.model_params@[k].deep_view(),
            decreases self.model_params.len() - i,
        {
            let param = self.model_params[i].clone();
            model_params.push(param);
            i = i + 1;
        }
        proof {
            assert(model_params.deep_view() =~= self.model_params.deep_view());
        }
        let res = Model {
            name: self.name.clone(),
            description: clone_opt_string(&self.description),
            provider_name: self.provider_name.clone(),
            prompt_name: clone_opt_string(&self.prompt_name),
            model_params,
            execution_options: self.execution_options,
            input_args: self.input_args.clone(),
            tools: self.tools.clone(),
            model_type: self.model_type,
            response_schema: clone_opt_string(&self.response_schema),
            credentials: clone_opt_credentials(&self.credentials),
        };
        proof {
            assert(res@ =~= self@);
        }
        res
    }
}

/// Token accounting reported by the upstream provider.
#[derive(Clone, Copy, PartialEq, Eq, Structural, Debug)]
pub struct CompletionModelUsage {
    pub input_tokens: u32,
    pub output_tokens: u32,
    pub total_tokens: u32,
}

/// The single enumerated error type the gateway core exposes; the
/// transport layer maps each variant to an HTTP status class.
#[derive(PartialEq, Eq, Debug)]
pub enum GatewayApiError {
    /// Resolution failed: the catalogue holds no model of this full name.
    ModelNotFound(String),
    /// Adapter construction or an internal invariant failed.
    CustomError(String),
    /// The provider itself failed during invocation.
    UpstreamError(String),
    /// A caller message could not be normalized.
    MessageMappingError(String),
}

#[verifier::ext_equal]
pub enum GatewayApiErrorView {
    ModelNotFound(Seq<char>),
    CustomError(Seq<char>),
    UpstreamError(Seq<char>),
    MessageMappingError(Seq<char>),
}

impl View for GatewayApiError {
    type V = GatewayApiErrorView;

    open spec fn view(&self) -> GatewayApiErrorView {
        match self {
            GatewayApiError::ModelNotFound(s) => GatewayApiErrorView::ModelNotFound(s@),
            GatewayApiError::CustomError(s) => GatewayApiErrorView::CustomError(s@),
            GatewayApiError::UpstreamError(s) => GatewayApiErrorView::UpstreamError(s@),
            GatewayApiError::MessageMappingError(s) => GatewayApiErrorView::MessageMappingError(
                s@,
            ),
        }
    }
}

impl DeepView for GatewayApiError {
    type V = GatewayApiErrorView;

    open spec fn deep_view(&self) -> GatewayApiErrorView {
        self.view()
    }
}

impl Clone for GatewayApiError {
    fn clone(&self) -> (res: Self)
        ensures
            res@ == self@,
    {
        match self {
            GatewayApiError::ModelNotFound(s) => GatewayApiError::ModelNotFound(s.clone()),
            GatewayApiError::CustomError(s) => GatewayApiError::CustomError(s.clone()),
            GatewayApiError::UpstreamError(s) => GatewayApiError::UpstreamError(s.clone()),
            GatewayApiError::MessageMappingError(s) => GatewayApiError::MessageMappingError(
                s.clone(),
            ),
        }
    }
}

} // verus!
