//! The compute part of the image-generation handler: resolves the
//! requested model before anything else is allocated, so an unknown
//! model fails cheaply.  The generation call itself is a thin
//! single-call provider wrapper outside the crate.

use vstd::prelude::*;

use crate::registry::find_model_by_full_name;
use crate::registry::resolve_model;
use crate::types::AvailableModels;
use crate::types::GatewayApiError;
use crate::types::GatewayApiErrorView;
use crate::types::LlmModelDefinition;

verus! {

/// One image-generation request as decoded by the transport layer.
#[derive(PartialEq, Eq, Debug)]
pub struct CreateImageRequest {
    pub model: String,
    pub prompt: String,
    pub n: Option<u32>,
    pub size: Option<String>,
}

#[verifier::ext_equal]
pub struct CreateImageRequestView {
    pub model: Seq<char>,
    pub prompt: Seq<char>,
    pub n: Option<u32>,
    pub size: Option<Seq<char>>,
}

impl View for CreateImageRequest {
    type V = CreateImageRequestView;

    open spec fn view(&self) -> CreateImageRequestView {
        CreateImageRequestView {
            model: self.model@,
            prompt: self.prompt@,
            n: self.n,
            size: self.size.deep_view(),
        }
    }
}

/// Resolves the model an image-generation request names, or fails with
/// `ModelNotFound` before any resource is allocated.
pub fn prepare_image_generation(
    request: &CreateImageRequest,
    available_models: &AvailableModels,
) -> (r: Result<LlmModelDefinition, GatewayApiError>)
    ensures
        match r {
            Ok(m) => resolve_model(available_models@, request@.model) == Some(m@),
            Err(e) => resolve_model(available_models@, request@.model) is None && e@
                == GatewayApiErrorView::ModelNotFound(request@.model),
        },
{
    find_model_by_full_name(&request.model, available_models)
}

} // verus!
