//! The model registry and resolver: maps a caller-supplied full model
//! name to the configured inference-provider binding, by exact name match
//! against the catalogue.  A pure lookup with no side effect, so it runs
//! before any resource is allocated and failure is cheap.

use vstd::prelude::*;

use crate::types::AvailableModels;
use crate::types::GatewayApiError;
use crate::types::GatewayApiErrorView;
use crate::types::LlmModelDefinition;
use crate::types::LlmModelDefinitionView;

verus! {

/// The binding `name` resolves to when the search starts at index `i`:
/// the first catalogue entry, from `i` on, whose full model name equals
/// `name` exactly.
pub open spec fn resolve_model_from(
    models: Seq<LlmModelDefinitionView>,
    name: Seq<char>,
    i: int,
) -> Option<LlmModelDefinitionView>
    decreases models.len() - i,
{
    if i < 0 || i >= models.len() {
        None
    } else if models[i].model == name {
        Some(models[i])
    } else {
        resolve_model_from(models, name, i + 1)
    }
}

/// The binding the catalogue resolves `name` to, if any.  Lookup is by
/// exact full-name match: no fuzzy matching, no provider fallback.
pub open spec fn resolve_model(
    models: Seq<LlmModelDefinitionView>,
    name: Seq<char>,
) -> Option<LlmModelDefinitionView> {
    resolve_model_from(models, name, 0)
}

/// Returns the binding for the given caller-facing full model name, or
/// `ModelNotFound` when the catalogue has no entry of that name.
pub fn find_model_by_full_name(full_model_name: &String, provided_models: &AvailableModels) -> (r:
    Result<LlmModelDefinition, GatewayApiError>)
    ensures
        match r {
            Ok(m) => resolve_model(provided_models@, full_model_name@) == Some(m@),
            Err(e) => resolve_model(provided_models@, full_model_name@) is None && e@
                == GatewayApiErrorView::ModelNotFound(full_model_name@),
        },
{
    let n = provided_models.0.len();
    let mut i: usize = 0;
    while i < n
        invariant
            n == provided_models.0.len(),
            i <= n,
            resolve_model(provided_models@, full_model_name@) == resolve_model_from(
                provided_models@,
                full_model_name@,
                i as int,
            ),
        decreases n - i,
    {
        if provided_models.0[i].model == *full_model_name {
            let m = provided_models.0[i].clone();
            return Ok(m);
        }
        i = i + 1;
    }
    Err(GatewayApiError::ModelNotFound(full_model_name.clone()))
}

/// Resolution is idempotent: resolving the same model name twice against
/// the same catalogue yields an equal binding.
pub proof fn lemma_resolution_idempotent(
    models: Seq<LlmModelDefinitionView>,
    name: Seq<char>,
    first: LlmModelDefinitionView,
    second: LlmModelDefinitionView,
)
    requires
        resolve_model(models, name) == Some(first),
        resolve_model(models, name) == Some(second),
    ensures
        first == second,
{
}

proof fn lemma_resolve_from_properties(
    models: Seq<LlmModelDefinitionView>,
    name: Seq<char>,
    i: int,
)
    requires
        0 <= i <= models.len(),
    ensures
        resolve_model_from(models, name, i) matches Some(m) ==> models.contains(m) && m.model
            == name,
        (resolve_model_from(models, name, i) is Some) <==> exists|j: int|
            i <= j < models.len() && models[j].model == name,
    decreases models.len() - i,
{
    if i < models.len() {
        lemma_resolve_from_properties(models, name, i + 1);
        if models[i].model == name {
            assert(models.contains(models[i]));
        }
    }
}

/// A resolved binding is an entry of the catalogue, and its caller-facing
/// name is exactly the requested one.
pub proof fn lemma_resolved_binding_in_catalogue(
    models: Seq<LlmModelDefinitionView>,
    name: Seq<char>,
    m: LlmModelDefinitionView,
)
    requires
        resolve_model(models, name) == Some(m),
    ensures
        models.contains(m),
        m.model == name,
{
    lemma_resolve_from_properties(models, name, 0);
}

/// Resolution succeeds exactly when the catalogue holds an entry of the
/// requested full name.
pub proof fn lemma_resolution_success(models: Seq<LlmModelDefinitionView>, name: Seq<char>)
    ensures
        (resolve_model(models, name) is Some) <==> exists|j: int|
            0 <= j < models.len() && models[j].model == name,
{
    lemma_resolve_from_properties(models, name, 0);
}

} // verus!
