//! The request that asks the inference service for embeddings.

use crate::openapi::models::{EmbedRequest, EmbedRequestInputsInner, EmbedRequestParameters};
use crate::utils::text::owned;
use vstd::prelude::*;

verus! {

/// The request that generates embeddings with `model` for each of `inputs`, in order, with the
/// model-specific `parameters` if any.
pub fn embed_request(model: &str, parameters: Option<EmbedRequestParameters>, inputs: &Vec<&str>) -> (r:
    EmbedRequest)
    ensures
        r.model@ == model@,
        r.parameters == match parameters {
            Some(p) => Some(Box::new(p)),
            None => None,
        },
        r.inputs.len() == inputs.len(),
        forall|i: int|
            0 <= i < inputs.len() ==> (#[trigger] r.inputs[i]).text.deep_view() == Some(inputs[i]@),
{
    let mut items: Vec<EmbedRequestInputsInner> = Vec::new();
    let mut i: usize = 0;
    while i < inputs.len()
        invariant
            i <= inputs.len(),
            items.len() == i,
            forall|j: int| 0 <= j < i ==> (#[trigger] items[j]).text.deep_view() == Some(inputs[j]@),
        decreases inputs.len() - i,
    {
        items.push(EmbedRequestInputsInner { text: Some(owned(inputs[i])) });
        i = i + 1;
    }
    let parameters = match parameters {
        Some(p) => Some(Box::new(p)),
        None => None,
    };
    EmbedRequest { model: owned(model), parameters, inputs: items }
}

} // verus!
