use crate::openapi::models::EmbeddingsListUsage as OpenApiEmbeddingsListUsage;
use vstd::prelude::*;

verus! {

/// EmbeddingsListUsage : Usage statistics for model inference including any instruction prefixes
#[derive(Clone, Copy, Default, Debug, PartialEq, Eq, Structural)]
pub struct EmbeddingsListUsage {
    /// The total number of tokens processed.
    pub total_tokens: i32,
}

impl From<OpenApiEmbeddingsListUsage> for EmbeddingsListUsage {
    /// The usage reported, with 0 tokens when none are reported.
    fn from(openapi_model: OpenApiEmbeddingsListUsage) -> (r: EmbeddingsListUsage)
        ensures
            r.total_tokens == match openapi_model.total_tokens {
                Some(n) => n,
                None => 0,
            },
    {
        EmbeddingsListUsage {
            total_tokens: match openapi_model.total_tokens {
                Some(n) => n,
                None => 0,
            },
        }
    }
}

impl vstd::std_specs::convert::FromSpecImpl<OpenApiEmbeddingsListUsage> for EmbeddingsListUsage {
    open spec fn obeys_from_spec() -> bool {
        true
    }

    open spec fn from_spec(v: OpenApiEmbeddingsListUsage) -> EmbeddingsListUsage {
        EmbeddingsListUsage {
            total_tokens: match v.total_tokens {
                Some(n) => n,
                None => 0,
            },
        }
    }
}

} // verus!
