use vstd::prelude::*;

verus! {

/// EmbeddingsListUsage : Usage statistics for model inference.
#[derive(Clone, Copy, Debug, PartialEq, Eq, Structural)]
pub struct EmbeddingsListUsage {
    /// The total number of tokens processed, when reported.
    pub total_tokens: Option<i32>,
}

} // verus!
