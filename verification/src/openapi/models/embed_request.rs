use vstd::prelude::*;

verus! {

/// EmbedRequest : Generate embeddings for inputs.
#[derive(Clone, Debug, PartialEq)]
pub struct EmbedRequest {
    /// The embedding model to use.
    pub model: String,
    /// Model-specific parameters.
    pub parameters: Option<Box<EmbedRequestParameters>>,
    /// The texts to embed.
    pub inputs: Vec<EmbedRequestInputsInner>,
}

/// EmbedRequestParameters : Model-specific parameters.
#[derive(Clone, Debug, PartialEq)]
pub struct EmbedRequestParameters {
    /// Common property used to distinguish between types of data.
    pub input_type: Option<String>,
    /// How to handle inputs longer than those supported by the model.
    pub truncate: Option<String>,
}

/// One text to embed.
#[derive(Clone, Debug, PartialEq)]
pub struct EmbedRequestInputsInner {
    /// The text.
    pub text: Option<String>,
}

} // verus!
