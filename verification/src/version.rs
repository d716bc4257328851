use vstd::prelude::*;

verus! {

/// The version of the Pinecone API that requests ask for.
pub const API_VERSION: &'static str = "2024-07";

} // verus!
