//! Request and response models of the Pinecone control plane API, and the plain
//! description of its HTTP transport (errors and configuration).

pub mod apis;
pub mod models;
