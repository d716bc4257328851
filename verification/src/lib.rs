//! Verified core of a client library for the Pinecone vector database.

pub mod config;
pub mod models;
pub mod openapi;
pub mod pinecone;
pub mod utils;
pub mod version;
