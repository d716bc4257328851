pub mod errors;
pub mod headers;
pub mod pattern;
pub mod status;
pub mod text;
pub mod user_agent;
