//! Support for AI-based spec generation: prompt building, output
//! extraction and XML sanitizing.

pub mod executor;
pub mod parser;
pub mod prompts;
pub mod sanitize;
