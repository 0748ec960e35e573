//! Routes a free-form search query to one of six engines: two browser-opened
//! web searches, a chat-completion API, a knowledge-engine API with three
//! response modes, a local arithmetic evaluator and a local language model.
//! This library holds the verified logic of that dispatcher: alias
//! resolution, option handling, URL and request construction, and response
//! rendering. The surrounding binary performs the process launches and HTTP
//! calls that the plans built here describe.

pub mod browser;
pub mod chatgpt;
pub mod cli;
pub mod engine;
pub mod local;
pub mod text;
pub mod urlenc;
pub mod wolfram;
