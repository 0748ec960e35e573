//! The parsed command line: the engine token, the query text, and the
//! engine-specific option flags. Argument parsing itself happens outside
//! the library; this is the shape it fills in.

use vstd::prelude::*;
use vstd::pervasive::unreached;
use crate::chatgpt::ChatGPTModel;
use crate::engine::{Engine, parse_engine, spec_parse_engine};

verus! {

/// One invocation's request: engine token, query text, and the option bag.
/// Flags that do not concern the selected engine are simply ignored by its
/// handler.
pub struct Cli {
    /// Engine name or alias.
    pub engine: String,
    /// Search query string.
    pub search: String,
    /// Open in a private browser window (web search).
    pub private: bool,
    /// Open in a new tab (web search).
    pub new_tab: bool,
    /// Chat model alias, when one was given.
    pub model: Option<ChatGPTModel>,
    /// Knowledge-engine image mode.
    pub simple: bool,
    /// Knowledge-engine short-text mode.
    pub short: bool,
    /// Knowledge-engine structured mode.
    pub full: bool,
}

impl Cli {
    /// Resolves the engine token. The token must be a known alias: an
    /// unresolvable token is a terminal error the caller rules out before
    /// asking for the engine.
    pub fn get_engine(&self) -> (e: Engine)
        requires
            spec_parse_engine(self.engine@) is Some,
        ensures
            spec_parse_engine(self.engine@) == Some(e),
    {
        match parse_engine(self.engine.as_str()) {
            Ok(e) => e,
            Err(_) => unreached(),
        }
    }
}

} // verus!
