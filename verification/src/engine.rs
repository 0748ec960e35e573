//! The closed set of engines a query can be routed to, and the alias
//! resolver that maps an input token to one of them.

use vstd::prelude::*;
use vstd::string::StringExecFns;
use crate::text::{eq_lowered, lower};

verus! {

/// The six destinations a query can be routed to.
#[derive(Debug, Clone, Copy, PartialEq, Eq, Structural)]
pub enum Engine {
    Google,
    DuckDuckGo,
    ChatGPT,
    WolframAlpha,
    Fast,
    Local,
}

/// The fixed alias table, over already lower-cased tokens. Several browser
/// names deliberately resolve to the DuckDuckGo engine; that cross-mapping
/// is part of the accepted alias set.
pub open spec fn engine_for_token(s: Seq<char>) -> Option<Engine> {
    if s == "google"@ || s == "g"@ {
        Some(Engine::Google)
    } else if s == "firefox"@ || s == "ff"@ || s == "fx"@ || s == "f"@ || s == "duckduckgo"@
        || s == "ddg"@ || s == "duck"@ || s == "d"@ {
        Some(Engine::DuckDuckGo)
    } else if s == "chatgpt"@ || s == "cg"@ || s == "chat"@ || s == "cgpt"@ || s == "gpt"@
        || s == "c"@ {
        Some(Engine::ChatGPT)
    } else if s == "wolframalpha"@ || s == "wolfram"@ || s == "alpha"@ || s == "wa"@ {
        Some(Engine::WolframAlpha)
    } else if s == "fast"@ || s == "math"@ || s == "quick"@ {
        Some(Engine::Fast)
    } else if s == "local"@ || s == "l"@ || s == "llm"@ || s == "ollama"@ || s == "mistral"@ {
        Some(Engine::Local)
    } else {
        None
    }
}

/// What alias resolution yields for a raw input token: the token is
/// lower-cased, then looked up in the fixed table.
pub open spec fn spec_parse_engine(input: Seq<char>) -> Option<Engine> {
    engine_for_token(lower(input))
}

/// Alias resolution is insensitive to the case of the input: two tokens
/// with the same lower-cased form resolve to the same engine.
pub proof fn lemma_parse_engine_case_insensitive(s: Seq<char>, t: Seq<char>)
    requires
        lower(s) == lower(t),
    ensures
        spec_parse_engine(s) == spec_parse_engine(t),
{
}

/// Resolves an input token to its engine, or reports the unrecognized token.
/// Exactly the tokens of the fixed table (compared case-insensitively) are
/// accepted; anything else is an error naming the token.
pub fn parse_engine(input: &str) -> (r: Result<Engine, String>)
    ensures
        match spec_parse_engine(input@) {
            Some(e) => r == Ok::<Engine, String>(e),
            None => r matches Err(m) && m@ == "Unknown engine alias: "@ + input@,
        },
{
    if eq_lowered(input, "google") || eq_lowered(input, "g") {
        Ok(Engine::Google)
    } else if eq_lowered(input, "firefox") || eq_lowered(input, "ff") || eq_lowered(input, "fx")
        || eq_lowered(input, "f") || eq_lowered(input, "duckduckgo") || eq_lowered(input, "ddg")
        || eq_lowered(input, "duck") || eq_lowered(input, "d") {
        Ok(Engine::DuckDuckGo)
    } else if eq_lowered(input, "chatgpt") || eq_lowered(input, "cg") || eq_lowered(input, "chat")
        || eq_lowered(input, "cgpt") || eq_lowered(input, "gpt") || eq_lowered(input, "c") {
        Ok(Engine::ChatGPT)
    } else if eq_lowered(input, "wolframalpha") || eq_lowered(input, "wolfram")
        || eq_lowered(input, "alpha") || eq_lowered(input, "wa") {
        Ok(Engine::WolframAlpha)
    } else if eq_lowered(input, "fast") || eq_lowered(input, "math") || eq_lowered(input, "quick") {
        Ok(Engine::Fast)
    } else if eq_lowered(input, "local") || eq_lowered(input, "l") || eq_lowered(input, "llm")
        || eq_lowered(input, "ollama") || eq_lowered(input, "mistral") {
        Ok(Engine::Local)
    } else {
        let mut m = String::from_str("Unknown engine alias: ");
        m.append(input);
        Err(m)
    }
}

} // verus!
