//! The two browser-opened web-search engines: building the provider URL and
//! choosing how the browser is launched. The launch itself happens outside
//! this library, driven by the plan built here.

use vstd::prelude::*;
use vstd::string::StringExecFns;
use vstd::utf8::encode_utf8;
use vstd::utf8::decode_utf8;
use crate::engine::Engine;
use crate::urlenc::{lemma_percent_round_trip, percent_decoded, percent_encode, percent_encoded};

verus! {

/// How the browser is asked to open the search URL.
#[derive(Debug, Clone, Copy, PartialEq, Eq, Structural)]
pub enum BrowserMode {
    Private,
    NewTab,
}

/// What the two browser flags select: a private window wins whenever it is
/// asked for; otherwise a new tab, which is also the default when neither
/// flag is set.
pub open spec fn spec_browser_mode(private: bool, new_tab: bool) -> BrowserMode {
    if private {
        BrowserMode::Private
    } else {
        BrowserMode::NewTab
    }
}

pub fn browser_mode(private: bool, new_tab: bool) -> (m: BrowserMode)
    ensures
        m == spec_browser_mode(private, new_tab),
{
    if private {
        BrowserMode::Private
    } else if new_tab {
        BrowserMode::NewTab
    } else {
        // default behavior
        BrowserMode::NewTab
    }
}

/// The command-line flag handed to the browser for each mode.
pub open spec fn spec_browser_flag(m: BrowserMode) -> Seq<char> {
    match m {
        BrowserMode::Private => "--private-window"@,
        BrowserMode::NewTab => "--new-tab"@,
    }
}

pub fn browser_flag(m: &BrowserMode) -> (r: &'static str)
    ensures
        r@ == spec_browser_flag(*m),
{
    match m {
        BrowserMode::Private => "--private-window",
        BrowserMode::NewTab => "--new-tab",
    }
}

/// The fixed template each provider's search URL starts with.
pub open spec fn search_url_prefix(e: Engine) -> Seq<char> {
    if e == Engine::Google {
        "https://www.google.com/search?q="@
    } else {
        "https://duckduckgo.com/?q="@
    }
}

/// The full search URL: the provider's template with the percent-encoded
/// query appended.
pub open spec fn spec_search_url(e: Engine, q: Seq<char>) -> Seq<char> {
    search_url_prefix(e) + percent_encoded(encode_utf8(q))
}

/// Builds the provider-specific search URL for the raw query text. Only the
/// two web-search engines have one.
pub fn build_search_url(engine: &Engine, query: &str) -> (r: String)
    requires
        *engine == Engine::Google || *engine == Engine::DuckDuckGo,
    ensures
        r@ == spec_search_url(*engine, query@),
{
    let enc = percent_encode(query);
    let mut url = match engine {
        Engine::Google => String::from_str("https://www.google.com/search?q="),
        _ => String::from_str("https://duckduckgo.com/?q="),
    };
    url.append(enc.as_str());
    url
}

/// A built search URL carries the query correctly: what follows the
/// provider's template is the percent-encoded query, percent-decoding it
/// yields exactly the query's UTF-8 bytes, and those decode back to the
/// original query text.
pub proof fn lemma_search_url_round_trip(e: Engine, q: Seq<char>)
    requires
        e == Engine::Google || e == Engine::DuckDuckGo,
    ensures
        spec_search_url(e, q).skip(search_url_prefix(e).len() as int) == percent_encoded(
            encode_utf8(q),
        ),
        percent_decoded(percent_encoded(encode_utf8(q))) == Some(encode_utf8(q)),
        decode_utf8(encode_utf8(q)) == q,
{
    assert(spec_search_url(e, q).skip(search_url_prefix(e).len() as int) =~= percent_encoded(
        encode_utf8(q),
    ));
    lemma_percent_round_trip(q);
}

/// Everything the launch step needs: the mode flag, the URL, and the status
/// line echoing the query.
pub struct BrowserPlan {
    pub flag: String,
    pub url: String,
    pub announce: String,
}

/// Assembles the whole browser launch: mode selection, URL construction and
/// the status line, exactly as the options dictate.
pub fn plan_browser_launch(engine: &Engine, query: &str, private: bool, new_tab: bool) -> (p:
    BrowserPlan)
    requires
        *engine == Engine::Google || *engine == Engine::DuckDuckGo,
    ensures
        p.flag@ == spec_browser_flag(spec_browser_mode(private, new_tab)),
        p.url@ == spec_search_url(*engine, query@),
        p.announce@ == "→ Launching zen-browser with search: "@ + query@,
{
    let mode = browser_mode(private, new_tab);
    let mut announce = String::from_str("→ Launching zen-browser with search: ");
    announce.append(query);
    BrowserPlan { flag: String::from_str(browser_flag(&mode)), url: build_search_url(engine, query), announce }
}

} // verus!
