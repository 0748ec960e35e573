use puccinia::browser::{
    browser_flag, browser_mode, build_search_url, plan_browser_launch, BrowserMode,
};
use puccinia::engine::Engine;

#[test]
fn private_wins_over_new_tab() {
    assert_eq!(browser_mode(true, true), BrowserMode::Private);
    assert_eq!(browser_mode(true, false), BrowserMode::Private);
}

#[test]
fn new_tab_is_the_default() {
    assert_eq!(browser_mode(false, false), BrowserMode::NewTab);
    assert_eq!(browser_mode(false, true), BrowserMode::NewTab);
}

#[test]
fn mode_flags_are_the_browser_arguments() {
    assert_eq!(browser_flag(&BrowserMode::Private), "--private-window");
    assert_eq!(browser_flag(&BrowserMode::NewTab), "--new-tab");
}

#[test]
fn google_url_embeds_the_encoded_query() {
    let url = build_search_url(&Engine::Google, "a b&c?d#e");
    assert_eq!(url, "https://www.google.com/search?q=a%20b%26c%3Fd%23e");
}

#[test]
fn duckduckgo_url_embeds_the_encoded_query() {
    let url = build_search_url(&Engine::DuckDuckGo, "rust programming");
    assert_eq!(url, "https://duckduckgo.com/?q=rust%20programming");
}

#[test]
fn encoded_query_round_trips() {
    let query = "a b&c?d#e %20 ~ok.-_";
    let url = build_search_url(&Engine::DuckDuckGo, query);
    let encoded = url.strip_prefix("https://duckduckgo.com/?q=").unwrap();
    let decoded = urlencoding::decode(encoded).unwrap();
    assert_eq!(decoded, query);
}

#[test]
fn default_launch_plan_for_duckduckgo() {
    let plan = plan_browser_launch(&Engine::DuckDuckGo, "rust programming", false, false);
    assert_eq!(plan.flag, "--new-tab");
    assert_eq!(plan.url, "https://duckduckgo.com/?q=rust%20programming");
    assert_eq!(
        plan.announce,
        "→ Launching zen-browser with search: rust programming"
    );
}

#[test]
fn private_launch_plan_for_google() {
    let plan = plan_browser_launch(&Engine::Google, "cats", true, true);
    assert_eq!(plan.flag, "--private-window");
    assert_eq!(plan.url, "https://www.google.com/search?q=cats");
}
