use puccinia::engine::{parse_engine, Engine};

#[test]
fn fast_query_evaluates_with_precedence() {
    assert_eq!(parse_engine("fast"), Ok(Engine::Fast));
    let result = meval::eval_str("2 + 3 * 4").unwrap();
    assert_eq!(format!("{}", result), "14");
}

#[test]
fn invalid_expression_is_an_error() {
    assert!(meval::eval_str("2 +").is_err());
    assert!(meval::eval_str("nosuchname(3)").is_err());
}

#[test]
fn local_prompt_trims_and_fills_the_template() {
    let prompt = puccinia::local::build_local_prompt("  capital of France \n");
    assert!(prompt.starts_with("\nYou are a fast and accurate assistant."));
    assert!(prompt.contains("Q: Timezone Amsterdam\nA: CET (UTC+1)"));
    assert!(prompt.contains("Q: What\u{2019}s the capital of Japan?\nA: Tokyo"));
    assert!(prompt.contains("Q: Define inertia\nA: Resistance to change in motion"));
    assert!(prompt.ends_with("\n\nQ: capital of France\nA:"));
}

#[test]
fn local_prompt_trims_unicode_whitespace() {
    let prompt = puccinia::local::build_local_prompt("\u{000B}w");
    assert!(prompt.ends_with("\n\nQ: w\nA:"));
}
