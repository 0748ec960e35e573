use puccinia::chatgpt::{
    build_chat_prompt, build_chat_request_body, first_choice, format_model, parse_model,
    plan_chat_request, ChatConfigError, ChatGPTModel,
};

#[test]
fn every_documented_alias_parses() {
    assert_eq!(parse_model("o3"), Ok(ChatGPTModel::O3Mini));
    assert_eq!(parse_model("o3m"), Ok(ChatGPTModel::O3Mini));
    assert_eq!(parse_model("o3-mini"), Ok(ChatGPTModel::O3Mini));
    assert_eq!(parse_model("o1"), Ok(ChatGPTModel::O1));
    assert_eq!(parse_model("o1m"), Ok(ChatGPTModel::O1Mini));
    assert_eq!(parse_model("o1-mini"), Ok(ChatGPTModel::O1Mini));
    assert_eq!(parse_model("4o"), Ok(ChatGPTModel::FourO));
    assert_eq!(parse_model("four-o"), Ok(ChatGPTModel::FourO));
    assert_eq!(parse_model("4om"), Ok(ChatGPTModel::FourOMini));
    assert_eq!(parse_model("4o-mini"), Ok(ChatGPTModel::FourOMini));
    assert_eq!(parse_model("four-o-mini"), Ok(ChatGPTModel::FourOMini));
    assert_eq!(parse_model("O3"), Ok(ChatGPTModel::O3Mini));
    assert_eq!(parse_model("Four-O"), Ok(ChatGPTModel::FourO));
}

#[test]
fn an_unlisted_alias_fails_to_parse() {
    assert_eq!(parse_model("o2"), Err(String::from("Invalid model: o2")));
    assert!(parse_model("gpt-4o").is_err());
    assert!(parse_model("").is_err());
}

#[test]
fn from_str_goes_through_the_alias_table() {
    assert_eq!("o1m".parse::<ChatGPTModel>(), Ok(ChatGPTModel::O1Mini));
    assert_eq!(
        "turbo".parse::<ChatGPTModel>(),
        Err(String::from("Invalid model: turbo"))
    );
}

#[test]
fn each_alias_maps_to_its_provider_model_name() {
    assert_eq!(format_model(&ChatGPTModel::O3Mini), "gpt-3.5-turbo");
    assert_eq!(format_model(&ChatGPTModel::O1), "gpt-3.5-turbo-0125");
    assert_eq!(format_model(&ChatGPTModel::O1Mini), "gpt-3.5-turbo-instruct");
    assert_eq!(format_model(&ChatGPTModel::FourO), "gpt-4o");
    assert_eq!(format_model(&ChatGPTModel::FourOMini), "gpt-4o-mini");
}

#[test]
fn prompt_wraps_the_query_in_the_template() {
    let prompt = build_chat_prompt("What is Rust?");
    assert_eq!(
        prompt,
        "\nYou are a concise, intelligent assistant. Always provide direct, helpful answers \
         without unnecessary explanations unless explicitly asked. Avoid repeating the \
         question.\n\nQ: What is Rust?\n"
    );
}

#[test]
fn request_body_is_valid_json_with_model_and_prompt() {
    let body = build_chat_request_body("gpt-4o-mini", "\nQ: hi\n");
    let value: serde_json::Value = serde_json::from_slice(&body).unwrap();
    assert_eq!(value["model"].as_str(), Some("gpt-4o-mini"));
    assert_eq!(value["messages"][0]["role"].as_str(), Some("user"));
    assert_eq!(value["messages"][0]["content"].as_str(), Some("\nQ: hi\n"));
}

#[test]
fn request_body_escapes_quotes_and_backslashes() {
    let body = build_chat_request_body("m", "say \"hi\" and \\ back");
    let value: serde_json::Value = serde_json::from_slice(&body).unwrap();
    assert_eq!(
        value["messages"][0]["content"].as_str(),
        Some("say \"hi\" and \\ back")
    );
}

#[test]
fn missing_api_key_stops_the_request() {
    let r = plan_chat_request(
        None,
        Some(String::from("https://api.example/v1/chat")),
        &None,
        "hi",
    );
    assert_eq!(r.err(), Some(ChatConfigError::MissingApiKey));
    assert_eq!(
        ChatConfigError::MissingApiKey.message(),
        "Missing OPENAI_API_KEY env var"
    );
}

#[test]
fn missing_api_url_stops_the_request() {
    let r = plan_chat_request(Some(String::from("SECRET-REDACTED")), None, &None, "hi");
    assert_eq!(r.err(), Some(ChatConfigError::MissingApiUrl));
    assert_eq!(
        ChatConfigError::MissingApiUrl.message(),
        "Missing OPENAI_API_URL env var"
    );
}

#[test]
fn complete_configuration_yields_the_request() {
    let plan = plan_chat_request(
        Some(String::from("SECRET-REDACTED")),
        Some(String::from("https://api.example/v1/chat")),
        &Some(ChatGPTModel::FourO),
        "hello there",
    )
    .ok()
    .unwrap();
    assert_eq!(plan.url, "https://api.example/v1/chat");
    assert_eq!(plan.auth_header, "Bearer SECRET-REDACTED");
    assert_eq!(plan.model_name, "gpt-4o");
    assert_eq!(plan.announce, "Querying ChatGPT [gpt-4o]...");
    let value: serde_json::Value = serde_json::from_slice(&plan.body).unwrap();
    assert_eq!(value["model"].as_str(), Some("gpt-4o"));
    let content = value["messages"][0]["content"].as_str().unwrap();
    assert!(content.contains("Q: hello there\n"));
}

#[test]
fn default_model_is_the_fallback() {
    let plan = plan_chat_request(
        Some(String::from("SECRET-REDACTED")),
        Some(String::from("https://api.example/v1/chat")),
        &None,
        "hi",
    )
    .ok()
    .unwrap();
    assert_eq!(plan.model_name, "gpt-4o-mini");
}

#[test]
fn first_choice_is_trimmed_and_absent_choices_are_reported() {
    let choices = vec![String::from("  42\n"), String::from("ignored")];
    assert_eq!(first_choice(&choices), Some(String::from("42")));
    let empty: Vec<String> = Vec::new();
    assert_eq!(first_choice(&empty), None);
}

#[test]
fn first_choice_trims_unicode_whitespace() {
    let choices = vec![String::from("\u{000C}x")];
    assert_eq!(first_choice(&choices), Some(String::from("x")));
    let choices = vec![String::from("\u{00A0}answer\u{2028}")];
    assert_eq!(first_choice(&choices), Some(String::from("answer")));
}
