use puccinia::wolfram::{
    plan_wolfram_request, render_pods, wolfram_env_var, wolfram_mode, Pod, Subpod, WolframMode,
};

#[test]
fn no_flags_selects_short_mode() {
    assert_eq!(wolfram_mode(false, false, false), WolframMode::Short);
}

#[test]
fn only_full_selects_full_mode() {
    assert_eq!(wolfram_mode(false, false, true), WolframMode::Full);
}

#[test]
fn only_simple_selects_image_mode() {
    assert_eq!(wolfram_mode(true, false, false), WolframMode::Simple);
}

#[test]
fn simple_takes_precedence_over_full() {
    assert_eq!(wolfram_mode(true, false, true), WolframMode::Simple);
}

#[test]
fn short_takes_precedence_over_full() {
    assert_eq!(wolfram_mode(false, true, true), WolframMode::Short);
}

#[test]
fn each_mode_reads_its_own_variable() {
    assert_eq!(wolfram_env_var(&WolframMode::Simple), "WOLFRAM_API_SIMPLE");
    assert_eq!(wolfram_env_var(&WolframMode::Short), "WOLFRAM_API_SHORT");
    assert_eq!(wolfram_env_var(&WolframMode::Full), "WOLFRAM_API_FULL");
}

#[test]
fn request_url_appends_the_encoded_query() {
    let plan = plan_wolfram_request(
        &WolframMode::Short,
        Some(String::from("https://api.example/short?i=")),
        "2+2 & more",
    )
    .ok()
    .unwrap();
    assert_eq!(plan.mode, WolframMode::Short);
    assert_eq!(plan.url, "https://api.example/short?i=2%2B2%20%26%20more");
    assert_eq!(plan.announce, "Querying Wolfram Alpha [Short]...");
    let encoded = plan.url.strip_prefix("https://api.example/short?i=").unwrap();
    assert_eq!(urlencoding::decode(encoded).unwrap(), "2+2 & more");
}

#[test]
fn missing_variable_is_reported_per_mode() {
    assert_eq!(
        plan_wolfram_request(&WolframMode::Simple, None, "x").err(),
        Some(String::from("Missing env var: WOLFRAM_API_SIMPLE"))
    );
    assert_eq!(
        plan_wolfram_request(&WolframMode::Short, None, "x").err(),
        Some(String::from("Missing env var for selected mode: Short"))
    );
    assert_eq!(
        plan_wolfram_request(&WolframMode::Full, None, "x").err(),
        Some(String::from("Missing env var for selected mode: Full"))
    );
}

#[test]
fn image_mode_announces_the_download() {
    let plan = plan_wolfram_request(
        &WolframMode::Simple,
        Some(String::from("https://api.example/simple?i=")),
        "cats",
    )
    .ok()
    .unwrap();
    assert_eq!(plan.announce, "Downloading Wolfram Alpha image...");
}

#[test]
fn blank_subpod_text_is_omitted_and_nonempty_text_is_kept() {
    let pods = vec![
        Pod {
            title: String::from("Input"),
            subpods: vec![Subpod {
                plaintext: Some(String::from("   ")),
            }],
        },
        Pod {
            title: String::from("Result"),
            subpods: vec![Subpod {
                plaintext: Some(String::from("14")),
            }],
        },
    ];
    let lines = render_pods(&pods);
    assert_eq!(
        lines,
        vec![
            String::from("\n# Input"),
            String::from("\n# Result"),
            String::from("14"),
        ]
    );
}

#[test]
fn unicode_blank_subpod_text_is_omitted() {
    let pods = vec![Pod {
        title: String::from("Spacing"),
        subpods: vec![Subpod {
            plaintext: Some(String::from("\u{00A0}")),
        }],
    }];
    assert_eq!(render_pods(&pods), vec![String::from("\n# Spacing")]);
}

#[test]
fn absent_plaintext_contributes_nothing() {
    let pods = vec![Pod {
        title: String::from("Plot"),
        subpods: vec![
            Subpod { plaintext: None },
            Subpod {
                plaintext: Some(String::from("a curve")),
            },
        ],
    }];
    let lines = render_pods(&pods);
    assert_eq!(
        lines,
        vec![String::from("\n# Plot"), String::from("a curve")]
    );
}

#[test]
fn no_pods_print_nothing() {
    let pods: Vec<Pod> = Vec::new();
    let lines = render_pods(&pods);
    assert!(lines.is_empty());
}
