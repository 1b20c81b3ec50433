use model_check::types::{AuthStrategy, ModelCheckService};

fn gemini_url(model: &str) -> String {
    format!(
        "https://relay.example{}",
        ModelCheckService::gemini_endpoint(model)
    )
}

#[test]
fn builds_claude_endpoints_for_protocols() {
    assert_eq!(
        ModelCheckService::resolve_claude_url(
            "https://relay.example/v1",
            AuthStrategy::Bearer,
            "openai_chat",
            false,
            &gemini_url("gpt-4o")
        ),
        "https://relay.example/v1/chat/completions"
    );
    assert_eq!(
        ModelCheckService::resolve_claude_url(
            "https://relay.example",
            AuthStrategy::ClaudeAuth,
            "anthropic",
            false,
            &gemini_url("sonnet")
        ),
        "https://relay.example/v1/messages"
    );
}

fn resolve(base_url: &str, strategy: AuthStrategy, api_format: &str, full: bool) -> String {
    ModelCheckService::resolve_claude_url(base_url, strategy, api_format, full, "gemini://url")
}

#[test]
fn every_format_has_its_path() {
    let bearer = AuthStrategy::Bearer;
    assert_eq!(resolve("http://a", bearer, "openai_responses", false), "http://a/v1/responses");
    assert_eq!(resolve("http://a/v1", bearer, "openai_responses", false), "http://a/v1/responses");
    assert_eq!(resolve("http://a", bearer, "openai_chat", false), "http://a/v1/chat/completions");
    assert_eq!(resolve("http://a/v1", bearer, "anthropic", false), "http://a/v1/messages");
    assert_eq!(resolve("http://a/v1", bearer, "something", false), "http://a/v1/messages");
    let copilot = AuthStrategy::GitHubCopilot;
    assert_eq!(resolve("http://a", copilot, "openai_responses", false), "http://a/v1/responses");
    assert_eq!(
        resolve("http://a/v1", copilot, "openai_responses", false),
        "http://a/v1/v1/responses"
    );
    assert_eq!(resolve("http://a", copilot, "anthropic", false), "http://a/chat/completions");
}

#[test]
fn native_gemini_goes_before_a_complete_address() {
    assert_eq!(resolve("http://a/", AuthStrategy::Google, "gemini_native", true), "gemini://url");
    assert_eq!(resolve("http://a/x/", AuthStrategy::Bearer, "openai_chat", true), "http://a/x/");
}

#[test]
fn trailing_slashes_and_the_version_make_no_difference() {
    for format in ["openai_chat", "openai_responses", "anthropic"] {
        let plain = resolve("http://a", AuthStrategy::Bearer, format, false);
        for base in ["http://a/", "http://a///", "http://a/v1", "http://a/v1/"] {
            assert_eq!(resolve(base, AuthStrategy::Bearer, format, false), plain);
        }
    }
}

#[test]
fn gemini_endpoint_names_the_model() {
    assert_eq!(
        ModelCheckService::gemini_endpoint("gemini-2.5-flash"),
        "/v1beta/models/gemini-2.5-flash:streamGenerateContent?alt=sse"
    );
}

#[test]
fn codex_addresses() {
    let urls = ModelCheckService::resolve_codex_urls;
    assert_eq!(urls("http://a/x", true, "/responses", "ignored"), vec!["http://a/x"]);
    assert_eq!(
        urls("http://a//", false, "//responses", "http://a/v1/responses"),
        vec!["http://a/v1/responses", "http://a/responses"]
    );
    assert_eq!(
        urls("http://a/v1/", false, "/responses", "http://a/v1/responses"),
        vec!["http://a/v1/responses"]
    );
    assert_eq!(
        ModelCheckService::codex_url_parts("http://a//", "//responses"),
        ("http://a".to_string(), "responses".to_string())
    );
}
