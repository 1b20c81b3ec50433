use model_check::codex::CodexStep;
use model_check::http::HttpRequest;
use model_check::json::Json;
use model_check::messages::{BodyTransform, ClaudeDraft, CopilotIdentity, HeaderSource};
use model_check::routes::Route;
use model_check::types::{
    AnthropicProfile, AppError, AppType, AuthInfo, AuthStrategy, CheckProtocol, ModelCheckService, Provider,
    ProviderMeta,
};

fn text(value: &str) -> Json {
    Json::String(value.to_string())
}

fn number(value: &str) -> Json {
    Json::Number(value.to_string())
}

fn object(members: Vec<(&str, Json)>) -> Json {
    Json::Object(
        members
            .into_iter()
            .map(|(key, value)| (key.to_string(), value))
            .collect(),
    )
}

fn message() -> Json {
    object(vec![("role", text("user")), ("content", text("Reply with OK."))])
}

fn provider() -> Provider {
    Provider::with_id("id-1".to_string(), "Test".to_string(), Json::Null, None)
}

fn meta() -> ProviderMeta {
    ProviderMeta {
        claude_desktop_model_routes: vec![],
        is_full_url: None,
        prompt_cache_key: None,
        custom_user_agent_header: Ok(None),
    }
}

fn profile() -> AnthropicProfile {
    AnthropicProfile {
        default_model: "default-model".to_string(),
        beta_features: "beta-a,beta-b".to_string(),
        user_agent: "cli/1".to_string(),
    }
}

fn copilot() -> CopilotIdentity {
    CopilotIdentity {
        user_agent: "ua".to_string(),
        editor_version: "ev".to_string(),
        plugin_version: "pv".to_string(),
        integration_id: "ii".to_string(),
        api_version: "av".to_string(),
    }
}

fn auth(strategy: AuthStrategy) -> AuthInfo {
    AuthInfo::new("key".to_string(), strategy)
}

fn pairs(headers: &[(&str, &str)]) -> Vec<(String, String)> {
    headers
        .iter()
        .map(|(name, value)| (name.to_string(), value.to_string()))
        .collect()
}

const STREAM: [(&str, &str); 3] = [
    ("content-type", "application/json"),
    ("accept", "text/event-stream"),
    ("accept-encoding", "identity"),
];

fn after_stream(rest: &[(&str, &str)]) -> Vec<(String, String)> {
    let mut headers = pairs(&STREAM);
    headers.extend(pairs(rest));
    headers
}

fn error_text(error: AppError) -> String {
    match error {
        AppError::Message(text) => text,
        AppError::Localized { key, .. } => key,
        AppError::HttpStatus { status, .. } => format!("{status}"),
    }
}

#[test]
fn bodies_of_requests() {
    assert_eq!(
        ModelCheckService::claude_request_body("m"),
        object(vec![
            ("model", text("m")),
            ("max_tokens", number("8")),
            ("messages", Json::Array(vec![message()])),
            ("stream", Json::Bool(true)),
        ])
    );
    assert_eq!(
        ModelCheckService::codex_request_body("m", true),
        object(vec![
            ("model", text("m")),
            ("messages", Json::Array(vec![message()])),
            ("max_tokens", number("1")),
            ("stream", Json::Bool(true)),
        ])
    );
    assert_eq!(
        ModelCheckService::codex_request_body("m", false),
        object(vec![
            ("model", text("m")),
            ("input", Json::Array(vec![message()])),
            ("stream", Json::Bool(true)),
            ("store", Json::Bool(false)),
        ])
    );
    assert_eq!(
        ModelCheckService::gemini_request_body(),
        object(vec![(
            "contents",
            Json::Array(vec![object(vec![
                ("role", text("user")),
                (
                    "parts",
                    Json::Array(vec![object(vec![("text", text("Reply with OK."))])])
                ),
            ])])
        )])
    );
}

#[test]
fn reasoning_effort_in_a_body() {
    let body = || object(vec![("a", Json::Null), ("reasoning", Json::Null)]);
    let with = ModelCheckService::codex_reasoning_body;
    assert_eq!(with(body(), false, None, true), body());
    assert_eq!(
        with(body(), false, Some("low"), false),
        object(vec![
            ("a", Json::Null),
            ("reasoning", object(vec![("effort", text("low"))])),
        ])
    );
    assert_eq!(with(body(), true, Some("low"), false), body());
    assert_eq!(
        with(body(), true, Some("low"), true),
        object(vec![
            ("a", Json::Null),
            ("reasoning", Json::Null),
            ("reasoning_effort", text("low")),
        ])
    );
    assert_eq!(
        with(Json::Null, true, Some("low"), true),
        object(vec![("reasoning_effort", text("low"))])
    );
}

fn draft(strategy: AuthStrategy, format: Option<&str>, provider: &Provider) -> ClaudeDraft {
    ModelCheckService::check_claude(
        "http://a/",
        &auth(strategy),
        "m",
        provider,
        format,
        "gemini://m",
    )
    .expect("a draft")
}

#[test]
fn drafts_of_messages_requests() {
    let plain = provider();
    let own = draft(AuthStrategy::ClaudeAuth, None, &plain);
    assert_eq!(own.api_format, "anthropic");
    assert_eq!(own.url, "http://a/v1/messages");
    assert_eq!(own.body, ModelCheckService::claude_request_body("m"));
    assert!(matches!(own.transform, BodyTransform::Keep));
    assert_eq!(own.header_source, HeaderSource::ClaudeAdapter);

    let chat = draft(AuthStrategy::Bearer, Some("openai_chat"), &plain);
    assert_eq!(chat.url, "http://a/v1/chat/completions");
    assert!(matches!(chat.transform, BodyTransform::Chat));
    assert_eq!(chat.header_source, HeaderSource::Check);

    let gemini = draft(AuthStrategy::Google, Some("gemini_native"), &plain);
    assert_eq!(gemini.url, "gemini://m");
    assert!(matches!(gemini.transform, BodyTransform::Gemini));
    assert_eq!(gemini.header_source, HeaderSource::GeminiAdapter);

    let managed = draft(AuthStrategy::CodexOAuth, Some("openai_responses"), &plain);
    assert_eq!(managed.header_source, HeaderSource::ClaudeAdapter);
    let copilot = draft(AuthStrategy::GitHubCopilot, Some("anthropic"), &plain);
    assert_eq!(copilot.header_source, HeaderSource::Check);
}

#[test]
fn only_native_gemini_needs_the_gemini_address() {
    let mut provider = provider();
    assert!(!ModelCheckService::needs_gemini_url(&provider, None));
    assert!(!ModelCheckService::needs_gemini_url(&provider, Some("openai_chat")));
    assert!(ModelCheckService::needs_gemini_url(&provider, Some("gemini_native")));
    provider.routing.claude_api_format = "gemini_native".to_string();
    assert!(ModelCheckService::needs_gemini_url(&provider, None));
    assert!(!ModelCheckService::needs_gemini_url(&provider, Some("anthropic")));
}

#[test]
fn the_prompt_cache_key_is_the_setting_or_the_id() {
    let key = |provider: &Provider| {
        match draft(AuthStrategy::Bearer, Some("openai_responses"), provider).transform {
            BodyTransform::Responses { prompt_cache_key } => prompt_cache_key,
            other => panic!("unexpected transformation: {:?}", other),
        }
    };
    let mut plain = provider();
    assert_eq!(key(&plain), "id-1");
    plain.meta = Some(meta());
    assert_eq!(key(&plain), "id-1");
    plain.meta = Some(ProviderMeta {
        prompt_cache_key: Some("cache".to_string()),
        ..meta()
    });
    assert_eq!(key(&plain), "cache");
}

#[test]
fn a_placeholder_makes_no_draft() {
    for strategy in [AuthStrategy::CodexOAuth, AuthStrategy::XaiOAuth] {
        let error = ModelCheckService::check_claude(
            "http://a",
            &AuthInfo::new("x_placeholder".to_string(), strategy),
            "m",
            &provider(),
            None,
            "",
        )
        .expect_err("nobody has signed in");
        assert_eq!(error_text(error), "model_check_managed_auth");
    }
}

fn request(
    strategy: AuthStrategy,
    format: &str,
    provider: &Provider,
    adapter: Result<Vec<(String, String)>, String>,
    extra: Option<&Vec<(String, Json)>>,
) -> Result<HttpRequest, String> {
    ModelCheckService::claude_request_with_id(
        draft(strategy, Some(format), provider),
        &auth(strategy),
        "m",
        provider,
        Ok(text("body")),
        adapter,
        &profile(),
        &copilot(),
        "id",
        extra,
        Some("account"),
    )
    .map_err(error_text)
}

#[test]
fn headers_of_messages_requests() {
    let plain = provider();
    let adapter = || Ok(pairs(&[("x-key", "key")]));
    let own = request(AuthStrategy::ClaudeAuth, "anthropic", &plain, adapter(), None)
        .expect("a request");
    assert_eq!(
        own.headers,
        after_stream(&[
            ("x-key", "key"),
            ("anthropic-version", "2023-06-01"),
            ("anthropic-beta", "beta-a,beta-b"),
            ("anthropic-dangerous-direct-browser-access", "true"),
            ("accept-language", "*"),
            ("user-agent", "cli/1"),
            ("x-app", "cli"),
        ])
    );
    assert_eq!(own.protocol, CheckProtocol::Anthropic);
    assert_eq!(own.model, "m");
    assert_eq!(own.body, text("body"));

    let chat = request(AuthStrategy::Bearer, "openai_chat", &plain, Err("no".to_string()), None)
        .expect("a request");
    assert_eq!(chat.headers, after_stream(&[("authorization", "Bearer key")]));
    assert_eq!(chat.protocol, CheckProtocol::OpenAi);

    let managed = request(AuthStrategy::CodexOAuth, "openai_responses", &plain, adapter(), None)
        .expect("a request");
    assert_eq!(
        managed.headers,
        after_stream(&[("x-key", "key"), ("chatgpt-account-id", "account")])
    );

    let gemini = request(AuthStrategy::Google, "gemini_native", &plain, adapter(), None)
        .expect("a request");
    assert_eq!(gemini.headers, after_stream(&[("x-key", "key")]));
    assert_eq!(gemini.protocol, CheckProtocol::Gemini);
}

#[test]
fn headers_of_copilot() {
    let mut plain = provider();
    plain.meta = Some(ProviderMeta {
        custom_user_agent_header: Ok(Some("mine".to_string())),
        ..meta()
    });
    let sent = request(AuthStrategy::GitHubCopilot, "anthropic", &plain, Err("no".to_string()), None)
        .expect("a request");
    assert_eq!(
        sent.headers,
        after_stream(&[
            ("authorization", "Bearer key"),
            ("user-agent", "ua"),
            ("editor-version", "ev"),
            ("editor-plugin-version", "pv"),
            ("copilot-integration-id", "ii"),
            ("x-github-api-version", "av"),
            ("openai-intent", "conversation-agent"),
            ("x-initiator", "user"),
            ("x-interaction-type", "conversation-agent"),
            ("x-request-id", "id"),
            ("x-agent-task-id", "id"),
        ])
    );
}

#[test]
fn extra_headers_and_the_user_agent_come_last() {
    let mut plain = provider();
    plain.meta = Some(ProviderMeta {
        custom_user_agent_header: Ok(Some("mine".to_string())),
        ..meta()
    });
    let extra = vec![
        ("x-a".to_string(), text("a")),
        ("x-b".to_string(), Json::Bool(true)),
        ("x-c".to_string(), text("c")),
    ];
    let sent = request(AuthStrategy::Bearer, "openai_chat", &plain, Ok(vec![]), Some(&extra))
        .expect("a request");
    assert_eq!(
        sent.headers,
        after_stream(&[
            ("authorization", "Bearer key"),
            ("x-a", "a"),
            ("x-c", "c"),
            ("user-agent", "mine"),
        ])
    );
    plain.meta = Some(ProviderMeta {
        custom_user_agent_header: Err("not a header value".to_string()),
        ..meta()
    });
    assert_eq!(ModelCheckService::custom_user_agent(&plain), None);
}

#[test]
fn failures_on_the_way_to_a_messages_request() {
    let plain = provider();
    assert_eq!(
        request(AuthStrategy::ClaudeAuth, "anthropic", &plain, Err("no".to_string()), None)
            .expect_err("no headers"),
        "no"
    );
    let error = ModelCheckService::claude_request_with_id(
        draft(AuthStrategy::Bearer, Some("openai_chat"), &plain),
        &auth(AuthStrategy::Bearer),
        "m",
        &plain,
        Err("bad".to_string()),
        Ok(vec![]),
        &profile(),
        &copilot(),
        "id",
        None,
        None,
    )
    .expect_err("no body");
    assert_eq!(error_text(error), "构造模型测试请求失败: bad");
}

#[test]
fn copilot_requests_have_a_fresh_random_identifier() {
    let plain = provider();
    let identifier = || {
        let sent = ModelCheckService::claude_request(
            draft(AuthStrategy::GitHubCopilot, Some("openai_chat"), &plain),
            &auth(AuthStrategy::GitHubCopilot),
            "m",
            &plain,
            Ok(Json::Null),
            Ok(vec![]),
            &profile(),
            &copilot(),
            None,
            None,
        )
        .expect("a request");
        assert_eq!(sent.headers[12].0, "x-request-id");
        assert_eq!(sent.headers[13].0, "x-agent-task-id");
        assert_eq!(sent.headers[12].1, sent.headers[13].1);
        sent.headers[12].1.clone()
    };
    let id = identifier();
    assert_eq!(id.len(), 36);
    let parsed = uuid::Uuid::parse_str(&id).expect("a UUID");
    assert_eq!(parsed.get_version_num(), 4);
    assert_eq!(parsed.to_string(), id);
    assert_ne!(identifier(), id);
}

#[test]
fn codex_drafts_and_requests() {
    let mut codex = provider();
    codex.routing.codex_uses_chat_completions = true;
    assert_eq!(ModelCheckService::codex_endpoint(&codex), "/chat/completions");
    codex.routing.codex_uses_chat_completions = false;
    assert_eq!(ModelCheckService::codex_endpoint(&codex), "/responses");
    let draft =
        ModelCheckService::codex_draft(&codex, "http://a/", "o3@low", "http://a/v1/responses");
    assert_eq!(draft.urls, vec!["http://a/v1/responses", "http://a/responses"]);
    assert_eq!(draft.actual_model, "o3");
    assert_eq!(draft.reasoning_effort, Some("low".to_string()));
    assert_eq!(draft.body, ModelCheckService::codex_request_body("o3", false));

    let sent = ModelCheckService::codex_request(
        "http://a/responses",
        draft.body,
        "o3",
        &codex,
        &auth(AuthStrategy::CodexOAuth),
        Ok(pairs(&[("x-key", "key")])),
        Some("account"),
    )
    .expect("a request");
    assert_eq!(
        sent.headers,
        after_stream(&[
            ("user-agent", "codex_cli_rs/0.80.0 (Windows 10; x86_64) Terminal"),
            ("originator", "codex_cli_rs"),
            ("x-key", "key"),
            ("originator", "codex_cli_rs"),
            ("version", "0.144.1"),
            ("chatgpt-account-id", "account"),
        ])
    );
    assert_eq!(sent.protocol, CheckProtocol::OpenAi);
    assert_eq!(sent.model, "o3");

    codex.meta = Some(ProviderMeta {
        is_full_url: Some(true),
        custom_user_agent_header: Ok(Some("mine".to_string())),
        ..meta()
    });
    let full = ModelCheckService::codex_draft(&codex, "http://a/x/", "o3", "http://a/v1/responses");
    assert_eq!(full.urls, vec!["http://a/x/"]);
    let plain = ModelCheckService::codex_request(
        "http://a/x/",
        Json::Null,
        "o3",
        &codex,
        &auth(AuthStrategy::Bearer),
        Ok(vec![]),
        Some("account"),
    )
    .expect("a request");
    assert_eq!(
        plain.headers,
        after_stream(&[("user-agent", "mine"), ("originator", "codex_cli_rs")])
    );
    let error = ModelCheckService::codex_request(
        "http://a/x/",
        Json::Null,
        "o3",
        &codex,
        &auth(AuthStrategy::Bearer),
        Err("no".to_string()),
        None,
    )
    .expect_err("no headers");
    assert_eq!(error_text(error), "no");
}

#[test]
fn a_missing_codex_address_leads_to_the_next() {
    let refused = |status: u16| {
        Err(AppError::HttpStatus {
            status,
            body: "".to_string(),
        })
    };
    let step = ModelCheckService::codex_step;
    assert!(matches!(step(0, 2, refused(404)), CodexStep::TryNext));
    assert!(matches!(step(1, 2, refused(404)), CodexStep::Done(Err(_))));
    assert!(matches!(step(0, 1, refused(404)), CodexStep::Done(Err(_))));
    assert!(matches!(step(0, 2, refused(500)), CodexStep::Done(Err(_))));
    assert!(matches!(
        step(0, 2, Ok((200, "m".to_string()))),
        CodexStep::Done(Ok((200, _)))
    ));
    assert_eq!(
        error_text(ModelCheckService::codex_exhausted().expect_err("no address")),
        "没有可用的 Codex 请求端点"
    );
}

#[test]
fn gemini_requests() {
    let mut plain = provider();
    plain.meta = Some(ProviderMeta {
        custom_user_agent_header: Ok(Some("mine".to_string())),
        ..meta()
    });
    let extra = vec![("x-a".to_string(), text("a"))];
    let sent = ModelCheckService::check_gemini(
        "http://a/x",
        "models/m",
        &plain,
        Ok(pairs(&[("x-goog-api-key", "key")])),
        Some(&extra),
    )
    .expect("a request");
    assert_eq!(sent.url, "http://a/x");
    assert_eq!(
        sent.headers,
        pairs(&[
            ("content-type", "application/json"),
            ("accept", "text/event-stream"),
            ("x-goog-api-key", "key"),
            ("x-a", "a"),
            ("user-agent", "mine"),
        ])
    );
    assert_eq!(sent.body, ModelCheckService::gemini_request_body());
    assert_eq!(sent.protocol, CheckProtocol::Gemini);
    assert_eq!(sent.model, "models/m");
    let error =
        ModelCheckService::check_gemini("u", "m", &plain, Err("no".to_string()), None)
            .expect_err("no headers");
    assert_eq!(error_text(error), "no");
}

#[test]
fn from_a_configuration_to_a_request() {
    let open_claw = Provider::with_id(
        "id-1".to_string(),
        "Test".to_string(),
        object(vec![
            ("baseUrl", text("https://relay.example/v1/")),
            ("apiKey", text("key")),
            ("api", text("openai-completions")),
            ("headers", object(vec![("x-team", text("blue"))])),
            ("models", Json::Array(vec![object(vec![("id", text("m"))])])),
        ]),
        None,
    );
    let plan = ModelCheckService::check(
        &AppType::OpenClaw,
        &open_claw,
        None,
        None,
        None,
        None,
        None,
        &profile(),
    )
    .expect("a plan");
    let (base_url, auth, api_format, extra_headers) = match plan.route {
        Ok(Route::Claude {
            base_url,
            auth,
            api_format,
            extra_headers,
            ..
        }) => (base_url, auth, api_format, extra_headers),
        other => panic!("unexpected route: {:?}", other),
    };
    let draft = ModelCheckService::check_claude(
        &base_url,
        &auth,
        &plan.model,
        &open_claw,
        api_format.as_deref(),
        "",
    )
    .expect("a draft");
    let sent = ModelCheckService::claude_request(
        draft,
        &auth,
        &plan.model,
        &open_claw,
        Ok(Json::Null),
        Ok(vec![]),
        &profile(),
        &copilot(),
        extra_headers,
        None,
    )
    .expect("a request");
    assert_eq!(sent.url, "https://relay.example/v1/chat/completions");
    assert_eq!(
        sent.headers,
        after_stream(&[("authorization", "Bearer key"), ("x-team", "blue")])
    );
    assert_eq!(sent.protocol, CheckProtocol::OpenAi);
    assert_eq!(sent.model, "m");
}
