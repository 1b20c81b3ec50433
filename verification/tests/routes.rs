use model_check::json::Json;
use model_check::routes::Route;
use model_check::types::{
    AnthropicProfile, AppError, AppType, AuthInfo, AuthStrategy, ModelCheckService, Provider,
};

fn text(value: &str) -> Json {
    Json::String(value.to_string())
}

fn object(members: Vec<(&str, Json)>) -> Json {
    Json::Object(
        members
            .into_iter()
            .map(|(key, value)| (key.to_string(), value))
            .collect(),
    )
}

fn provider(config: Json) -> Provider {
    Provider::with_id("test".to_string(), "Test".to_string(), config, None)
}

fn profile() -> AnthropicProfile {
    AnthropicProfile {
        default_model: "default-model".to_string(),
        beta_features: "beta".to_string(),
        user_agent: "agent".to_string(),
    }
}

/// Kind, address, key, strategy and format of a route, and how many headers it brings.
type Summary = (
    &'static str,
    String,
    String,
    AuthStrategy,
    Option<String>,
    Option<usize>,
);

fn summary(route: Route) -> Summary {
    match route {
        Route::Claude {
            base_url,
            auth,
            api_format,
            extra_headers,
            ..
        } => (
            "messages",
            base_url,
            auth.api_key,
            auth.strategy,
            api_format,
            extra_headers.map(|headers| headers.len()),
        ),
        Route::Codex { base_url, auth, .. } => {
            ("codex", base_url, auth.api_key, auth.strategy, None, None)
        }
        Route::Gemini {
            base_url,
            auth,
            extra_headers,
        } => (
            "gemini",
            base_url,
            auth.api_key,
            auth.strategy,
            None,
            extra_headers.map(|headers| headers.len()),
        ),
    }
}

fn error_text(error: AppError) -> String {
    match error {
        AppError::Message(text) => text,
        AppError::Localized { key, zh, en } => format!("{key}|{zh}|{en}"),
        AppError::HttpStatus { status, body } => format!("{status}|{body}"),
    }
}

fn outcome(route: Result<Route, AppError>) -> Result<Summary, String> {
    match route {
        Ok(route) => Ok(summary(route)),
        Err(error) => Err(error_text(error)),
    }
}

fn structured(app_type: AppType, config: Json) -> Result<Summary, String> {
    outcome(ModelCheckService::check_structured_provider(&app_type, &provider(config)))
}

fn structured_config(api: &str) -> Json {
    object(vec![
        ("baseUrl", text(" http://a ")),
        ("apiKey", text(" k ")),
        ("api", text(api)),
        ("headers", object(vec![("x", text("y"))])),
    ])
}

#[test]
fn structured_protocols() {
    let expect = |kind, strategy, format: Option<&str>| {
        Ok((
            kind,
            "http://a".to_string(),
            "k".to_string(),
            strategy,
            format.map(|format| format.to_string()),
            Some(1),
        ))
    };
    for app_type in [AppType::OpenClaw, AppType::Pi] {
        assert_eq!(
            structured(app_type, structured_config(" openai-completions ")),
            expect("messages", AuthStrategy::Bearer, Some("openai_chat"))
        );
        assert_eq!(
            structured(app_type, structured_config("openai-responses")),
            expect("messages", AuthStrategy::Bearer, Some("openai_responses"))
        );
        assert_eq!(
            structured(app_type, structured_config("anthropic-messages")),
            expect("messages", AuthStrategy::ClaudeAuth, Some("anthropic"))
        );
        assert_eq!(
            structured(app_type, structured_config("google-generative-ai")),
            expect("gemini", AuthStrategy::Google, None)
        );
    }
    assert_eq!(
        structured(AppType::Pi, structured_config("bedrock-converse-stream")),
        Err("model_check_bedrock_not_supported|AWS Bedrock 需要 SigV4 签名，当前不支持独立模型测试。请直接通过 Pi 验证。|AWS Bedrock requires SigV4 signing and is not supported by the standalone model test. Verify it through Pi.".to_string())
    );
    assert_eq!(
        structured(AppType::OpenClaw, structured_config("smoke")),
        Err("OpenClaw 暂不支持协议: smoke".to_string())
    );
}

#[test]
fn structured_settings_that_are_missing() {
    let of = |members| structured(AppType::OpenClaw, object(members));
    assert_eq!(
        of(vec![("authHeader", Json::Bool(true))]),
        Err("model_check_custom_auth_header|该 OpenClaw Provider 使用自定义认证头，无法安全推断测试请求。请直接在 OpenClaw 中测试。|This OpenClaw Provider uses a custom auth header that CC Switch cannot safely infer. Test it directly in OpenClaw.".to_string())
    );
    assert_eq!(
        of(vec![("authHeader", Json::Bool(false))]),
        Err("缺少 baseUrl".to_string())
    );
    assert_eq!(
        of(vec![("authHeader", text("true")), ("baseUrl", text("http://a"))]),
        Err("缺少 apiKey".to_string())
    );
    assert_eq!(
        of(vec![("baseUrl", text("http://a")), ("apiKey", text("k")), ("api", text(" "))]),
        Err("OpenClaw 缺少 api 协议配置".to_string())
    );
    assert_eq!(
        of(vec![("baseUrl", text("u")), ("apiKey", text("k")), ("api", text("openai-responses"))])
            .map(|summary| summary.5),
        Ok(None)
    );
}

fn opencode(npm: &str, options: Vec<(&str, Json)>) -> Result<Summary, String> {
    outcome(ModelCheckService::check_opencode(&provider(object(vec![
        ("npm", text(npm)),
        ("options", object(options)),
    ]))))
}

#[test]
fn opencode_packages() {
    let key = || ("apiKey", text("k"));
    let expect = |kind, url: &str, strategy, format: Option<&str>| {
        Ok((
            kind,
            url.to_string(),
            "k".to_string(),
            strategy,
            format.map(|format| format.to_string()),
            None,
        ))
    };
    assert_eq!(
        opencode("@ai-sdk/openai", vec![key()]),
        expect(
            "messages",
            "https://api.openai.com/v1",
            AuthStrategy::Bearer,
            Some("openai_responses")
        )
    );
    assert_eq!(
        opencode("@ai-sdk/anthropic", vec![key()]),
        expect(
            "messages",
            "https://api.anthropic.com",
            AuthStrategy::ClaudeAuth,
            Some("anthropic")
        )
    );
    assert_eq!(
        opencode("@ai-sdk/google", vec![key(), ("baseURL", text(" "))]),
        expect(
            "gemini",
            "https://generativelanguage.googleapis.com",
            AuthStrategy::Google,
            None
        )
    );
    assert_eq!(
        opencode("@ai-sdk/openai-compatible", vec![key(), ("baseURL", text("http://a"))]),
        expect("messages", "http://a", AuthStrategy::Bearer, Some("openai_chat"))
    );
    assert_eq!(
        opencode("@ai-sdk/openai-compatible", vec![key()]),
        Err("OpenCode 缺少 options.baseURL".to_string())
    );
    assert_eq!(
        opencode("@ai-sdk/amazon-bedrock", vec![key(), ("baseURL", text("http://a"))]),
        Err("model_check_bedrock_not_supported|AWS Bedrock 需要 SigV4 签名，当前不支持独立模型测试。请直接通过 OpenCode 验证。|AWS Bedrock requires SigV4 signing and is not supported by the standalone model test. Verify it through OpenCode.".to_string())
    );
    assert_eq!(
        opencode("other", vec![key(), ("baseURL", text("http://a"))]),
        Err("OpenCode 暂不支持 SDK 包: other".to_string())
    );
}

#[test]
fn opencode_settings_that_are_missing() {
    let of = |config| outcome(ModelCheckService::check_opencode(&provider(config)));
    assert_eq!(of(Json::Null), Err("OpenCode 缺少 npm 协议配置".to_string()));
    assert_eq!(
        of(object(vec![("npm", text("x"))])),
        Err("OpenCode 缺少 options 配置".to_string())
    );
    assert_eq!(
        of(object(vec![("npm", text("x")), ("options", Json::Null)])),
        Err("缺少 options.apiKey".to_string())
    );
}

fn hermes(members: Vec<(&str, Json)>) -> Result<Summary, String> {
    outcome(ModelCheckService::check_hermes(&provider(object(members))))
}

fn hermes_mode(mode: &str) -> Result<(AuthStrategy, Option<String>), String> {
    hermes(vec![
        ("base_url", text("http://a")),
        ("api_key", text("k")),
        ("api_mode", text(mode)),
        ("headers", object(vec![("x", text("y"))])),
    ])
    .map(|summary| {
        assert_eq!(summary.5, None);
        (summary.3, summary.4)
    })
}

#[test]
fn hermes_modes() {
    assert_eq!(
        hermes_mode("chat_completions"),
        Ok((AuthStrategy::Bearer, Some("openai_chat".to_string())))
    );
    assert_eq!(
        hermes_mode("anthropic_messages"),
        Ok((AuthStrategy::ClaudeAuth, Some("anthropic".to_string())))
    );
    assert_eq!(
        hermes_mode("codex_responses"),
        Ok((AuthStrategy::Bearer, Some("openai_responses".to_string())))
    );
    assert_eq!(
        hermes_mode("bedrock_converse"),
        Err("model_check_bedrock_not_supported|AWS Bedrock 需要 SigV4 签名，当前不支持独立模型测试。请直接通过 Hermes 验证。|AWS Bedrock requires SigV4 signing and is not supported by the standalone model test. Verify it through Hermes.".to_string())
    );
    assert_eq!(hermes_mode("other"), Err("Hermes 暂不支持协议: other".to_string()));
    assert_eq!(hermes(vec![]), Err("缺少 base_url".to_string()));
    assert_eq!(
        hermes(vec![("base_url", text("u"))]),
        Err("缺少 api_key".to_string())
    );
    assert_eq!(
        hermes(vec![("base_url", text("u")), ("api_key", text("k"))]),
        Err("Hermes 缺少 api_mode 配置".to_string())
    );
}

fn auth(api_key: &str, strategy: AuthStrategy) -> AuthInfo {
    AuthInfo::new(api_key.to_string(), strategy)
}

#[test]
fn codex_routes() {
    let mut codex = provider(Json::Null);
    let route = |provider: &Provider, auth: Option<AuthInfo>| {
        outcome(ModelCheckService::check_codex(provider, auth, None, None))
    };
    assert_eq!(route(&codex, None), Err("base_url 未配置".to_string()));
    codex.routing.base_url = Some("http://a".to_string());
    assert_eq!(route(&codex, None), Err("API Key 或托管认证未配置".to_string()));
    codex.routing.auth = Some(auth("codex_placeholder", AuthStrategy::CodexOAuth));
    assert!(route(&codex, None)
        .expect_err("nobody has signed in")
        .starts_with("model_check_managed_auth|"));
    assert_eq!(
        route(&codex, Some(auth("k", AuthStrategy::CodexOAuth))).map(|summary| summary.0),
        Ok("codex")
    );
    assert_eq!(
        route(&codex, Some(auth("k_placeholder", AuthStrategy::Bearer))).map(|summary| summary.0),
        Ok("codex")
    );
    codex.routing.codex_converts_to_anthropic = true;
    assert_eq!(
        route(&codex, None).map(|summary| (summary.0, summary.4)),
        Ok(("messages", Some("anthropic".to_string())))
    );
}

fn check(app_type: AppType, provider: &Provider) -> Result<(String, Result<Summary, String>), String> {
    match ModelCheckService::check(&app_type, provider, None, None, None, None, None, &profile()) {
        Ok(plan) => Ok((plan.model, outcome(plan.route))),
        Err(error) => Err(error_text(error)),
    }
}

#[test]
fn a_check_without_a_model_ends_at_once() {
    assert_eq!(
        check(AppType::Hermes, &provider(Json::Null)),
        Err("model_check_model_missing|该供应商没有可用于测试的模型，请先在 Provider 配置中填写模型。|This provider has no model configured for testing. Add a model to the Provider first.".to_string())
    );
}

#[test]
fn what_ends_a_check_and_what_fails_it() {
    let mut plain = provider(object(vec![("models", object(vec![("m", Json::Null)]))]));
    assert_eq!(check(AppType::Claude, &plain), Err("base_url 未配置".to_string()));
    assert_eq!(check(AppType::Gemini, &plain), Err("base_url 未配置".to_string()));
    assert_eq!(
        check(AppType::Codex, &plain),
        Ok(("gpt-4o-mini".to_string(), Err("base_url 未配置".to_string())))
    );
    assert_eq!(
        check(AppType::Hermes, &plain),
        Ok(("m".to_string(), Err("缺少 base_url".to_string())))
    );
    assert_eq!(
        check(AppType::OpenCode, &plain),
        Ok(("m".to_string(), Err("OpenCode 缺少 npm 协议配置".to_string())))
    );
    assert_eq!(
        check(AppType::Pi, &plain),
        Ok(("m".to_string(), Err("缺少 baseUrl".to_string())))
    );
    plain.routing.base_url = Some("http://a".to_string());
    assert_eq!(
        check(AppType::ClaudeDesktop, &plain),
        Err("API Key 或托管认证未配置".to_string())
    );
    assert_eq!(
        check(AppType::Gemini, &plain),
        Err("Gemini API Key 或 OAuth 未配置".to_string())
    );
    plain.routing.auth = Some(auth("k", AuthStrategy::Bearer));
    assert_eq!(
        check(AppType::Claude, &plain).map(|plan| plan.1.map(|summary| summary.0)),
        Ok(Ok("messages"))
    );
    assert_eq!(
        check(AppType::Gemini, &plain).map(|plan| plan.1.map(|summary| summary.0)),
        Ok(Ok("gemini"))
    );
}

#[test]
fn overrides_come_first() {
    let mut plain = provider(Json::Null);
    plain.routing.base_url = Some("http://own".to_string());
    plain.routing.auth = Some(auth("own", AuthStrategy::Bearer));
    let plan = ModelCheckService::check(
        &AppType::Claude,
        &plain,
        Some("asked".to_string()),
        Some(auth("given", AuthStrategy::Other(7))),
        Some("http://given".to_string()),
        Some("openai_chat".to_string()),
        Some("account".to_string()),
        &profile(),
    )
    .expect("a plan");
    assert_eq!(plan.model, "asked");
    match plan.route {
        Ok(Route::Claude {
            base_url,
            auth,
            api_format,
            extra_headers,
            managed_account_id,
        }) => {
            assert_eq!(base_url, "http://given");
            assert_eq!(auth.api_key, "given");
            assert_eq!(api_format, Some("openai_chat".to_string()));
            assert!(extra_headers.is_none());
            assert_eq!(managed_account_id, Some("account".to_string()));
        }
        other => panic!("unexpected route: {:?}", other),
    }
}

#[test]
fn required_settings() {
    let read = |value: Option<&Json>| {
        ModelCheckService::required_string(value, "field").map_err(error_text)
    };
    assert_eq!(read(Some(&text(" a "))), Ok("a".to_string()));
    assert_eq!(read(Some(&text("  "))), Err("缺少 field".to_string()));
    assert_eq!(read(Some(&Json::Null)), Err("缺少 field".to_string()));
    assert_eq!(read(None), Err("缺少 field".to_string()));
}
