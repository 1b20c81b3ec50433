use model_check::json::Json;
use model_check::types::{
    AnthropicProfile, AppType, ModelCheckService, ModelRoute, Provider, ProviderMeta,
};

fn text(value: &str) -> Json {
    Json::String(value.to_string())
}

fn object(members: Vec<(&str, Json)>) -> Json {
    Json::Object(
        members
            .into_iter()
            .map(|(key, value)| (key.to_string(), value))
            .collect(),
    )
}

fn provider(config: Json) -> Provider {
    Provider::with_id("test".to_string(), "Test".to_string(), config, None)
}

fn profile() -> AnthropicProfile {
    AnthropicProfile {
        default_model: "default-model".to_string(),
        beta_features: "beta".to_string(),
        user_agent: "agent".to_string(),
    }
}

fn meta(routes: Vec<&str>) -> ProviderMeta {
    ProviderMeta {
        claude_desktop_model_routes: routes
            .into_iter()
            .map(|model| ModelRoute {
                model: model.to_string(),
            })
            .collect(),
        is_full_url: None,
        prompt_cache_key: None,
        custom_user_agent_header: Ok(None),
    }
}

fn resolve(app_type: AppType, provider: &Provider, requested: Option<&str>) -> Option<String> {
    ModelCheckService::resolve_test_model(&app_type, provider, requested, &profile())
}

#[test]
fn resolves_provider_model_before_default() {
    let provider = provider(object(vec![(
        "env",
        object(vec![("ANTHROPIC_MODEL", text("provider-model"))]),
    )]));
    assert_eq!(
        ModelCheckService::resolve_test_model(&AppType::Claude, &provider, None, &profile()),
        Some("provider-model".to_string())
    );
    assert_eq!(
        ModelCheckService::resolve_test_model(
            &AppType::Claude,
            &provider,
            Some("explicit-model"),
            &profile()
        ),
        Some("explicit-model".to_string())
    );
}

#[test]
fn resolves_first_model_from_additive_provider() {
    let provider = provider(object(vec![(
        "models",
        Json::Array(vec![
            object(vec![("id", text("first-model"))]),
            object(vec![("id", text("second-model"))]),
        ]),
    )]));
    assert_eq!(
        ModelCheckService::resolve_test_model(&AppType::OpenClaw, &provider, None, &profile()),
        Some("first-model".to_string())
    );
}

#[test]
fn parses_codex_reasoning_suffix() {
    assert_eq!(
        ModelCheckService::parse_model_with_effort("gpt-5@low"),
        ("gpt-5".to_string(), Some("low".to_string()))
    );
    assert_eq!(
        ModelCheckService::parse_model_with_effort("gpt-4o"),
        ("gpt-4o".to_string(), None)
    );
}

#[test]
fn reasoning_suffix_edge_cases() {
    let parse = ModelCheckService::parse_model_with_effort;
    assert_eq!(parse("o3#high"), ("o3".to_string(), Some("high".to_string())));
    assert_eq!(parse(" o3 @ high "), ("o3".to_string(), Some("high".to_string())));
    assert_eq!(parse("o3@"), ("o3".to_string(), None));
    assert_eq!(parse("o3@  "), ("o3".to_string(), None));
    assert_eq!(parse("@high"), ("@high".to_string(), None));
    assert_eq!(parse("  #high"), ("  #high".to_string(), None));
    assert_eq!(parse("a#b@c"), ("a#b".to_string(), Some("c".to_string())));
    assert_eq!(parse("a@b@c"), ("a".to_string(), Some("b@c".to_string())));
    assert_eq!(parse("模型@高"), ("模型".to_string(), Some("高".to_string())));
    assert_eq!(parse(""), ("".to_string(), None));
}

#[test]
fn a_request_is_trimmed_and_a_blank_one_is_passed_over() {
    let plain = provider(object(vec![("model", text(" g "))]));
    assert_eq!(
        resolve(AppType::Gemini, &plain, Some("  asked\u{3000}")),
        Some("asked".to_string())
    );
    assert_eq!(resolve(AppType::Gemini, &plain, Some(" \n")), Some("g".to_string()));
}

#[test]
fn falls_back_on_defaults() {
    let empty = provider(object(vec![]));
    assert_eq!(
        resolve(AppType::Claude, &empty, None),
        Some("default-model".to_string())
    );
    assert_eq!(
        resolve(AppType::ClaudeDesktop, &empty, None),
        Some("default-model".to_string())
    );
    assert_eq!(resolve(AppType::Codex, &empty, None), Some("gpt-4o-mini".to_string()));
    assert_eq!(
        resolve(AppType::GrokBuild, &empty, None),
        Some("gpt-4o-mini".to_string())
    );
    assert_eq!(
        resolve(AppType::Gemini, &empty, None),
        Some("gemini-2.5-flash".to_string())
    );
    for app_type in [
        AppType::OpenCode,
        AppType::OpenClaw,
        AppType::Hermes,
        AppType::Pi,
    ] {
        assert_eq!(resolve(app_type, &empty, None), None);
    }
}

#[test]
fn desktop_routes_come_before_family_defaults() {
    let mut routed = provider(object(vec![(
        "env",
        object(vec![
            ("ANTHROPIC_MODEL", text("   ")),
            ("ANTHROPIC_DEFAULT_OPUS_MODEL", text("opus")),
            ("ANTHROPIC_DEFAULT_HAIKU_MODEL", text("haiku")),
        ]),
    )]));
    assert_eq!(resolve(AppType::Claude, &routed, None), Some("haiku".to_string()));
    routed.meta = Some(meta(vec![" ", " routed ", "later"]));
    assert_eq!(resolve(AppType::Claude, &routed, None), Some("routed".to_string()));
}

#[test]
fn codex_takes_the_upstream_model_as_it_is() {
    let mut codex = provider(Json::Null);
    codex.routing.codex_upstream_model = Some(" upstream ".to_string());
    assert_eq!(
        resolve(AppType::Codex, &codex, None),
        Some(" upstream ".to_string())
    );
}

#[test]
fn gemini_reads_the_environment_first() {
    let both = provider(object(vec![
        ("env", object(vec![("GEMINI_MODEL", text("from-env"))])),
        ("model", text("from-model")),
    ]));
    assert_eq!(resolve(AppType::Gemini, &both, None), Some("from-env".to_string()));
    let one = provider(object(vec![
        ("env", object(vec![("GEMINI_MODEL", Json::Bool(true))])),
        ("model", text("from-model")),
    ]));
    assert_eq!(resolve(AppType::Gemini, &one, None), Some("from-model".to_string()));
}

#[test]
fn first_model_of_lists_and_objects() {
    let list = Json::Array(vec![
        text("not an object"),
        object(vec![("name", text("no id"))]),
        object(vec![("id", text("  "))]),
        object(vec![("id", text(" a "))]),
    ]);
    assert_eq!(ModelCheckService::first_model(Some(&list)), Some("a".to_string()));
    let keys = object(vec![("  ", Json::Null), (" b ", Json::Null), ("c", Json::Null)]);
    assert_eq!(ModelCheckService::first_model(Some(&keys)), Some("b".to_string()));
    assert_eq!(ModelCheckService::first_model(Some(&text("a"))), None);
    assert_eq!(ModelCheckService::first_model(None), None);
}
