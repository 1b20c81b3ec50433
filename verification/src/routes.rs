//! From a provider's configuration to the kind of request that checks it.
use vstd::prelude::*;

use crate::http::headers_of;
use crate::json::{tree_of_ref, Json, JsonTree};
use crate::models::{test_model, usable_json, usable_string};
use crate::text;
use crate::types::{
    auth_of, either, message, text_of, AnthropicProfile, AppError, AppErrorView, AppType, AuthInfo,
    AuthInfoView, AuthStrategy, ModelCheckService, Provider,
};

verus! {

/// The kind of request that a check sends, and what it sends it with.
#[derive(Debug)]
pub enum Route<'a> {
    /// A messages request, in Anthropic's format or one that it is translated to.
    Claude {
        base_url: String,
        auth: AuthInfo,
        /// The wire format, where it is not the provider's own.
        api_format: Option<String>,
        extra_headers: Option<&'a Vec<(String, Json)>>,
        managed_account_id: Option<String>,
    },
    /// A Codex request.
    Codex { base_url: String, auth: AuthInfo, managed_account_id: Option<String> },
    /// A native Gemini request.
    Gemini {
        base_url: String,
        auth: AuthInfo,
        extra_headers: Option<&'a Vec<(String, Json)>>,
    },
}

/// What a [`Route`] stands for.
pub enum RouteView {
    Claude {
        base_url: Seq<char>,
        auth: AuthInfoView,
        api_format: Option<Seq<char>>,
        extra_headers: Option<Seq<(Seq<char>, JsonTree)>>,
        managed_account_id: Option<Seq<char>>,
    },
    Codex { base_url: Seq<char>, auth: AuthInfoView, managed_account_id: Option<Seq<char>> },
    Gemini {
        base_url: Seq<char>,
        auth: AuthInfoView,
        extra_headers: Option<Seq<(Seq<char>, JsonTree)>>,
    },
}

impl<'a> View for Route<'a> {
    type V = RouteView;

    open spec fn view(&self) -> RouteView {
        match *self {
            Route::Claude { base_url, auth, api_format, extra_headers, managed_account_id } => {
                RouteView::Claude {
                    base_url: base_url@,
                    auth: auth@,
                    api_format: text_of(api_format),
                    extra_headers: headers_of(extra_headers),
                    managed_account_id: text_of(managed_account_id),
                }
            },
            Route::Codex { base_url, auth, managed_account_id } => RouteView::Codex {
                base_url: base_url@,
                auth: auth@,
                managed_account_id: text_of(managed_account_id),
            },
            Route::Gemini { base_url, auth, extra_headers } => RouteView::Gemini {
                base_url: base_url@,
                auth: auth@,
                extra_headers: headers_of(extra_headers),
            },
        }
    }
}

/// A route, or why there is none.
pub open spec fn route_of(result: Result<Route, AppError>) -> Result<RouteView, AppErrorView> {
    match result {
        Ok(route) => Ok(route@),
        Err(error) => Err(error@),
    }
}

/// A check that is ready to run: its model, and its route or the failure that it
/// reports without sending anything.
#[derive(Debug)]
pub struct CheckPlan<'a> {
    pub model: String,
    pub route: Result<Route<'a>, AppError>,
}

/// What a [`CheckPlan`] stands for.
pub struct CheckPlanView {
    pub model: Seq<char>,
    pub route: Result<RouteView, AppErrorView>,
}

impl<'a> View for CheckPlan<'a> {
    type V = CheckPlanView;

    open spec fn view(&self) -> CheckPlanView {
        CheckPlanView { model: self.model@, route: route_of(self.route) }
    }
}

/// A plan, or the error that ends the check without a result.
pub open spec fn plan_of(result: Result<CheckPlan, AppError>) -> Result<
    CheckPlanView,
    AppErrorView,
> {
    match result {
        Ok(plan) => Ok(plan@),
        Err(error) => Err(error@),
    }
}

/// The error of a provider that has no model to test.
pub open spec fn model_missing() -> AppErrorView {
    AppErrorView::Localized {
        key: "model_check_model_missing"@,
        zh: "该供应商没有可用于测试的模型，请先在 Provider 配置中填写模型。"@,
        en: "This provider has no model configured for testing. Add a model to the Provider first."@,
    }
}

/// The error of a managed account that nobody has signed in to.
pub open spec fn sign_in_missing() -> AppErrorView {
    AppErrorView::Localized {
        key: "model_check_managed_auth"@,
        zh: "该 Provider 使用托管 OAuth，请先在认证中心完成登录。"@,
        en: "This Provider uses managed OAuth. Finish sign-in in the authentication center first."@,
    }
}

/// The error of a provider with an authentication header of its own.
pub open spec fn custom_auth_header(app_name: Seq<char>) -> AppErrorView {
    AppErrorView::Localized {
        key: "model_check_custom_auth_header"@,
        zh: "该 "@ + app_name + " Provider 使用自定义认证头，无法安全推断测试请求。请直接在 "@
            + app_name + " 中测试。"@,
        en: "This "@ + app_name
            + " Provider uses a custom auth header that CC Switch cannot safely infer. Test it directly in "@
            + app_name + "."@,
    }
}

/// The error of a provider behind AWS Bedrock.
pub open spec fn bedrock_unsupported(app_name: Seq<char>) -> AppErrorView {
    AppErrorView::Localized {
        key: "model_check_bedrock_not_supported"@,
        zh: "AWS Bedrock 需要 SigV4 签名，当前不支持独立模型测试。请直接通过 "@ + app_name + " 验证。"@,
        en: "AWS Bedrock requires SigV4 signing and is not supported by the standalone model test. Verify it through "@
            + app_name + "."@,
    }
}

/// The credential is the stand-in of a managed account that nobody has signed in to.
pub open spec fn awaits_sign_in(auth: AuthInfoView) -> bool {
    (auth.strategy is CodexOAuth || auth.strategy is XaiOAuth) && "_placeholder"@.is_suffix_of(
        auth.api_key,
    )
}

/// A usable string, or the error that names the setting which lacks one.
pub open spec fn required(value: Option<JsonTree>, field: Seq<char>) -> Result<
    Seq<char>,
    AppErrorView,
> {
    match usable_json(value) {
        Some(text) => Ok(text),
        None => message("缺少 "@ + field),
    }
}

/// The members of an object, where the value is one.
pub open spec fn members(value: Option<JsonTree>) -> Option<Seq<(Seq<char>, JsonTree)>> {
    match value {
        Some(tree) => tree.as_object(),
        None => None,
    }
}

/// What a protocol setting asks for.
pub enum Dialect {
    /// A messages request in this format, with this kind of credential.
    Claude(Seq<char>, AuthStrategy),
    Gemini,
    Bedrock,
    Unknown,
}

/// The route of a dialect.
pub open spec fn dialect_route(
    dialect: Dialect,
    base_url: Seq<char>,
    api_key: Seq<char>,
    extra_headers: Option<Seq<(Seq<char>, JsonTree)>>,
    app_name: Seq<char>,
    unknown: Seq<char>,
) -> Result<RouteView, AppErrorView> {
    match dialect {
        Dialect::Claude(format, strategy) => Ok(
            RouteView::Claude {
                base_url,
                auth: AuthInfoView { api_key, strategy },
                api_format: Some(format),
                extra_headers,
                managed_account_id: None,
            },
        ),
        Dialect::Gemini => Ok(
            RouteView::Gemini {
                base_url,
                auth: AuthInfoView { api_key, strategy: AuthStrategy::Google },
                extra_headers,
            },
        ),
        Dialect::Bedrock => Err(bedrock_unsupported(app_name)),
        Dialect::Unknown => message(unknown),
    }
}

/// The `api` settings of OpenClaw and Pi.
pub open spec fn structured_dialect(api: Seq<char>) -> Dialect {
    if api == "openai-completions"@ {
        Dialect::Claude("openai_chat"@, AuthStrategy::Bearer)
    } else if api == "openai-responses"@ {
        Dialect::Claude("openai_responses"@, AuthStrategy::Bearer)
    } else if api == "anthropic-messages"@ {
        Dialect::Claude("anthropic"@, AuthStrategy::ClaudeAuth)
    } else if api == "google-generative-ai"@ {
        Dialect::Gemini
    } else if api == "bedrock-converse-stream"@ {
        Dialect::Bedrock
    } else {
        Dialect::Unknown
    }
}

/// The `npm` settings of OpenCode.
pub open spec fn opencode_dialect(npm: Seq<char>) -> Dialect {
    if npm == "@ai-sdk/openai-compatible"@ {
        Dialect::Claude("openai_chat"@, AuthStrategy::Bearer)
    } else if npm == "@ai-sdk/openai"@ {
        Dialect::Claude("openai_responses"@, AuthStrategy::Bearer)
    } else if npm == "@ai-sdk/anthropic"@ {
        Dialect::Claude("anthropic"@, AuthStrategy::ClaudeAuth)
    } else if npm == "@ai-sdk/google"@ {
        Dialect::Gemini
    } else if npm == "@ai-sdk/amazon-bedrock"@ {
        Dialect::Bedrock
    } else {
        Dialect::Unknown
    }
}

/// The `api_mode` settings of Hermes.
pub open spec fn hermes_dialect(api_mode: Seq<char>) -> Dialect {
    if api_mode == "chat_completions"@ {
        Dialect::Claude("openai_chat"@, AuthStrategy::Bearer)
    } else if api_mode == "anthropic_messages"@ {
        Dialect::Claude("anthropic"@, AuthStrategy::ClaudeAuth)
    } else if api_mode == "codex_responses"@ {
        Dialect::Claude("openai_responses"@, AuthStrategy::Bearer)
    } else if api_mode == "bedrock_converse"@ {
        Dialect::Bedrock
    } else {
        Dialect::Unknown
    }
}

/// The public address of an OpenCode package that has one.
pub open spec fn opencode_default_url(npm: Seq<char>) -> Option<Seq<char>> {
    if npm == "@ai-sdk/openai"@ {
        Some("https://api.openai.com/v1"@)
    } else if npm == "@ai-sdk/anthropic"@ {
        Some("https://api.anthropic.com"@)
    } else if npm == "@ai-sdk/google"@ {
        Some("https://generativelanguage.googleapis.com"@)
    } else {
        None
    }
}

/// A flag that is set to `true`.
pub open spec fn flag_set(value: Option<JsonTree>) -> bool {
    match value {
        Some(tree) => tree.as_bool() == Some(true),
        None => false,
    }
}

/// The route of a provider for OpenClaw or Pi.
pub open spec fn structured_route(app_name: Seq<char>, config: JsonTree) -> Result<
    RouteView,
    AppErrorView,
> {
    if flag_set(config.get("authHeader"@)) {
        Err(custom_auth_header(app_name))
    } else {
        match (
            required(config.get("baseUrl"@), "baseUrl"@),
            required(config.get("apiKey"@), "apiKey"@),
            usable_json(config.get("api"@)),
        ) {
            (Err(error), _, _) => Err(error),
            (_, Err(error), _) => Err(error),
            (_, _, None) => message(app_name + " 缺少 api 协议配置"@),
            (Ok(base_url), Ok(api_key), Some(api)) => dialect_route(
                structured_dialect(api),
                base_url,
                api_key,
                members(config.get("headers"@)),
                app_name,
                app_name + " 暂不支持协议: "@ + api,
            ),
        }
    }
}

/// The route of a provider for OpenCode.
pub open spec fn opencode_route(config: JsonTree) -> Result<RouteView, AppErrorView> {
    match (usable_json(config.get("npm"@)), config.get("options"@)) {
        (None, _) => message("OpenCode 缺少 npm 协议配置"@),
        (_, None) => message("OpenCode 缺少 options 配置"@),
        (Some(npm), Some(options)) => match (
            required(options.get("apiKey"@), "options.apiKey"@),
            either(usable_json(options.get("baseURL"@)), opencode_default_url(npm)),
        ) {
            (Err(error), _) => Err(error),
            (_, None) => message("OpenCode 缺少 options.baseURL"@),
            (Ok(api_key), Some(base_url)) => dialect_route(
                opencode_dialect(npm),
                base_url,
                api_key,
                members(options.get("headers"@)),
                "OpenCode"@,
                "OpenCode 暂不支持 SDK 包: "@ + npm,
            ),
        },
    }
}

/// The route of a provider for Hermes.
pub open spec fn hermes_route(config: JsonTree) -> Result<RouteView, AppErrorView> {
    match (
        required(config.get("base_url"@), "base_url"@),
        required(config.get("api_key"@), "api_key"@),
        usable_json(config.get("api_mode"@)),
    ) {
        (Err(error), _, _) => Err(error),
        (_, Err(error), _) => Err(error),
        (_, _, None) => message("Hermes 缺少 api_mode 配置"@),
        (Ok(base_url), Ok(api_key), Some(api_mode)) => dialect_route(
            hermes_dialect(api_mode),
            base_url,
            api_key,
            None,
            "Hermes"@,
            "Hermes 暂不支持协议: "@ + api_mode,
        ),
    }
}

/// The route of a provider for Codex.
pub open spec fn codex_route(
    provider: Provider,
    auth_override: Option<AuthInfoView>,
    base_url_override: Option<Seq<char>>,
    managed_account_id: Option<Seq<char>>,
) -> Result<RouteView, AppErrorView> {
    match (
        either(base_url_override, text_of(provider.routing.base_url)),
        either(auth_override, auth_of(provider.routing.auth)),
    ) {
        (None, _) => message("base_url 未配置"@),
        (_, None) => message("API Key 或托管认证未配置"@),
        (Some(base_url), Some(auth)) => if provider.routing.codex_converts_to_anthropic {
            Ok(
                RouteView::Claude {
                    base_url,
                    auth,
                    api_format: Some("anthropic"@),
                    extra_headers: None,
                    managed_account_id,
                },
            )
        } else if awaits_sign_in(auth) {
            Err(sign_in_missing())
        } else {
            Ok(RouteView::Codex { base_url, auth, managed_account_id })
        },
    }
}

/// A check of `model` on a route that was found.
pub open spec fn ready(model: Seq<char>, route: RouteView) -> Result<CheckPlanView, AppErrorView> {
    Ok(CheckPlanView { model, route: Ok(route) })
}

/// The plan of a check.
pub open spec fn check_plan(
    app_type: AppType,
    provider: Provider,
    requested_model: Option<Seq<char>>,
    auth_override: Option<AuthInfoView>,
    base_url_override: Option<Seq<char>>,
    claude_api_format_override: Option<Seq<char>>,
    managed_account_id: Option<Seq<char>>,
    profile: AnthropicProfile,
) -> Result<CheckPlanView, AppErrorView> {
    let config = provider.settings_config@;
    let base_url = either(base_url_override, text_of(provider.routing.base_url));
    let auth = either(auth_override, auth_of(provider.routing.auth));
    match test_model(app_type, provider, requested_model, profile) {
        None => Err(model_missing()),
        Some(model) => match app_type {
            AppType::Claude | AppType::ClaudeDesktop => match (base_url, auth) {
                (None, _) => message("base_url 未配置"@),
                (_, None) => message("API Key 或托管认证未配置"@),
                (Some(base_url), Some(auth)) => ready(
                    model,
                    RouteView::Claude {
                        base_url,
                        auth,
                        api_format: claude_api_format_override,
                        extra_headers: None,
                        managed_account_id,
                    },
                ),
            },
            AppType::Gemini => match (base_url, auth) {
                (None, _) => message("base_url 未配置"@),
                (_, None) => message("Gemini API Key 或 OAuth 未配置"@),
                (Some(base_url), Some(auth)) => ready(
                    model,
                    RouteView::Gemini { base_url, auth, extra_headers: None },
                ),
            },
            AppType::Codex | AppType::GrokBuild => Ok(
                CheckPlanView {
                    model,
                    route: codex_route(
                        provider,
                        auth_override,
                        base_url_override,
                        managed_account_id,
                    ),
                },
            ),
            AppType::OpenCode => Ok(CheckPlanView { model, route: opencode_route(config) }),
            AppType::OpenClaw => Ok(
                CheckPlanView { model, route: structured_route("OpenClaw"@, config) },
            ),
            AppType::Pi => Ok(CheckPlanView { model, route: structured_route("Pi"@, config) }),
            AppType::Hermes => Ok(CheckPlanView { model, route: hermes_route(config) }),
        },
    }
}

/// The error of a provider that has no model to test.
fn model_missing_error() -> (r: AppError)
    ensures
        r@ == model_missing(),
{
    AppError::localized(
        "model_check_model_missing",
        "该供应商没有可用于测试的模型，请先在 Provider 配置中填写模型。",
        "This provider has no model configured for testing. Add a model to the Provider first.",
    )
}

/// The error of a managed account that nobody has signed in to.
pub fn sign_in_missing_error() -> (r: AppError)
    ensures
        r@ == sign_in_missing(),
{
    AppError::localized(
        "model_check_managed_auth",
        "该 Provider 使用托管 OAuth，请先在认证中心完成登录。",
        "This Provider uses managed OAuth. Finish sign-in in the authentication center first.",
    )
}

/// The error of a provider with an authentication header of its own.
fn custom_auth_header_error(app_name: &str) -> (r: AppError)
    ensures
        r@ == custom_auth_header(app_name@),
{
    let mut zh = text::join3(
        "该 ",
        app_name,
        " Provider 使用自定义认证头，无法安全推断测试请求。请直接在 ",
    );
    zh.append(app_name);
    zh.append(" 中测试。");
    let mut en = text::join3(
        "This ",
        app_name,
        " Provider uses a custom auth header that CC Switch cannot safely infer. Test it directly in ",
    );
    en.append(app_name);
    en.append(".");
    AppError::localized("model_check_custom_auth_header", zh.as_str(), en.as_str())
}

/// The error of a provider behind AWS Bedrock.
fn bedrock_error(app_name: &str) -> (r: AppError)
    ensures
        r@ == bedrock_unsupported(app_name@),
{
    let zh = text::join3(
        "AWS Bedrock 需要 SigV4 签名，当前不支持独立模型测试。请直接通过 ",
        app_name,
        " 验证。",
    );
    let en = text::join3(
        "AWS Bedrock requires SigV4 signing and is not supported by the standalone model test. Verify it through ",
        app_name,
        ".",
    );
    AppError::localized("model_check_bedrock_not_supported", zh.as_str(), en.as_str())
}

/// Whether the credential is the stand-in of a managed account that nobody has
/// signed in to.
pub fn is_placeholder(auth: &AuthInfo) -> (r: bool)
    ensures
        r == awaits_sign_in(auth@),
{
    (auth.strategy == AuthStrategy::CodexOAuth || auth.strategy == AuthStrategy::XaiOAuth)
        && text::ends_with(auth.api_key.as_str(), "_placeholder")
}

/// The members of an object, where the value is one.
fn members_ref(value: Option<&Json>) -> (r: Option<&Vec<(String, Json)>>)
    ensures
        headers_of(r) == members(tree_of_ref(value)),
{
    match value {
        Some(json) => json.as_object(),
        None => None,
    }
}

/// A messages route with a key out of the provider's own configuration.
fn claude_route<'a>(
    base_url: String,
    api_key: String,
    strategy: AuthStrategy,
    format: &str,
    extra_headers: Option<&'a Vec<(String, Json)>>,
) -> (r: Result<Route<'a>, AppError>)
    ensures
        route_of(r) == dialect_route(
            Dialect::Claude(format@, strategy),
            base_url@,
            api_key@,
            headers_of(extra_headers),
            seq![],
            seq![],
        ),
{
    Ok(
        Route::Claude {
            base_url,
            auth: AuthInfo::new(api_key, strategy),
            api_format: Some(format.to_string()),
            extra_headers,
            managed_account_id: None,
        },
    )
}

/// A Gemini route with a key out of the provider's own configuration.
fn gemini_route<'a>(
    base_url: String,
    api_key: String,
    extra_headers: Option<&'a Vec<(String, Json)>>,
) -> (r: Result<Route<'a>, AppError>)
    ensures
        route_of(r) == dialect_route(
            Dialect::Gemini,
            base_url@,
            api_key@,
            headers_of(extra_headers),
            seq![],
            seq![],
        ),
{
    Ok(
        Route::Gemini {
            base_url,
            auth: AuthInfo::new(api_key, AuthStrategy::Google),
            extra_headers,
        },
    )
}

impl ModelCheckService {
    /// What a check of `provider` is to do. An error ends it at once; a plan whose
    /// route is an error is a check that failed, with a result that says so.
    pub fn check<'a>(
        app_type: &AppType,
        provider: &'a Provider,
        requested_model: Option<String>,
        auth_override: Option<AuthInfo>,
        base_url_override: Option<String>,
        claude_api_format_override: Option<String>,
        managed_account_id: Option<String>,
        profile: &AnthropicProfile,
    ) -> (r: Result<CheckPlan<'a>, AppError>)
        ensures
            plan_of(r) == check_plan(
                *app_type,
                *provider,
                text_of(requested_model),
                auth_of(auth_override),
                text_of(base_url_override),
                text_of(claude_api_format_override),
                text_of(managed_account_id),
                *profile,
            ),
    {
        let requested = match &requested_model {
            Some(model) => Some(model.as_str()),
            None => None,
        };
        let model = match Self::resolve_test_model(app_type, provider, requested, profile) {
            Some(model) => model,
            None => {
                return Err(model_missing_error());
            },
        };
        let route = match app_type {
            AppType::Claude | AppType::ClaudeDesktop => {
                let base_url = match Self::base_url(provider, base_url_override) {
                    Some(base_url) => base_url,
                    None => {
                        return Err(AppError::message("base_url 未配置"));
                    },
                };
                let auth = match Self::credential(provider, auth_override) {
                    Some(auth) => auth,
                    None => {
                        return Err(AppError::message("API Key 或托管认证未配置"));
                    },
                };
                Ok(
                    Route::Claude {
                        base_url,
                        auth,
                        api_format: claude_api_format_override,
                        extra_headers: None,
                        managed_account_id,
                    },
                )
            },
            AppType::Codex | AppType::GrokBuild => Self::check_codex(
                provider,
                auth_override,
                base_url_override,
                managed_account_id,
            ),
            AppType::Gemini => {
                let base_url = match Self::base_url(provider, base_url_override) {
                    Some(base_url) => base_url,
                    None => {
                        return Err(AppError::message("base_url 未配置"));
                    },
                };
                let auth = match Self::credential(provider, auth_override) {
                    Some(auth) => auth,
                    None => {
                        return Err(AppError::message("Gemini API Key 或 OAuth 未配置"));
                    },
                };
                Ok(Route::Gemini { base_url, auth, extra_headers: None })
            },
            AppType::OpenCode => Self::check_opencode(provider),
            AppType::OpenClaw | AppType::Pi => Self::check_structured_provider(app_type, provider),
            AppType::Hermes => Self::check_hermes(provider),
        };
        Ok(CheckPlan { model, route })
    }

    /// The base address of a check.
    fn base_url(provider: &Provider, base_url_override: Option<String>) -> (r: Option<String>)
        ensures
            text_of(r) == either(text_of(base_url_override), text_of(provider.routing.base_url)),
    {
        match base_url_override {
            Some(base_url) => Some(base_url),
            None => match &provider.routing.base_url {
                Some(base_url) => Some(base_url.clone()),
                None => None,
            },
        }
    }

    /// The credential of a check.
    fn credential(provider: &Provider, auth_override: Option<AuthInfo>) -> (r: Option<AuthInfo>)
        ensures
            auth_of(r) == either(auth_of(auth_override), auth_of(provider.routing.auth)),
    {
        match auth_override {
            Some(auth) => Some(auth),
            None => match &provider.routing.auth {
                Some(auth) => Some(AuthInfo::new(auth.api_key.clone(), auth.strategy)),
                None => None,
            },
        }
    }

    /// The route of a provider for Codex. An upstream that takes Anthropic messages
    /// is checked by a messages request.
    pub fn check_codex<'a>(
        provider: &'a Provider,
        auth_override: Option<AuthInfo>,
        base_url_override: Option<String>,
        managed_account_id: Option<String>,
    ) -> (r: Result<Route<'a>, AppError>)
        ensures
            route_of(r) == codex_route(
                *provider,
                auth_of(auth_override),
                text_of(base_url_override),
                text_of(managed_account_id),
            ),
    {
        let base_url = match Self::base_url(provider, base_url_override) {
            Some(base_url) => base_url,
            None => {
                return Err(AppError::message("base_url 未配置"));
            },
        };
        let auth = match Self::credential(provider, auth_override) {
            Some(auth) => auth,
            None => {
                return Err(AppError::message("API Key 或托管认证未配置"));
            },
        };
        if provider.routing.codex_converts_to_anthropic {
            return Ok(
                Route::Claude {
                    base_url,
                    auth,
                    api_format: Some("anthropic".to_string()),
                    extra_headers: None,
                    managed_account_id,
                },
            );
        }
        if is_placeholder(&auth) {
            return Err(sign_in_missing_error());
        }
        Ok(Route::Codex { base_url, auth, managed_account_id })
    }

    /// The route of a provider for OpenClaw or Pi.
    pub fn check_structured_provider<'a>(app_type: &AppType, provider: &'a Provider) -> (r: Result<
        Route<'a>,
        AppError,
    >)
        requires
            *app_type is OpenClaw || *app_type is Pi,
        ensures
            *app_type is OpenClaw ==> route_of(r) == structured_route(
                "OpenClaw"@,
                provider.settings_config@,
            ),
            *app_type is Pi ==> route_of(r) == structured_route("Pi"@, provider.settings_config@),
    {
        let app_name = match app_type {
            AppType::OpenClaw => "OpenClaw",
            _ => "Pi",
        };
        let config = &provider.settings_config;
        let own_header = match config.get("authHeader") {
            Some(value) => match value.as_bool() {
                Some(set) => set,
                None => false,
            },
            None => false,
        };
        if own_header {
            return Err(custom_auth_header_error(app_name));
        }
        let base_url = match Self::required_string(config.get("baseUrl"), "baseUrl") {
            Ok(base_url) => base_url,
            Err(error) => {
                return Err(error);
            },
        };
        let api_key = match Self::required_string(config.get("apiKey"), "apiKey") {
            Ok(api_key) => api_key,
            Err(error) => {
                return Err(error);
            },
        };
        let api = match usable_string(config.get("api")) {
            Some(api) => api,
            None => {
                return Err(AppError::Message(text::join2(app_name, " 缺少 api 协议配置")));
            },
        };
        let headers = members_ref(config.get("headers"));
        if text::same(api, "openai-completions") {
            claude_route(base_url, api_key, AuthStrategy::Bearer, "openai_chat", headers)
        } else if text::same(api, "openai-responses") {
            claude_route(base_url, api_key, AuthStrategy::Bearer, "openai_responses", headers)
        } else if text::same(api, "anthropic-messages") {
            claude_route(base_url, api_key, AuthStrategy::ClaudeAuth, "anthropic", headers)
        } else if text::same(api, "google-generative-ai") {
            gemini_route(base_url, api_key, headers)
        } else if text::same(api, "bedrock-converse-stream") {
            Err(bedrock_error(app_name))
        } else {
            Err(AppError::Message(text::join3(app_name, " 暂不支持协议: ", api)))
        }
    }

    /// The route of a provider for OpenCode.
    pub fn check_opencode<'a>(provider: &'a Provider) -> (r: Result<Route<'a>, AppError>)
        ensures
            route_of(r) == opencode_route(provider.settings_config@),
    {
        let config = &provider.settings_config;
        let npm = match usable_string(config.get("npm")) {
            Some(npm) => npm,
            None => {
                return Err(AppError::message("OpenCode 缺少 npm 协议配置"));
            },
        };
        let options = match config.get("options") {
            Some(options) => options,
            None => {
                return Err(AppError::message("OpenCode 缺少 options 配置"));
            },
        };
        let api_key = match Self::required_string(options.get("apiKey"), "options.apiKey") {
            Ok(api_key) => api_key,
            Err(error) => {
                return Err(error);
            },
        };
        let base_url = match usable_string(options.get("baseURL")) {
            Some(base_url) => base_url.to_string(),
            None => if text::same(npm, "@ai-sdk/openai") {
                "https://api.openai.com/v1".to_string()
            } else if text::same(npm, "@ai-sdk/anthropic") {
                "https://api.anthropic.com".to_string()
            } else if text::same(npm, "@ai-sdk/google") {
                "https://generativelanguage.googleapis.com".to_string()
            } else {
                return Err(AppError::message("OpenCode 缺少 options.baseURL"));
            },
        };
        let headers = members_ref(options.get("headers"));
        if text::same(npm, "@ai-sdk/openai-compatible") {
            claude_route(base_url, api_key, AuthStrategy::Bearer, "openai_chat", headers)
        } else if text::same(npm, "@ai-sdk/openai") {
            claude_route(base_url, api_key, AuthStrategy::Bearer, "openai_responses", headers)
        } else if text::same(npm, "@ai-sdk/anthropic") {
            claude_route(base_url, api_key, AuthStrategy::ClaudeAuth, "anthropic", headers)
        } else if text::same(npm, "@ai-sdk/google") {
            gemini_route(base_url, api_key, headers)
        } else if text::same(npm, "@ai-sdk/amazon-bedrock") {
            Err(bedrock_error("OpenCode"))
        } else {
            Err(AppError::Message(text::join2("OpenCode 暂不支持 SDK 包: ", npm)))
        }
    }

    /// The route of a provider for Hermes.
    pub fn check_hermes<'a>(provider: &'a Provider) -> (r: Result<Route<'a>, AppError>)
        ensures
            route_of(r) == hermes_route(provider.settings_config@),
    {
        let config = &provider.settings_config;
        let base_url = match Self::required_string(config.get("base_url"), "base_url") {
            Ok(base_url) => base_url,
            Err(error) => {
                return Err(error);
            },
        };
        let api_key = match Self::required_string(config.get("api_key"), "api_key") {
            Ok(api_key) => api_key,
            Err(error) => {
                return Err(error);
            },
        };
        let api_mode = match usable_string(config.get("api_mode")) {
            Some(api_mode) => api_mode,
            None => {
                return Err(AppError::message("Hermes 缺少 api_mode 配置"));
            },
        };
        if text::same(api_mode, "chat_completions") {
            claude_route(base_url, api_key, AuthStrategy::Bearer, "openai_chat", None)
        } else if text::same(api_mode, "anthropic_messages") {
            claude_route(base_url, api_key, AuthStrategy::ClaudeAuth, "anthropic", None)
        } else if text::same(api_mode, "codex_responses") {
            claude_route(base_url, api_key, AuthStrategy::Bearer, "openai_responses", None)
        } else if text::same(api_mode, "bedrock_converse") {
            Err(bedrock_error("Hermes"))
        } else {
            Err(AppError::Message(text::join2("Hermes 暂不支持协议: ", api_mode)))
        }
    }

    /// The usable text of a setting that has to be there.
    pub fn required_string(value: Option<&Json>, field: &str) -> (r: Result<String, AppError>)
        ensures
            match r {
                Ok(text) => required(tree_of_ref(value), field@) == Ok::<_, AppErrorView>(text@),
                Err(error) => required(tree_of_ref(value), field@) == Err::<Seq<char>, _>(error@),
            },
    {
        match usable_string(value) {
            Some(text) => Ok(text.to_string()),
            None => Err(AppError::Message(text::join2("缺少 ", field))),
        }
    }
}

} // verus!
