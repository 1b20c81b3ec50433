//! Laws of the route from a provider to a request.
use vstd::prelude::*;

use crate::codex::{codex_outcome, falls_back, no_endpoint};
use crate::http::HeaderView;
use crate::json::JsonTree;
use crate::laws::models::said;
use crate::laws::text::law_trimmed;
use crate::messages::{
    claude_draft, claude_headers, claude_http, is_gemini_format, wire_format, ClaudeDraftView,
    CopilotIdentity,
};
use crate::models::{test_model, usable_json};
use crate::routes::{
    check_plan, codex_route, hermes_route, model_missing, opencode_default_url, opencode_route,
    required, sign_in_missing, structured_route, CheckPlanView, RouteView,
};
use crate::text::trimmed;
use crate::types::{
    AnthropicProfile, AppErrorView, AppType, AuthInfoView, AuthStrategy, OutcomeView, Provider,
};

verus! {

/// A check without a model ends at once; every other one tests the model that was
/// resolved for it.
pub proof fn law_plan_has_the_model(
    app_type: AppType,
    provider: Provider,
    requested: Option<Seq<char>>,
    auth: Option<AuthInfoView>,
    base_url: Option<Seq<char>>,
    api_format: Option<Seq<char>>,
    account: Option<Seq<char>>,
    profile: AnthropicProfile,
)
    ensures
        match (
            test_model(app_type, provider, requested, profile),
            check_plan(
                app_type,
                provider,
                requested,
                auth,
                base_url,
                api_format,
                account,
                profile,
            ),
        ) {
            (None, plan) => plan == Err::<CheckPlanView, _>(model_missing()),
            (Some(model), Ok(plan)) => plan.model == model,
            (Some(model), Err(error)) => error is Message,
        },
{
}

/// The base address of a route.
pub open spec fn route_base(route: RouteView) -> Seq<char> {
    match route {
        RouteView::Claude { base_url, .. } => base_url,
        RouteView::Codex { base_url, .. } => base_url,
        RouteView::Gemini { base_url, .. } => base_url,
    }
}

/// The credential of a route.
pub open spec fn route_auth(route: RouteView) -> AuthInfoView {
    match route {
        RouteView::Claude { auth, .. } => auth,
        RouteView::Codex { auth, .. } => auth,
        RouteView::Gemini { auth, .. } => auth,
    }
}

/// The application keeps its address and its key in a configuration of its own.
pub open spec fn configures_itself(app_type: AppType) -> bool {
    app_type is OpenCode || app_type is OpenClaw || app_type is Pi || app_type is Hermes
}

/// The base address of a check: the one that it is given, else the provider's own.
pub open spec fn given_base(provider: Provider, base_url: Option<Seq<char>>) -> Option<Seq<char>> {
    match (base_url, provider.routing.base_url) {
        (Some(given), _) => Some(given),
        (None, Some(own)) => Some(own@),
        (None, None) => None,
    }
}

/// The credential of a check: the one that it is given, else the provider's own.
pub open spec fn given_auth(provider: Provider, auth: Option<AuthInfoView>) -> Option<
    AuthInfoView,
> {
    match (auth, provider.routing.auth) {
        (Some(given), _) => Some(given),
        (None, Some(own)) => Some(
            AuthInfoView { api_key: own.api_key@, strategy: own.strategy },
        ),
        (None, None) => None,
    }
}

/// An address or a credential that a check is given goes before the provider's own. The
/// applications with a configuration of their own are not affected.
pub proof fn law_overrides_win(
    app_type: AppType,
    provider: Provider,
    requested: Option<Seq<char>>,
    auth: Option<AuthInfoView>,
    base_url: Option<Seq<char>>,
    api_format: Option<Seq<char>>,
    account: Option<Seq<char>>,
    profile: AnthropicProfile,
)
    ensures
        check_plan(
            app_type,
            provider,
            requested,
            auth,
            base_url,
            api_format,
            account,
            profile,
        ) matches Ok(plan) ==> (plan.route matches Ok(route) ==> {
            &&& !configures_itself(app_type) ==> Some(route_base(route)) == given_base(
                provider,
                base_url,
            )
            &&& !configures_itself(app_type) ==> Some(route_auth(route)) == given_auth(
                provider,
                auth,
            )
        }),
        configures_itself(app_type) ==> check_plan(
            app_type,
            provider,
            requested,
            auth,
            base_url,
            api_format,
            account,
            profile,
        ) == check_plan(app_type, provider, requested, None, None, None, None, profile),
{
}

/// The credential of a managed account is a text that ends in `_placeholder`.
pub open spec fn is_stand_in(auth: AuthInfoView) -> bool {
    &&& auth.strategy is CodexOAuth || auth.strategy is XaiOAuth
    &&& "_placeholder"@.is_suffix_of(auth.api_key)
}

/// The stand-in of a managed account that nobody has signed in to is never sent: neither
/// a messages request nor a Codex request is made with it.
pub proof fn law_placeholder_is_never_sent(
    provider: Provider,
    override_auth: Option<AuthInfoView>,
    override_url: Option<Seq<char>>,
    account: Option<Seq<char>>,
    base_url: Seq<char>,
    auth: AuthInfoView,
    model: Seq<char>,
    api_format: Option<Seq<char>>,
    gemini_url: Seq<char>,
)
    ensures
        is_stand_in(auth) ==> claude_draft(
            base_url,
            auth,
            model,
            provider,
            api_format,
            gemini_url,
        ) == Err::<ClaudeDraftView, _>(sign_in_missing()),
        !is_stand_in(auth) ==> claude_draft(
            base_url,
            auth,
            model,
            provider,
            api_format,
            gemini_url,
        ) is Ok,
        codex_route(provider, override_auth, override_url, account) matches Ok(
            RouteView::Codex { auth, .. },
        ) ==> !is_stand_in(auth),
        sign_in_missing() == (AppErrorView::Localized {
            key: "model_check_managed_auth"@,
            zh: "该 Provider 使用托管 OAuth，请先在认证中心完成登录。"@,
            en: "This Provider uses managed OAuth. Finish sign-in in the authentication center first."@,
        }),
{
}

/// Only a request in the native Gemini format depends on the Gemini address; that one
/// goes there.
pub proof fn law_gemini_url(
    provider: Provider,
    base_url: Seq<char>,
    auth: AuthInfoView,
    model: Seq<char>,
    api_format: Option<Seq<char>>,
    gemini_url: Seq<char>,
    other_url: Seq<char>,
)
    ensures
        is_gemini_format(wire_format(provider, api_format)) ==> (claude_draft(
            base_url,
            auth,
            model,
            provider,
            api_format,
            gemini_url,
        ) matches Ok(draft) ==> draft.url == gemini_url),
        !is_gemini_format(wire_format(provider, api_format)) ==> claude_draft(
            base_url,
            auth,
            model,
            provider,
            api_format,
            gemini_url,
        ) == claude_draft(base_url, auth, model, provider, api_format, other_url),
{
}

/// A text that is neither blank nor padded with white space.
pub open spec fn is_clean(text: Seq<char>) -> bool {
    text.len() > 0 && trimmed(text) == text
}

proof fn lemma_usable_is_clean(value: Option<JsonTree>)
    ensures
        usable_json(value) matches Some(text) ==> is_clean(text),
{
    match value {
        Some(tree) => match tree.as_str() {
            Some(text) => law_trimmed(text),
            None => {},
        },
        None => {},
    }
}

proof fn lemma_default_url_is_clean(npm: Seq<char>)
    ensures
        opencode_default_url(npm) matches Some(url) ==> is_clean(url),
{
    reveal_strlit("https://api.openai.com/v1");
    reveal_strlit("https://api.anthropic.com");
    reveal_strlit("https://generativelanguage.googleapis.com");
}

/// The addresses and the keys of the applications with a configuration of their own, the
/// public addresses that OpenCode falls back on among them, are neither blank nor padded
/// with white space.
pub proof fn law_configured_routes_are_clean(app_name: Seq<char>, config: JsonTree)
    ensures
        structured_route(app_name, config) matches Ok(route) ==> is_clean(route_base(route))
            && is_clean(route_auth(route).api_key),
        hermes_route(config) matches Ok(route) ==> is_clean(route_base(route)) && is_clean(
            route_auth(route).api_key,
        ),
        opencode_route(config) matches Ok(route) ==> is_clean(route_base(route)) && is_clean(
            route_auth(route).api_key,
        ),
{
    lemma_usable_is_clean(config.get("baseUrl"@));
    lemma_usable_is_clean(config.get("apiKey"@));
    lemma_usable_is_clean(config.get("base_url"@));
    lemma_usable_is_clean(config.get("api_key"@));
    match config.get("options"@) {
        Some(options) => {
            lemma_usable_is_clean(options.get("apiKey"@));
            lemma_usable_is_clean(options.get("baseURL"@));
            match usable_json(config.get("npm"@)) {
                Some(npm) => lemma_default_url_is_clean(npm),
                None => {},
            }
        },
        None => {},
    }
}

/// The same configuration leads OpenClaw and Pi to the same route.
pub proof fn law_structured_applications_agree(config: JsonTree)
    ensures
        structured_route("OpenClaw"@, config) is Ok <==> structured_route("Pi"@, config) is Ok,
        structured_route("OpenClaw"@, config) is Ok ==> structured_route("OpenClaw"@, config)
            == structured_route("Pi"@, config),
{
}

/// The identifier of a request to GitHub Copilot is also that of its task; other requests
/// do not depend on it.
pub proof fn law_request_id(
    draft: ClaudeDraftView,
    auth: AuthInfoView,
    model: Seq<char>,
    provider: Provider,
    transformed: Result<JsonTree, Seq<char>>,
    adapter: Result<Seq<HeaderView>, Seq<char>>,
    profile: AnthropicProfile,
    copilot: CopilotIdentity,
    id: Seq<char>,
    other_id: Seq<char>,
    extra_headers: Option<Seq<(Seq<char>, JsonTree)>>,
    account: Option<Seq<char>>,
)
    ensures
        auth.strategy is GitHubCopilot ==> {
            let headers = claude_headers(
                auth,
                draft.api_format,
                match adapter {
                    Ok(made) => made,
                    Err(_) => seq![],
                },
                profile,
                copilot,
                id,
                extra_headers,
                account,
                provider,
            );
            headers.contains(("x-request-id"@, id)) && headers.contains(("x-agent-task-id"@, id))
        },
        !(auth.strategy is GitHubCopilot) ==> claude_http(
            draft,
            auth,
            model,
            provider,
            transformed,
            adapter,
            profile,
            copilot,
            id,
            extra_headers,
            account,
        ) == claude_http(
            draft,
            auth,
            model,
            provider,
            transformed,
            adapter,
            profile,
            copilot,
            other_id,
            extra_headers,
            account,
        ),
{
    if auth.strategy is GitHubCopilot {
        let made = match adapter {
            Ok(made) => made,
            Err(_) => seq![],
        };
        let headers = claude_headers(
            auth,
            draft.api_format,
            made,
            profile,
            copilot,
            id,
            extra_headers,
            account,
            provider,
        );
        assert(headers[12] == ("x-request-id"@, id));
        assert(headers[13] == ("x-agent-task-id"@, id));
    }
}

/// A check that has an address ends with the first answer, unless that is a "not
/// found" and there is a second address: then it ends with the second answer. No
/// third address is ever tried.
pub proof fn law_codex_fallback(outcomes: Seq<OutcomeView>)
    requires
        outcomes.len() > 0,
    ensures
        codex_outcome(outcomes, 0) == if (outcomes[0] matches Err(
            AppErrorView::HttpStatus { status, .. },
        ) && status == 404) && outcomes.len() > 1 {
            outcomes[1]
        } else {
            outcomes[0]
        },
{
    reveal_with_fuel(codex_outcome, 2);
}

/// The next address is tried after a 404 of the first of several, and after nothing else.
pub proof fn law_only_a_missing_first_address_falls_back(
    index: int,
    url_count: int,
    outcome: OutcomeView,
)
    ensures
        falls_back(index, url_count, outcome) <==> index == 0 && url_count > 1 && (outcome matches Err(
            AppErrorView::HttpStatus { status, .. },
        ) && status == 404),
        no_endpoint() == Err::<(u16, Seq<char>), _>(
            AppErrorView::Message("没有可用的 Codex 请求端点"@),
        ),
{
}

/// A refusal with this text.
pub open spec fn refused(text: Seq<char>) -> Result<RouteView, AppErrorView> {
    Err(AppErrorView::Message(text))
}

/// A messages route with a key out of a configuration, and no account.
pub open spec fn messages_route(
    base_url: Seq<char>,
    api_key: Seq<char>,
    strategy: AuthStrategy,
    format: Seq<char>,
    headers: Option<JsonTree>,
) -> Result<RouteView, AppErrorView> {
    Ok(
        RouteView::Claude {
            base_url,
            auth: AuthInfoView { api_key, strategy },
            api_format: Some(format),
            extra_headers: match headers {
                Some(JsonTree::Object(entries)) => Some(entries),
                _ => None,
            },
            managed_account_id: None,
        },
    )
}

/// A Gemini route with a key out of a configuration.
pub open spec fn google_route(
    base_url: Seq<char>,
    api_key: Seq<char>,
    headers: Option<JsonTree>,
) -> Result<RouteView, AppErrorView> {
    Ok(
        RouteView::Gemini {
            base_url,
            auth: AuthInfoView { api_key, strategy: AuthStrategy::Google },
            extra_headers: match headers {
                Some(JsonTree::Object(entries)) => Some(entries),
                _ => None,
            },
        },
    )
}

/// The refusal of a provider behind AWS Bedrock.
pub open spec fn refused_bedrock(app_name: Seq<char>) -> Result<RouteView, AppErrorView> {
    Err(
        AppErrorView::Localized {
            key: "model_check_bedrock_not_supported"@,
            zh: "AWS Bedrock 需要 SigV4 签名，当前不支持独立模型测试。请直接通过 "@ + app_name + " 验证。"@,
            en: "AWS Bedrock requires SigV4 signing and is not supported by the standalone model test. Verify it through "@
                + app_name + "."@,
        },
    )
}

/// OpenCode goes to the configured address, whatever the package. Only where that is
/// absent or blank does it go to the public address of the package, and only three
/// packages have one.
pub proof fn law_opencode_address(config: JsonTree, options: JsonTree, npm: Seq<char>)
    requires
        said(config.get("npm"@)) == Some(npm),
        config.get("options"@) == Some(options),
    ensures
        opencode_route(config) matches Ok(route) ==> {
            &&& said(options.get("baseURL"@)) matches Some(address) ==> route_base(route) == address
            &&& said(options.get("baseURL"@)) is None ==> {
                ||| npm == "@ai-sdk/openai"@ && route_base(route) == "https://api.openai.com/v1"@
                ||| npm == "@ai-sdk/anthropic"@ && route_base(route)
                    == "https://api.anthropic.com"@
                ||| npm == "@ai-sdk/google"@ && route_base(route)
                    == "https://generativelanguage.googleapis.com"@
            }
        },
{
}

/// Each package of OpenCode has its format and its kind of credential. The key and the
/// headers are those of the options.
pub proof fn law_opencode_packages(
    config: JsonTree,
    options: JsonTree,
    npm: Seq<char>,
    api_key: Seq<char>,
    address: Seq<char>,
)
    requires
        said(config.get("npm"@)) == Some(npm),
        config.get("options"@) == Some(options),
        said(options.get("apiKey"@)) == Some(api_key),
        said(options.get("baseURL"@)) == Some(address) || (said(options.get("baseURL"@)) is None
            && {
            ||| npm == "@ai-sdk/openai"@ && address == "https://api.openai.com/v1"@
            ||| npm == "@ai-sdk/anthropic"@ && address == "https://api.anthropic.com"@
            ||| npm == "@ai-sdk/google"@ && address == "https://generativelanguage.googleapis.com"@
        }),
    ensures
        ({
            let route = opencode_route(config);
            let headers = options.get("headers"@);
            &&& npm == "@ai-sdk/openai-compatible"@ ==> route == messages_route(
                address,
                api_key,
                AuthStrategy::Bearer,
                "openai_chat"@,
                headers,
            )
            &&& npm == "@ai-sdk/openai"@ ==> route == messages_route(
                address,
                api_key,
                AuthStrategy::Bearer,
                "openai_responses"@,
                headers,
            )
            &&& npm == "@ai-sdk/anthropic"@ ==> route == messages_route(
                address,
                api_key,
                AuthStrategy::ClaudeAuth,
                "anthropic"@,
                headers,
            )
            &&& npm == "@ai-sdk/google"@ ==> route == google_route(address, api_key, headers)
            &&& npm == "@ai-sdk/amazon-bedrock"@ ==> route == refused_bedrock("OpenCode"@)
            &&& npm != "@ai-sdk/openai-compatible"@ && npm != "@ai-sdk/openai"@ && npm
                != "@ai-sdk/anthropic"@ && npm != "@ai-sdk/google"@ && npm
                != "@ai-sdk/amazon-bedrock"@ ==> route == refused(
                "OpenCode 暂不支持 SDK 包: "@ + npm,
            )
        }),
{
    lemma_packages_differ();
}

/// What an OpenCode configuration lacks is named: first the package, then the options,
/// then the key, then the address.
pub proof fn law_opencode_refusals(config: JsonTree, options: JsonTree, npm: Seq<char>)
    ensures
        said(config.get("npm"@)) is None ==> opencode_route(config) == refused(
            "OpenCode 缺少 npm 协议配置"@,
        ),
        said(config.get("npm"@)) is Some && config.get("options"@) is None ==> opencode_route(
            config,
        ) == refused("OpenCode 缺少 options 配置"@),
        said(config.get("npm"@)) is Some && config.get("options"@) == Some(options) && said(
            options.get("apiKey"@),
        ) is None ==> opencode_route(config) == refused("缺少 "@ + "options.apiKey"@),
        said(config.get("npm"@)) == Some(npm) && config.get("options"@) == Some(options) && said(
            options.get("apiKey"@),
        ) is Some && said(options.get("baseURL"@)) is None && npm != "@ai-sdk/openai"@ && npm
            != "@ai-sdk/anthropic"@ && npm != "@ai-sdk/google"@ ==> opencode_route(config)
            == refused("OpenCode 缺少 options.baseURL"@),
{
}

proof fn lemma_packages_differ()
    ensures
        "@ai-sdk/openai-compatible"@ != "@ai-sdk/openai"@,
        "@ai-sdk/openai-compatible"@ != "@ai-sdk/anthropic"@,
        "@ai-sdk/openai-compatible"@ != "@ai-sdk/google"@,
        "@ai-sdk/openai-compatible"@ != "@ai-sdk/amazon-bedrock"@,
        "@ai-sdk/openai"@ != "@ai-sdk/anthropic"@,
        "@ai-sdk/openai"@ != "@ai-sdk/google"@,
        "@ai-sdk/openai"@ != "@ai-sdk/amazon-bedrock"@,
        "@ai-sdk/anthropic"@ != "@ai-sdk/google"@,
        "@ai-sdk/anthropic"@ != "@ai-sdk/amazon-bedrock"@,
        "@ai-sdk/google"@ != "@ai-sdk/amazon-bedrock"@,
{
    reveal_strlit("@ai-sdk/openai-compatible");
    reveal_strlit("@ai-sdk/openai");
    reveal_strlit("@ai-sdk/anthropic");
    reveal_strlit("@ai-sdk/google");
    reveal_strlit("@ai-sdk/amazon-bedrock");
    assert("@ai-sdk/openai-compatible"@.len() == 25);
    assert("@ai-sdk/anthropic"@.len() == 17);
    assert("@ai-sdk/amazon-bedrock"@.len() == 22);
    assert("@ai-sdk/openai"@[8] == 'o' && "@ai-sdk/google"@[8] == 'g');
    assert("@ai-sdk/openai"@.len() == 14 && "@ai-sdk/google"@.len() == 14);
}

/// Each `api` setting of OpenClaw and Pi has its format and its kind of credential. The
/// address, the key and the headers are those of the configuration.
pub proof fn law_structured_settings(
    app_name: Seq<char>,
    config: JsonTree,
    address: Seq<char>,
    api_key: Seq<char>,
    api: Seq<char>,
)
    requires
        config.get("authHeader"@) != Some(JsonTree::Bool(true)),
        said(config.get("baseUrl"@)) == Some(address),
        said(config.get("apiKey"@)) == Some(api_key),
        said(config.get("api"@)) == Some(api),
    ensures
        ({
            let route = structured_route(app_name, config);
            let headers = config.get("headers"@);
            &&& api == "openai-completions"@ ==> route == messages_route(
                address,
                api_key,
                AuthStrategy::Bearer,
                "openai_chat"@,
                headers,
            )
            &&& api == "openai-responses"@ ==> route == messages_route(
                address,
                api_key,
                AuthStrategy::Bearer,
                "openai_responses"@,
                headers,
            )
            &&& api == "anthropic-messages"@ ==> route == messages_route(
                address,
                api_key,
                AuthStrategy::ClaudeAuth,
                "anthropic"@,
                headers,
            )
            &&& api == "google-generative-ai"@ ==> route == google_route(address, api_key, headers)
            &&& api == "bedrock-converse-stream"@ ==> route == refused_bedrock(app_name)
            &&& api != "openai-completions"@ && api != "openai-responses"@ && api
                != "anthropic-messages"@ && api != "google-generative-ai"@ && api
                != "bedrock-converse-stream"@ ==> route == refused(
                app_name + " 暂不支持协议: "@ + api,
            )
        }),
{
    reveal_strlit("openai-completions");
    reveal_strlit("openai-responses");
    reveal_strlit("anthropic-messages");
    reveal_strlit("google-generative-ai");
    reveal_strlit("bedrock-converse-stream");
    assert("openai-completions"@[0] == 'o' && "openai-completions"@.len() == 18);
    assert("openai-responses"@[0] == 'o' && "openai-responses"@.len() == 16);
    assert("anthropic-messages"@[0] == 'a' && "google-generative-ai"@[0] == 'g');
    assert("bedrock-converse-stream"@[0] == 'b');
}

/// OpenClaw and Pi are refused with a header of their own before anything else; then what
/// the configuration lacks is named: first the address, then the key, then the protocol.
pub proof fn law_structured_refusals(app_name: Seq<char>, config: JsonTree)
    ensures
        config.get("authHeader"@) == Some(JsonTree::Bool(true)) ==> structured_route(
            app_name,
            config,
        ) == Err::<RouteView, _>(
            AppErrorView::Localized {
                key: "model_check_custom_auth_header"@,
                zh: "该 "@ + app_name
                    + " Provider 使用自定义认证头，无法安全推断测试请求。请直接在 "@ + app_name
                    + " 中测试。"@,
                en: "This "@ + app_name
                    + " Provider uses a custom auth header that CC Switch cannot safely infer. Test it directly in "@
                    + app_name + "."@,
            },
        ),
        config.get("authHeader"@) != Some(JsonTree::Bool(true)) ==> {
            &&& said(config.get("baseUrl"@)) is None ==> structured_route(app_name, config)
                == refused("缺少 "@ + "baseUrl"@)
            &&& said(config.get("baseUrl"@)) is Some && said(config.get("apiKey"@)) is None
                ==> structured_route(app_name, config) == refused("缺少 "@ + "apiKey"@)
            &&& said(config.get("baseUrl"@)) is Some && said(config.get("apiKey"@)) is Some && said(
                config.get("api"@),
            ) is None ==> structured_route(app_name, config) == refused(
                app_name + " 缺少 api 协议配置"@,
            )
        },
{
}

/// Each `api_mode` of Hermes has its format and its kind of credential. The address and
/// the key are those of the configuration; headers are never added.
pub proof fn law_hermes_modes(
    config: JsonTree,
    address: Seq<char>,
    api_key: Seq<char>,
    mode: Seq<char>,
)
    requires
        said(config.get("base_url"@)) == Some(address),
        said(config.get("api_key"@)) == Some(api_key),
        said(config.get("api_mode"@)) == Some(mode),
    ensures
        ({
            let route = hermes_route(config);
            &&& mode == "chat_completions"@ ==> route == messages_route(
                address,
                api_key,
                AuthStrategy::Bearer,
                "openai_chat"@,
                None,
            )
            &&& mode == "anthropic_messages"@ ==> route == messages_route(
                address,
                api_key,
                AuthStrategy::ClaudeAuth,
                "anthropic"@,
                None,
            )
            &&& mode == "codex_responses"@ ==> route == messages_route(
                address,
                api_key,
                AuthStrategy::Bearer,
                "openai_responses"@,
                None,
            )
            &&& mode == "bedrock_converse"@ ==> route == refused_bedrock("Hermes"@)
            &&& mode != "chat_completions"@ && mode != "anthropic_messages"@ && mode
                != "codex_responses"@ && mode != "bedrock_converse"@ ==> route == refused(
                "Hermes 暂不支持协议: "@ + mode,
            )
        }),
{
    reveal_strlit("chat_completions");
    reveal_strlit("anthropic_messages");
    reveal_strlit("codex_responses");
    reveal_strlit("bedrock_converse");
    assert("chat_completions"@[1] == 'h' && "codex_responses"@[1] == 'o');
    assert("anthropic_messages"@[1] == 'n' && "bedrock_converse"@[1] == 'e');
}

/// What a Hermes configuration lacks is named: first the address, then the key, then the
/// mode.
pub proof fn law_hermes_refusals(config: JsonTree)
    ensures
        said(config.get("base_url"@)) is None ==> hermes_route(config) == refused(
            "缺少 "@ + "base_url"@,
        ),
        said(config.get("base_url"@)) is Some && said(config.get("api_key"@)) is None
            ==> hermes_route(config) == refused("缺少 "@ + "api_key"@),
        said(config.get("base_url"@)) is Some && said(config.get("api_key"@)) is Some && said(
            config.get("api_mode"@),
        ) is None ==> hermes_route(config) == refused("Hermes 缺少 api_mode 配置"@),
{
}

/// A setting that has to be there is what it says, or the refusal that names it.
pub proof fn law_required_settings(value: Option<JsonTree>, field: Seq<char>)
    ensures
        said(value) matches Some(text) ==> required(value, field) == Ok::<_, AppErrorView>(text),
        said(value) is None ==> required(value, field) == Err::<Seq<char>, _>(
            AppErrorView::Message("缺少 "@ + field),
        ),
{
}

/// A provider for Codex: one without an address or without a credential is refused, in
/// this order. An upstream that takes Anthropic messages gets a messages request in
/// Anthropic's format; every other one gets a Codex request, unless nobody has signed in.
pub proof fn law_codex_route(
    provider: Provider,
    auth: Option<AuthInfoView>,
    base_url: Option<Seq<char>>,
    account: Option<Seq<char>>,
)
    ensures
        ({
            let route = codex_route(provider, auth, base_url, account);
            let converts = provider.routing.codex_converts_to_anthropic;
            &&& given_base(provider, base_url) is None ==> route == refused("base_url 未配置"@)
            &&& given_base(provider, base_url) is Some && given_auth(provider, auth) is None
                ==> route == refused("API Key 或托管认证未配置"@)
            &&& given_base(provider, base_url) matches Some(base) ==> (given_auth(
                provider,
                auth,
            ) matches Some(credential) ==> {
                &&& converts ==> route == Ok::<_, AppErrorView>(
                    RouteView::Claude {
                        base_url: base,
                        auth: credential,
                        api_format: Some("anthropic"@),
                        extra_headers: None,
                        managed_account_id: account,
                    },
                )
                &&& !converts && is_stand_in(credential) ==> route == Err::<RouteView, _>(
                    sign_in_missing(),
                )
                &&& !converts && !is_stand_in(credential) ==> route == Ok::<_, AppErrorView>(
                    RouteView::Codex {
                        base_url: base,
                        auth: credential,
                        managed_account_id: account,
                    },
                )
            })
        }),
{
}

/// Every application goes its own way: the ones that configure themselves by their
/// configuration, Codex and Grok Build as providers for Codex, the others by the address
/// and the credential of the check. For these a missing address, then a missing
/// credential, ends the check without a result.
pub proof fn law_plan_of_each_application(
    provider: Provider,
    requested: Option<Seq<char>>,
    auth: Option<AuthInfoView>,
    base_url: Option<Seq<char>>,
    api_format: Option<Seq<char>>,
    account: Option<Seq<char>>,
    profile: AnthropicProfile,
    app_type: AppType,
    model: Seq<char>,
)
    requires
        test_model(app_type, provider, requested, profile) == Some(model),
    ensures
        ({
            let plan = check_plan(
                app_type,
                provider,
                requested,
                auth,
                base_url,
                api_format,
                account,
                profile,
            );
            let config = provider.settings_config@;
            let base = given_base(provider, base_url);
            let credential = given_auth(provider, auth);
            let messages = app_type is Claude || app_type is ClaudeDesktop;
            &&& app_type is OpenCode ==> plan == planned(model, opencode_route(config))
            &&& app_type is OpenClaw ==> plan == planned(
                model,
                structured_route("OpenClaw"@, config),
            )
            &&& app_type is Pi ==> plan == planned(model, structured_route("Pi"@, config))
            &&& app_type is Hermes ==> plan == planned(model, hermes_route(config))
            &&& app_type is Codex || app_type is GrokBuild ==> plan == planned(
                model,
                codex_route(provider, auth, base_url, account),
            )
            &&& (messages || app_type is Gemini) && base is None ==> plan == unplanned(
                "base_url 未配置"@,
            )
            &&& messages && base is Some && credential is None ==> plan == unplanned(
                "API Key 或托管认证未配置"@,
            )
            &&& app_type is Gemini && base is Some && credential is None ==> plan == unplanned(
                "Gemini API Key 或 OAuth 未配置"@,
            )
            &&& messages && base is Some && credential is Some ==> plan == planned(
                model,
                Ok(
                    RouteView::Claude {
                        base_url: base->0,
                        auth: credential->0,
                        api_format,
                        extra_headers: None,
                        managed_account_id: account,
                    },
                ),
            )
            &&& app_type is Gemini && base is Some && credential is Some ==> plan == planned(
                model,
                Ok(
                    RouteView::Gemini {
                        base_url: base->0,
                        auth: credential->0,
                        extra_headers: None,
                    },
                ),
            )
        }),
{
}

/// A plan for a model and a route.
pub open spec fn planned(model: Seq<char>, route: Result<RouteView, AppErrorView>) -> Result<
    CheckPlanView,
    AppErrorView,
> {
    Ok(CheckPlanView { model, route })
}

/// A check that ends with a text in place of a plan.
pub open spec fn unplanned(text: Seq<char>) -> Result<CheckPlanView, AppErrorView> {
    Err(AppErrorView::Message(text))
}

/// A check without a model says so in both languages.
pub proof fn law_missing_model(
    app_type: AppType,
    provider: Provider,
    requested: Option<Seq<char>>,
    auth: Option<AuthInfoView>,
    base_url: Option<Seq<char>>,
    api_format: Option<Seq<char>>,
    account: Option<Seq<char>>,
    profile: AnthropicProfile,
)
    requires
        test_model(app_type, provider, requested, profile) is None,
    ensures
        check_plan(
            app_type,
            provider,
            requested,
            auth,
            base_url,
            api_format,
            account,
            profile,
        ) == Err::<CheckPlanView, _>(
            AppErrorView::Localized {
                key: "model_check_model_missing"@,
                zh: "该供应商没有可用于测试的模型，请先在 Provider 配置中填写模型。"@,
                en: "This provider has no model configured for testing. Add a model to the Provider first."@,
            },
        ),
{
}

} // verus!
