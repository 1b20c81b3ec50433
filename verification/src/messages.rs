//! Messages requests: in Anthropic's format, or in one that it is translated to.
use vstd::prelude::*;

use crate::bodies::claude_body;
use crate::http::{
    adapter_of, bearer, extra_of, headers_of, new_stream_headers, optional_header, pairs_of,
    push_bearer, push_extra, push_header, push_headers, push_optional, request_of, stream_headers,
    user_agent, HeaderView, HttpRequest, HttpRequestView,
};
use crate::json::{Json, JsonTree};
use crate::routes::{awaits_sign_in, is_placeholder, sign_in_missing, sign_in_missing_error};
use crate::text;
use crate::types::{
    message, text_of_str, AnthropicProfile, AppError, AppErrorView, AuthInfo, AuthInfoView,
    AuthStrategy, CheckProtocol, ModelCheckService, Provider,
};
use crate::urls::claude_url;

verus! {

/// How the application introduces itself to GitHub Copilot.
pub struct CopilotIdentity {
    pub user_agent: String,
    pub editor_version: String,
    pub plugin_version: String,
    pub integration_id: String,
    pub api_version: String,
}

/// A body, or the text of the error in its place.
pub open spec fn body_of(result: Result<Json, String>) -> Result<JsonTree, Seq<char>> {
    match result {
        Ok(body) => Ok(body@),
        Err(text) => Err(text@),
    }
}

/// The headers of GitHub Copilot.
pub open spec fn copilot_headers(
    api_key: Seq<char>,
    copilot: CopilotIdentity,
    request_id: Seq<char>,
) -> Seq<HeaderView> {
    seq![
        bearer(api_key),
        ("user-agent"@, copilot.user_agent@),
        ("editor-version"@, copilot.editor_version@),
        ("editor-plugin-version"@, copilot.plugin_version@),
        ("copilot-integration-id"@, copilot.integration_id@),
        ("x-github-api-version"@, copilot.api_version@),
        ("openai-intent"@, "conversation-agent"@),
        ("x-initiator"@, "user"@),
        ("x-interaction-type"@, "conversation-agent"@),
        ("x-request-id"@, request_id),
        ("x-agent-task-id"@, request_id),
    ]
}

/// The headers of the Anthropic format that come after the credential.
pub open spec fn anthropic_headers(profile: AnthropicProfile) -> Seq<HeaderView> {
    seq![
        ("anthropic-version"@, "2023-06-01"@),
        ("anthropic-beta"@, profile.beta_features@),
        ("anthropic-dangerous-direct-browser-access"@, "true"@),
        ("accept-language"@, "*"@),
        ("user-agent"@, profile.user_agent@),
        ("x-app"@, "cli"@),
    ]
}

/// The native Gemini format.
pub open spec fn is_gemini_format(api_format: Seq<char>) -> bool {
    api_format == "gemini_native"@
}

/// One of OpenAI's two formats.
pub open spec fn is_openai_format(api_format: Seq<char>) -> bool {
    api_format == "openai_chat"@ || api_format == "openai_responses"@
}

/// The dialect in which a format is answered.
pub open spec fn format_protocol(api_format: Seq<char>) -> CheckProtocol {
    if is_gemini_format(api_format) {
        CheckProtocol::Gemini
    } else if is_openai_format(api_format) {
        CheckProtocol::OpenAi
    } else {
        CheckProtocol::Anthropic
    }
}

/// Who makes the headers that carry a credential.
#[derive(Clone, Copy, Debug, PartialEq, Eq, Structural)]
pub enum HeaderSource {
    /// The check itself.
    Check,
    /// The adapter for Anthropic's format.
    ClaudeAdapter,
    /// The adapter for Gemini.
    GeminiAdapter,
}

/// Who makes the credential headers of a messages request.
pub open spec fn header_source(strategy: AuthStrategy, api_format: Seq<char>) -> HeaderSource {
    if strategy is GitHubCopilot {
        HeaderSource::Check
    } else if is_gemini_format(api_format) {
        HeaderSource::GeminiAdapter
    } else if is_openai_format(api_format) && !(strategy is CodexOAuth) {
        HeaderSource::Check
    } else {
        HeaderSource::ClaudeAdapter
    }
}

/// How a body in the Anthropic format becomes one in the format of a request.
#[derive(Debug)]
pub enum BodyTransform {
    /// To OpenAI's Responses, with this prompt cache key.
    Responses { prompt_cache_key: String },
    /// To OpenAI's Chat Completions.
    Chat,
    /// To native Gemini.
    Gemini,
    /// It is sent as it is.
    Keep,
}

/// What a [`BodyTransform`] stands for.
pub enum BodyTransformView {
    Responses { prompt_cache_key: Seq<char> },
    Chat,
    Gemini,
    Keep,
}

impl View for BodyTransform {
    type V = BodyTransformView;

    open spec fn view(&self) -> BodyTransformView {
        match *self {
            BodyTransform::Responses { prompt_cache_key } => BodyTransformView::Responses {
                prompt_cache_key: prompt_cache_key@,
            },
            BodyTransform::Chat => BodyTransformView::Chat,
            BodyTransform::Gemini => BodyTransformView::Gemini,
            BodyTransform::Keep => BodyTransformView::Keep,
        }
    }
}

/// The prompt cache key of a provider: the one it is set to, else its id.
pub open spec fn cache_key(provider: Provider) -> Seq<char> {
    match provider.meta {
        Some(meta) => match meta.prompt_cache_key {
            Some(key) => key@,
            None => provider.id@,
        },
        None => provider.id@,
    }
}

/// The transformation that a format needs.
pub open spec fn format_transform(provider: Provider, api_format: Seq<char>) -> BodyTransformView {
    if api_format == "openai_responses"@ {
        BodyTransformView::Responses { prompt_cache_key: cache_key(provider) }
    } else if api_format == "openai_chat"@ {
        BodyTransformView::Chat
    } else if is_gemini_format(api_format) {
        BodyTransformView::Gemini
    } else {
        BodyTransformView::Keep
    }
}

/// A messages request whose body is still to be mapped and transformed.
#[derive(Debug)]
pub struct ClaudeDraft {
    pub api_format: String,
    pub url: String,
    pub body: Json,
    pub transform: BodyTransform,
    pub header_source: HeaderSource,
}

/// What a [`ClaudeDraft`] stands for.
pub struct ClaudeDraftView {
    pub api_format: Seq<char>,
    pub url: Seq<char>,
    pub body: JsonTree,
    pub transform: BodyTransformView,
    pub header_source: HeaderSource,
}

impl View for ClaudeDraft {
    type V = ClaudeDraftView;

    open spec fn view(&self) -> ClaudeDraftView {
        ClaudeDraftView {
            api_format: self.api_format@,
            url: self.url@,
            body: self.body@,
            transform: self.transform@,
            header_source: self.header_source,
        }
    }
}

/// The wire format of a messages request: the one that is asked for, else the
/// provider's own.
pub open spec fn wire_format(provider: Provider, api_format_override: Option<Seq<char>>) -> Seq<
    char,
> {
    match api_format_override {
        Some(format) => format,
        None => provider.routing.claude_api_format@,
    }
}

/// The draft of a messages request.
pub open spec fn claude_draft(
    base_url: Seq<char>,
    auth: AuthInfoView,
    model: Seq<char>,
    provider: Provider,
    api_format_override: Option<Seq<char>>,
    gemini_url: Seq<char>,
) -> Result<ClaudeDraftView, AppErrorView> {
    if awaits_sign_in(auth) {
        Err(sign_in_missing())
    } else {
        let api_format = wire_format(provider, api_format_override);
        Ok(
            ClaudeDraftView {
                api_format,
                url: claude_url(
                    base_url,
                    auth.strategy,
                    api_format,
                    provider.full_url(),
                    gemini_url,
                ),
                body: claude_body(model),
                transform: format_transform(provider, api_format),
                header_source: header_source(auth.strategy, api_format),
            },
        )
    }
}

/// The headers of a messages request, given those that an adapter makes and the
/// identifier of the request.
pub open spec fn claude_headers(
    auth: AuthInfoView,
    api_format: Seq<char>,
    adapter: Seq<HeaderView>,
    profile: AnthropicProfile,
    copilot: CopilotIdentity,
    request_id: Seq<char>,
    extra_headers: Option<Seq<(Seq<char>, JsonTree)>>,
    managed_account_id: Option<Seq<char>>,
    provider: Provider,
) -> Seq<HeaderView> {
    let is_copilot = auth.strategy is GitHubCopilot;
    let credential = if is_copilot {
        copilot_headers(auth.api_key, copilot, request_id)
    } else if is_gemini_format(api_format) {
        adapter
    } else if is_openai_format(api_format) {
        if auth.strategy is CodexOAuth {
            adapter
        } else {
            seq![bearer(auth.api_key)]
        }
    } else {
        adapter + anthropic_headers(profile)
    };
    let account = if auth.strategy is CodexOAuth {
        optional_header("chatgpt-account-id"@, managed_account_id)
    } else {
        seq![]
    };
    let agent = if is_copilot {
        seq![]
    } else {
        optional_header("user-agent"@, user_agent(provider))
    };
    stream_headers() + credential + extra_of(extra_headers) + account + agent
}

/// A messages request, given what its draft's body was transformed to and what the
/// adapter that the draft names made of the credential.
pub open spec fn claude_http(
    draft: ClaudeDraftView,
    auth: AuthInfoView,
    model: Seq<char>,
    provider: Provider,
    transformed: Result<JsonTree, Seq<char>>,
    adapter: Result<Seq<HeaderView>, Seq<char>>,
    profile: AnthropicProfile,
    copilot: CopilotIdentity,
    request_id: Seq<char>,
    extra_headers: Option<Seq<(Seq<char>, JsonTree)>>,
    managed_account_id: Option<Seq<char>>,
) -> Result<HttpRequestView, AppErrorView> {
    let from_check = header_source(auth.strategy, draft.api_format) is Check;
    match (transformed, adapter) {
        (Err(text), _) => message("构造模型测试请求失败: "@ + text),
        (Ok(body), Err(text)) if !from_check => message(text),
        (Ok(body), _) => Ok(
            HttpRequestView {
                url: draft.url,
                headers: claude_headers(
                    auth,
                    draft.api_format,
                    match adapter {
                        Ok(headers) => headers,
                        Err(_) => seq![],
                    },
                    profile,
                    copilot,
                    request_id,
                    extra_headers,
                    managed_account_id,
                    provider,
                ),
                body,
                protocol: format_protocol(draft.api_format),
                model,
            },
        ),
    }
}

/// A lower case hexadecimal digit.
pub open spec fn is_hex(c: char) -> bool {
    '0' <= c <= '9' || 'a' <= c <= 'f'
}

/// What may stand at position `i` of a random UUID: hyphens between its groups,
/// the version, the variant, and hexadecimal digits elsewhere.
pub open spec fn is_uuid_char(i: int, c: char) -> bool {
    if i == 8 || i == 13 || i == 18 || i == 23 {
        c == '-'
    } else if i == 14 {
        c == '4'
    } else if i == 19 {
        c == '8' || c == '9' || c == 'a' || c == 'b'
    } else {
        is_hex(c)
    }
}

/// A random UUID in its hyphenated form.
pub open spec fn is_random_uuid(s: Seq<char>) -> bool {
    s.len() == 36 && forall|i: int| 0 <= i < 36 ==> is_uuid_char(i, #[trigger] s[i])
}

/// Calls `uuid::Uuid::new_v4` and writes the result with its `Display`: a random
/// UUID in lower case with hyphens, marked as version 4. Which one it is depends on
/// chance and is not stated.
#[verifier::external_body]
fn new_request_id() -> (r: String)
    ensures
        is_random_uuid(r@),
{
    uuid::Uuid::new_v4().to_string()
}

/// A draft, or why there is none.
pub open spec fn draft_of(result: Result<ClaudeDraft, AppError>) -> Result<
    ClaudeDraftView,
    AppErrorView,
> {
    match result {
        Ok(draft) => Ok(draft@),
        Err(error) => Err(error@),
    }
}

/// The wire format of a messages request.
fn wire_format_of<'a>(provider: &'a Provider, api_format_override: Option<&'a str>) -> (r: &'a str)
    ensures
        r@ == wire_format(*provider, text_of_str(api_format_override)),
{
    match api_format_override {
        Some(format) => format,
        None => provider.routing.claude_api_format.as_str(),
    }
}

/// Whether a format is one of OpenAI's two.
fn openai_format(api_format: &str) -> (r: bool)
    ensures
        r == is_openai_format(api_format@),
{
    text::same(api_format, "openai_chat") || text::same(api_format, "openai_responses")
}

/// The prompt cache key of a provider.
fn cache_key_of(provider: &Provider) -> (r: String)
    ensures
        r@ == cache_key(*provider),
{
    match &provider.meta {
        Some(meta) => match &meta.prompt_cache_key {
            Some(key) => key.clone(),
            None => provider.id.clone(),
        },
        None => provider.id.clone(),
    }
}

/// Appends the headers of GitHub Copilot.
fn push_copilot(
    headers: &mut Vec<(String, String)>,
    api_key: &str,
    copilot: &CopilotIdentity,
    request_id: &str,
)
    ensures
        pairs_of(final(headers)@) == pairs_of(old(headers)@) + copilot_headers(
            api_key@,
            *copilot,
            request_id@,
        ),
{
    push_bearer(headers, api_key);
    push_header(headers, "user-agent", copilot.user_agent.as_str());
    push_header(headers, "editor-version", copilot.editor_version.as_str());
    push_header(headers, "editor-plugin-version", copilot.plugin_version.as_str());
    push_header(headers, "copilot-integration-id", copilot.integration_id.as_str());
    push_header(headers, "x-github-api-version", copilot.api_version.as_str());
    push_header(headers, "openai-intent", "conversation-agent");
    push_header(headers, "x-initiator", "user");
    push_header(headers, "x-interaction-type", "conversation-agent");
    push_header(headers, "x-request-id", request_id);
    push_header(headers, "x-agent-task-id", request_id);
    assert(pairs_of(headers@) =~= pairs_of(old(headers)@) + copilot_headers(
        api_key@,
        *copilot,
        request_id@,
    ));
}

/// Appends the headers of the Anthropic format that come after the credential.
fn push_anthropic(headers: &mut Vec<(String, String)>, profile: &AnthropicProfile)
    ensures
        pairs_of(final(headers)@) == pairs_of(old(headers)@) + anthropic_headers(*profile),
{
    push_header(headers, "anthropic-version", "2023-06-01");
    push_header(headers, "anthropic-beta", profile.beta_features.as_str());
    push_header(headers, "anthropic-dangerous-direct-browser-access", "true");
    push_header(headers, "accept-language", "*");
    push_header(headers, "user-agent", profile.user_agent.as_str());
    push_header(headers, "x-app", "cli");
    assert(pairs_of(headers@) =~= pairs_of(old(headers)@) + anthropic_headers(*profile));
}

impl ModelCheckService {
    /// Whether a messages request goes to the address that the native Gemini format
    /// uses for the model.
    pub fn needs_gemini_url(provider: &Provider, api_format_override: Option<&str>) -> (r: bool)
        ensures
            r == is_gemini_format(wire_format(*provider, text_of_str(api_format_override))),
    {
        text::same(wire_format_of(provider, api_format_override), "gemini_native")
    }

    /// The draft of a messages request: where it goes, its body in the Anthropic
    /// format, and what is still to be done to it. `gemini_url` is the address that
    /// the native Gemini format uses for the model; it counts only where
    /// [`ModelCheckService::needs_gemini_url`] says so.
    pub fn check_claude(
        base_url: &str,
        auth: &AuthInfo,
        model: &str,
        provider: &Provider,
        api_format_override: Option<&str>,
        gemini_url: &str,
    ) -> (r: Result<ClaudeDraft, AppError>)
        ensures
            draft_of(r) == claude_draft(
                base_url@,
                auth@,
                model@,
                *provider,
                text_of_str(api_format_override),
                gemini_url@,
            ),
    {
        if is_placeholder(auth) {
            return Err(sign_in_missing_error());
        }
        let api_format = wire_format_of(provider, api_format_override);
        let url = Self::resolve_claude_url(
            base_url,
            auth.strategy,
            api_format,
            provider.is_full_url(),
            gemini_url,
        );
        let transform = if text::same(api_format, "openai_responses") {
            BodyTransform::Responses { prompt_cache_key: cache_key_of(provider) }
        } else if text::same(api_format, "openai_chat") {
            BodyTransform::Chat
        } else if text::same(api_format, "gemini_native") {
            BodyTransform::Gemini
        } else {
            BodyTransform::Keep
        };
        let header_source = if auth.strategy == AuthStrategy::GitHubCopilot {
            HeaderSource::Check
        } else if text::same(api_format, "gemini_native") {
            HeaderSource::GeminiAdapter
        } else if openai_format(api_format) && auth.strategy != AuthStrategy::CodexOAuth {
            HeaderSource::Check
        } else {
            HeaderSource::ClaudeAdapter
        };
        Ok(
            ClaudeDraft {
                api_format: api_format.to_string(),
                url,
                body: Self::claude_request_body(model),
                transform,
                header_source,
            },
        )
    }

    /// The request of a draft, under the identifier `request_id`. `transformed` is
    /// what became of the draft's body, `adapter` the headers that the adapter which
    /// the draft names makes of the credential; each is an error's text where that
    /// failed.
    pub fn claude_request_with_id(
        draft: ClaudeDraft,
        auth: &AuthInfo,
        model: &str,
        provider: &Provider,
        transformed: Result<Json, String>,
        adapter: Result<Vec<(String, String)>, String>,
        profile: &AnthropicProfile,
        copilot: &CopilotIdentity,
        request_id: &str,
        extra_headers: Option<&Vec<(String, Json)>>,
        managed_account_id: Option<&str>,
    ) -> (r: Result<HttpRequest, AppError>)
        ensures
            request_of(r) == claude_http(
                draft@,
                auth@,
                model@,
                *provider,
                body_of(transformed),
                adapter_of(adapter),
                *profile,
                *copilot,
                request_id@,
                headers_of(extra_headers),
                text_of_str(managed_account_id),
            ),
    {
        let body = match transformed {
            Ok(body) => body,
            Err(error) => {
                return Err(
                    AppError::Message(text::join2("构造模型测试请求失败: ", error.as_str())),
                );
            },
        };
        let format = draft.api_format.as_str();
        let is_copilot = auth.strategy == AuthStrategy::GitHubCopilot;
        let is_gemini = text::same(format, "gemini_native");
        let is_openai = openai_format(format);
        let is_codex = auth.strategy == AuthStrategy::CodexOAuth;

        let mut headers = new_stream_headers();
        if is_copilot {
            push_copilot(&mut headers, auth.api_key.as_str(), copilot, request_id);
        } else if !is_gemini && is_openai && !is_codex {
            push_bearer(&mut headers, auth.api_key.as_str());
            assert(pairs_of(headers@) =~= stream_headers() + seq![bearer(auth.api_key@)]);
        } else {
            match adapter {
                Ok(made) => {
                    push_headers(&mut headers, &made);
                    if !is_gemini && !is_openai {
                        push_anthropic(&mut headers, profile);
                        assert(pairs_of(headers@) =~= stream_headers() + (pairs_of(made@)
                            + anthropic_headers(*profile)));
                    }
                },
                Err(error) => {
                    return Err(AppError::Message(error));
                },
            }
        }
        push_extra(&mut headers, extra_headers);
        let ghost sent = pairs_of(headers@);
        if is_codex {
            push_optional(&mut headers, "chatgpt-account-id", managed_account_id);
        }
        assert(!is_codex ==> pairs_of(headers@) =~= sent + Seq::<HeaderView>::empty());
        let ghost sent = pairs_of(headers@);
        if !is_copilot {
            push_optional(&mut headers, "user-agent", Self::custom_user_agent(provider));
        }
        assert(is_copilot ==> pairs_of(headers@) =~= sent + Seq::<HeaderView>::empty());
        let protocol = if is_gemini {
            CheckProtocol::Gemini
        } else if is_openai {
            CheckProtocol::OpenAi
        } else {
            CheckProtocol::Anthropic
        };
        Ok(HttpRequest { url: draft.url, headers, body, protocol, model: model.to_string() })
    }

    /// The request of a draft (see [`ModelCheckService::claude_request_with_id`]),
    /// under a fresh identifier where the upstream wants one.
    pub fn claude_request(
        draft: ClaudeDraft,
        auth: &AuthInfo,
        model: &str,
        provider: &Provider,
        transformed: Result<Json, String>,
        adapter: Result<Vec<(String, String)>, String>,
        profile: &AnthropicProfile,
        copilot: &CopilotIdentity,
        extra_headers: Option<&Vec<(String, Json)>>,
        managed_account_id: Option<&str>,
    ) -> (r: Result<HttpRequest, AppError>)
        ensures
            exists|request_id: Seq<char>|
                {
                    &&& auth.strategy is GitHubCopilot ==> is_random_uuid(request_id)
                    &&& request_of(r) == #[trigger] claude_http(
                        draft@,
                        auth@,
                        model@,
                        *provider,
                        body_of(transformed),
                        adapter_of(adapter),
                        *profile,
                        *copilot,
                        request_id,
                        headers_of(extra_headers),
                        text_of_str(managed_account_id),
                    )
                },
    {
        let request_id = if auth.strategy == AuthStrategy::GitHubCopilot {
            new_request_id()
        } else {
            String::new()
        };
        Self::claude_request_with_id(
            draft,
            auth,
            model,
            provider,
            transformed,
            adapter,
            profile,
            copilot,
            request_id.as_str(),
            extra_headers,
            managed_account_id,
        )
    }
}

} // verus!
