//! Laws of requests: where they go, what they hold, and which headers they carry.
use vstd::prelude::*;

use crate::bodies::{claude_body, codex_body, gemini_body};
use crate::codex::{codex_draft_of, codex_http};
use crate::gemini::gemini_http;
use crate::http::{extra_of, string_members, user_agent, HeaderView, HttpRequestView};
use crate::json::JsonTree;
use crate::laws::json::{asks_once, law_codex_body};
use crate::laws::routes::is_stand_in;
use crate::messages::{
    claude_draft, claude_http, format_protocol, is_gemini_format, wire_format, BodyTransformView,
    ClaudeDraftView, CopilotIdentity,
};
use crate::models::effort_split;
use crate::text::{without_leading, without_trailing};
use crate::types::{
    AnthropicProfile, AppErrorView, AuthInfoView, AuthStrategy, Provider,
};
use crate::urls::claude_url;

verus! {

/// The settings say that the base address is complete.
pub open spec fn says_complete(provider: Provider) -> bool {
    provider.meta matches Some(meta) && meta.is_full_url == Some(true)
}

/// A base address is complete only where the settings say so.
pub proof fn law_complete_address(provider: Provider)
    ensures
        provider.full_url() <==> says_complete(provider),
{
}

/// The prompt cache key of the settings, else the provider's id.
pub open spec fn key_for_cache(provider: Provider) -> Seq<char> {
    if provider.meta is Some && provider.meta->0.prompt_cache_key is Some {
        provider.meta->0.prompt_cache_key->0@
    } else {
        provider.id@
    }
}

/// The format that a check asks for goes before the provider's own.
pub proof fn law_wire_format(provider: Provider, format: Seq<char>)
    ensures
        wire_format(provider, Some(format)) == format,
        wire_format(provider, None) == provider.routing.claude_api_format@,
        is_gemini_format(format) <==> format == "gemini_native"@,
{
}

proof fn lemma_formats_differ()
    ensures
        "openai_responses"@ != "openai_chat"@,
        "openai_responses"@ != "gemini_native"@,
        "openai_chat"@ != "gemini_native"@,
{
    reveal_strlit("openai_responses");
    reveal_strlit("openai_chat");
    reveal_strlit("gemini_native");
    assert("openai_responses"@.len() == 16);
    assert("openai_chat"@.len() == 11);
    assert("gemini_native"@.len() == 13);
}

/// A messages draft, unless nobody has signed in: it has the body in Anthropic's format,
/// goes where its format goes, and is translated to that format.
pub proof fn law_messages_draft(
    base_url: Seq<char>,
    auth: AuthInfoView,
    model: Seq<char>,
    provider: Provider,
    api_format: Option<Seq<char>>,
    gemini_url: Seq<char>,
    format: Seq<char>,
)
    requires
        !is_stand_in(auth),
        api_format == Some(format) || (api_format is None && provider.routing.claude_api_format@
            == format),
    ensures
        claude_draft(base_url, auth, model, provider, api_format, gemini_url) matches Ok(draft) && {
            &&& draft.api_format == format
            &&& draft.url == claude_url(
                base_url,
                auth.strategy,
                format,
                says_complete(provider),
                gemini_url,
            )
            &&& draft.body == claude_body(model)
            &&& format == "openai_responses"@ ==> draft.transform
                == BodyTransformView::Responses { prompt_cache_key: key_for_cache(provider) }
            &&& format == "openai_chat"@ ==> draft.transform is Chat
            &&& format == "gemini_native"@ ==> draft.transform is Gemini
            &&& format != "openai_responses"@ && format != "openai_chat"@ && format
                != "gemini_native"@ ==> draft.transform is Keep
        },
{
    lemma_formats_differ();
}

/// The check makes the credential headers of GitHub Copilot, and those of OpenAI's formats
/// unless a Codex account is used; Gemini's adapter makes those of native Gemini, and
/// Anthropic's all others.
pub proof fn law_header_source(
    base_url: Seq<char>,
    auth: AuthInfoView,
    model: Seq<char>,
    provider: Provider,
    format: Seq<char>,
    gemini_url: Seq<char>,
)
    requires
        !is_stand_in(auth),
    ensures
        claude_draft(base_url, auth, model, provider, Some(format), gemini_url) matches Ok(draft)
            && {
            let openai = format == "openai_chat"@ || format == "openai_responses"@;
            let copilot = auth.strategy is GitHubCopilot;
            let codex = auth.strategy is CodexOAuth;
            &&& draft.header_source is Check <==> copilot || (openai && !codex)
            &&& draft.header_source is GeminiAdapter <==> !copilot && format == "gemini_native"@
            &&& draft.header_source is ClaudeAdapter <==> !copilot && format != "gemini_native"@
                && (!openai || codex)
        },
{
    lemma_formats_differ();
}

/// The members of a configuration that are strings become headers, in their order; any
/// other member is passed over.
pub proof fn law_extra_headers(
    entries: Seq<(Seq<char>, JsonTree)>,
    key: Seq<char>,
    value: JsonTree,
)
    ensures
        extra_of(None) == Seq::<HeaderView>::empty(),
        extra_of(Some(entries)) == string_members(entries),
        string_members(seq![]) == Seq::<HeaderView>::empty(),
        value matches JsonTree::String(text) ==> string_members(entries.push((key, value)))
            == string_members(entries).push((key, text)),
        !(value is String) ==> string_members(entries.push((key, value))) == string_members(
            entries,
        ),
{
    assert(entries.push((key, value)).drop_last() =~= entries);
}

/// The user agent of the settings, where they make one.
pub open spec fn own_agent(provider: Provider) -> Seq<HeaderView> {
    if provider.meta is Some && (provider.meta->0.custom_user_agent_header matches Ok(value)
        && value is Some) {
        seq![("user-agent"@, provider.meta->0.custom_user_agent_header->Ok_0->0@)]
    } else {
        seq![]
    }
}

/// The user agent is the one that the settings make; settings that make none, or cannot,
/// ask for none.
pub proof fn law_user_agent(provider: Provider)
    ensures
        user_agent(provider) matches Some(value) ==> own_agent(provider) == seq![
            ("user-agent"@, value),
        ],
        user_agent(provider) is None ==> own_agent(provider) == Seq::<HeaderView>::empty(),
{
}

/// The headers of a configuration.
pub open spec fn configured(extra: Option<Seq<(Seq<char>, JsonTree)>>) -> Seq<HeaderView> {
    match extra {
        Some(entries) => string_members(entries),
        None => seq![],
    }
}

/// The account of a managed credential, where it is known.
pub open spec fn account_header(account: Option<Seq<char>>) -> Seq<HeaderView> {
    match account {
        Some(id) => seq![("chatgpt-account-id"@, id)],
        None => seq![],
    }
}

/// What every request to a stream asks for.
pub open spec fn asks_for_stream() -> Seq<HeaderView> {
    seq![
        ("content-type"@, "application/json"@),
        ("accept"@, "text/event-stream"@),
        ("accept-encoding"@, "identity"@),
    ]
}

/// A body that could not be made, and then headers that an adapter could not make, end a
/// messages request with their texts; headers of an adapter that is not asked do not
/// matter. Else the request has the address and the format of its draft, the body that was
/// made, and the model that was asked for.
pub proof fn law_messages_request(
    draft: ClaudeDraftView,
    auth: AuthInfoView,
    model: Seq<char>,
    provider: Provider,
    profile: AnthropicProfile,
    copilot: CopilotIdentity,
    request_id: Seq<char>,
    extra: Option<Seq<(Seq<char>, JsonTree)>>,
    account: Option<Seq<char>>,
    transformed: Result<JsonTree, Seq<char>>,
    adapter: Result<Seq<HeaderView>, Seq<char>>,
)
    ensures
        ({
            let request = claude_http(
                draft,
                auth,
                model,
                provider,
                transformed,
                adapter,
                profile,
                copilot,
                request_id,
                extra,
                account,
            );
            let format = draft.api_format;
            let openai = format == "openai_chat"@ || format == "openai_responses"@;
            let asked = !(auth.strategy is GitHubCopilot) && !(openai && !(
            auth.strategy is CodexOAuth));
            &&& transformed matches Err(text) ==> request == Err::<HttpRequestView, _>(
                AppErrorView::Message("构造模型测试请求失败: "@ + text),
            )
            &&& transformed is Ok && asked && adapter is Err ==> request == Err::<
                HttpRequestView,
                _,
            >(AppErrorView::Message(adapter->Err_0))
            &&& transformed is Ok && (!asked || adapter is Ok) ==> (request matches Ok(sent) && {
                &&& sent.url == draft.url
                &&& sent.body == transformed->Ok_0
                &&& sent.model == model
                &&& sent.protocol == format_protocol(format)
                &&& format == "gemini_native"@ ==> sent.protocol is Gemini
                &&& openai ==> sent.protocol is OpenAi
                &&& format != "gemini_native"@ && !openai ==> sent.protocol is Anthropic
            })
        }),
{
    lemma_formats_differ();
}

/// A request to GitHub Copilot carries the key as a bearer token, the identity of the
/// application and the identifier of the request, then the headers of the configuration.
/// The user agent of the settings does not replace the identity.
pub proof fn law_copilot_headers(
    draft: ClaudeDraftView,
    auth: AuthInfoView,
    model: Seq<char>,
    provider: Provider,
    profile: AnthropicProfile,
    copilot: CopilotIdentity,
    request_id: Seq<char>,
    extra: Option<Seq<(Seq<char>, JsonTree)>>,
    account: Option<Seq<char>>,
    body: JsonTree,
    adapter: Result<Seq<HeaderView>, Seq<char>>,
)
    requires
        auth.strategy is GitHubCopilot,
    ensures
        claude_http(
            draft,
            auth,
            model,
            provider,
            Ok(body),
            adapter,
            profile,
            copilot,
            request_id,
            extra,
            account,
        ) matches Ok(sent) && sent.headers == asks_for_stream() + seq![
            ("authorization"@, "Bearer "@ + auth.api_key),
            ("user-agent"@, copilot.user_agent@),
            ("editor-version"@, copilot.editor_version@),
            ("editor-plugin-version"@, copilot.plugin_version@),
            ("copilot-integration-id"@, copilot.integration_id@),
            ("x-github-api-version"@, copilot.api_version@),
            ("openai-intent"@, "conversation-agent"@),
            ("x-initiator"@, "user"@),
            ("x-interaction-type"@, "conversation-agent"@),
            ("x-request-id"@, request_id),
            ("x-agent-task-id"@, request_id),
        ] + configured(extra),
{
    let sent = claude_http(
        draft,
        auth,
        model,
        provider,
        Ok(body),
        adapter,
        profile,
        copilot,
        request_id,
        extra,
        account,
    )->Ok_0;
    assert(sent.headers =~= asks_for_stream() + seq![
        ("authorization"@, "Bearer "@ + auth.api_key),
        ("user-agent"@, copilot.user_agent@),
        ("editor-version"@, copilot.editor_version@),
        ("editor-plugin-version"@, copilot.plugin_version@),
        ("copilot-integration-id"@, copilot.integration_id@),
        ("x-github-api-version"@, copilot.api_version@),
        ("openai-intent"@, "conversation-agent"@),
        ("x-initiator"@, "user"@),
        ("x-interaction-type"@, "conversation-agent"@),
        ("x-request-id"@, request_id),
        ("x-agent-task-id"@, request_id),
    ] + configured(extra));
}

/// Everyone else: native Gemini, and OpenAI's formats with a Codex account, carry what the
/// adapter made; OpenAI's formats otherwise carry the key as a bearer token; every other
/// format carries what the adapter made and the headers of Anthropic's interface. The
/// headers of the configuration follow, then the account of a Codex credential, then the
/// user agent of the settings.
pub proof fn law_messages_headers(
    draft: ClaudeDraftView,
    auth: AuthInfoView,
    model: Seq<char>,
    provider: Provider,
    profile: AnthropicProfile,
    copilot: CopilotIdentity,
    request_id: Seq<char>,
    extra: Option<Seq<(Seq<char>, JsonTree)>>,
    account: Option<Seq<char>>,
    body: JsonTree,
    made: Seq<HeaderView>,
)
    requires
        !(auth.strategy is GitHubCopilot),
    ensures
        claude_http(
            draft,
            auth,
            model,
            provider,
            Ok(body),
            Ok(made),
            profile,
            copilot,
            request_id,
            extra,
            account,
        ) matches Ok(sent) && {
            let format = draft.api_format;
            let openai = format == "openai_chat"@ || format == "openai_responses"@;
            let codex = auth.strategy is CodexOAuth;
            let last = (if codex {
                account_header(account)
            } else {
                seq![]
            }) + own_agent(provider);
            &&& format == "gemini_native"@ || (openai && codex) ==> sent.headers
                == asks_for_stream() + made + configured(extra) + last
            &&& openai && !codex ==> sent.headers == asks_for_stream() + seq![
                ("authorization"@, "Bearer "@ + auth.api_key),
            ] + configured(extra) + last
            &&& format != "gemini_native"@ && !openai ==> sent.headers == asks_for_stream() + made
                + seq![
                ("anthropic-version"@, "2023-06-01"@),
                ("anthropic-beta"@, profile.beta_features@),
                ("anthropic-dangerous-direct-browser-access"@, "true"@),
                ("accept-language"@, "*"@),
                ("user-agent"@, profile.user_agent@),
                ("x-app"@, "cli"@),
            ] + configured(extra) + last
        },
{
    lemma_formats_differ();
    let sent = claude_http(
        draft,
        auth,
        model,
        provider,
        Ok(body),
        Ok(made),
        profile,
        copilot,
        request_id,
        extra,
        account,
    )->Ok_0;
    let format = draft.api_format;
    let openai = format == "openai_chat"@ || format == "openai_responses"@;
    let codex = auth.strategy is CodexOAuth;
    let last = (if codex {
        account_header(account)
    } else {
        seq![]
    }) + own_agent(provider);
    if format == "gemini_native"@ || (openai && codex) {
        assert(sent.headers =~= asks_for_stream() + made + configured(extra) + last);
    } else if openai {
        assert(sent.headers =~= asks_for_stream() + seq![
            ("authorization"@, "Bearer "@ + auth.api_key),
        ] + configured(extra) + last);
    } else {
        assert(sent.headers =~= asks_for_stream() + made + seq![
            ("anthropic-version"@, "2023-06-01"@),
            ("anthropic-beta"@, profile.beta_features@),
            ("anthropic-dangerous-direct-browser-access"@, "true"@),
            ("accept-language"@, "*"@),
            ("user-agent"@, profile.user_agent@),
            ("x-app"@, "cli"@),
        ] + configured(extra) + last);
    }
}

/// A Codex draft: a provider that speaks Chat Completions gets a body with `messages` and
/// without `input`, and is asked under `/chat/completions`; every other one gets a body
/// with `input` and without `messages`, and is asked under `/responses`. A complete address
/// is asked as it stands. The model in the body is the one without its effort.
pub proof fn law_codex_draft(
    provider: Provider,
    base_url: Seq<char>,
    model: Seq<char>,
    primary: Seq<char>,
)
    ensures
        ({
            let draft = codex_draft_of(provider, base_url, model, primary);
            let chat = provider.routing.codex_uses_chat_completions;
            let base = without_trailing(base_url, '/');
            &&& draft.actual_model == effort_split(model).0
            &&& draft.reasoning_effort == effort_split(model).1
            &&& draft.body.get("model"@) == Some(JsonTree::String(draft.actual_model))
            &&& draft.body == codex_body(draft.actual_model, chat)
            &&& chat ==> asks_once(draft.body.get("messages"@)) && draft.body.get("input"@) is None
            &&& !chat ==> asks_once(draft.body.get("input"@)) && draft.body.get("messages"@) is None
            &&& says_complete(provider) ==> draft.urls == seq![base_url]
            &&& !says_complete(provider) ==> draft.urls.first() == primary
            &&& !says_complete(provider) && chat ==> draft.urls.last() == base
                + "/chat/completions"@
            &&& !says_complete(provider) && !chat ==> draft.urls.last() == base + "/responses"@
            &&& draft.urls.len() <= 2
        }),
{
    law_codex_body(effort_split(model).0, seq![]);
    reveal_strlit("/");
    reveal_strlit("/chat/completions");
    reveal_strlit("/responses");
    let chat = provider.routing.codex_uses_chat_completions;
    let endpoint = if chat {
        "/chat/completions"@
    } else {
        "/responses"@
    };
    let base = without_trailing(base_url, '/');
    let rest = endpoint.drop_first();
    assert(endpoint[0] == '/');
    assert(rest[0] != '/');
    reveal_with_fuel(without_leading, 2);
    assert(without_leading(endpoint, '/') == rest);
    assert(base + "/"@ + rest =~= base + endpoint);
}

/// A Codex request carries the user agent of the settings, else that of the Codex command
/// line, and its name; then what the adapter made; and for a Codex account the name and
/// the version of the client and the account. Headers that the adapter could not make end
/// it with their text.
pub proof fn law_codex_request(
    url: Seq<char>,
    body: JsonTree,
    actual_model: Seq<char>,
    provider: Provider,
    strategy: AuthStrategy,
    made: Seq<HeaderView>,
    text: Seq<char>,
    account: Option<Seq<char>>,
)
    ensures
        codex_http(url, body, actual_model, provider, strategy, Err(text), account) == Err::<
            HttpRequestView,
            _,
        >(AppErrorView::Message(text)),
        codex_http(url, body, actual_model, provider, strategy, Ok(made), account) matches Ok(sent)
            && {
            let agent = if own_agent(provider).len() > 0 {
                own_agent(provider)[0]
            } else {
                ("user-agent"@, "codex_cli_rs/0.80.0 (Windows 10; x86_64) Terminal"@)
            };
            let plain = asks_for_stream() + seq![agent, ("originator"@, "codex_cli_rs"@)] + made;
            &&& sent.url == url
            &&& sent.body == body
            &&& sent.model == actual_model
            &&& sent.protocol is OpenAi
            &&& !(strategy is CodexOAuth) ==> sent.headers == plain
            &&& strategy is CodexOAuth ==> sent.headers == plain + seq![
                ("originator"@, "codex_cli_rs"@),
                ("version"@, "0.144.1"@),
            ] + account_header(account)
        },
{
    let sent = codex_http(
        url,
        body,
        actual_model,
        provider,
        strategy,
        Ok(made),
        account,
    )->Ok_0;
    let agent = if own_agent(provider).len() > 0 {
        own_agent(provider)[0]
    } else {
        ("user-agent"@, "codex_cli_rs/0.80.0 (Windows 10; x86_64) Terminal"@)
    };
    let plain = asks_for_stream() + seq![agent, ("originator"@, "codex_cli_rs"@)] + made;
    if strategy is CodexOAuth {
        assert(sent.headers =~= plain + seq![
            ("originator"@, "codex_cli_rs"@),
            ("version"@, "0.144.1"@),
        ] + account_header(account));
    } else {
        assert(sent.headers =~= plain);
    }
}

/// A native Gemini request carries what the adapter made, the headers of the configuration
/// and the user agent of the settings; it does not forbid an encoding. Headers that the
/// adapter could not make end it with their text.
pub proof fn law_gemini_request(
    url: Seq<char>,
    model: Seq<char>,
    provider: Provider,
    made: Seq<HeaderView>,
    text: Seq<char>,
    extra: Option<Seq<(Seq<char>, JsonTree)>>,
)
    ensures
        gemini_http(url, model, provider, Err(text), extra) == Err::<HttpRequestView, _>(
            AppErrorView::Message(text),
        ),
        gemini_http(url, model, provider, Ok(made), extra) matches Ok(sent) && {
            &&& sent.url == url
            &&& sent.body == gemini_body()
            &&& sent.model == model
            &&& sent.protocol is Gemini
            &&& sent.headers == seq![
                ("content-type"@, "application/json"@),
                ("accept"@, "text/event-stream"@),
            ] + made + configured(extra) + own_agent(provider)
        },
{
    let sent = gemini_http(url, model, provider, Ok(made), extra)->Ok_0;
    assert(sent.headers =~= seq![
        ("content-type"@, "application/json"@),
        ("accept"@, "text/event-stream"@),
    ] + made + configured(extra) + own_agent(provider));
}

} // verus!
