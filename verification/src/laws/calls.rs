//! Laws of calls: what each function of the library hands back, for any arguments, is what
//! the other laws speak of; and what the values that are handed back stand for.
use vstd::prelude::*;

use crate::bodies::{claude_body, codex_body, gemini_body, reasoning_body};
use crate::codex::{codex_draft_of, codex_http, CodexDraft, CodexStep};
use crate::exchange::{stepped, EventView, Exchange, ExchangeEvent, ExchangeView};
use crate::gemini::gemini_http;
use crate::http::{pairs_of, string_members, user_agent, HeaderView, HttpRequest, HttpRequestView};
use crate::json::{entries_tree, json_text, parse_json, value_tree, Json, JsonTree};
use crate::laws::json::law_inserted_is_found;
use crate::laws::models::said;
use crate::laws::stream::{carries, law_payload_of_a_line};
use crate::messages::{
    claude_draft, claude_http, is_random_uuid, is_uuid_char, BodyTransform, BodyTransformView,
    ClaudeDraft, ClaudeDraftView, CopilotIdentity,
};
use crate::models::{effort_split, named_model, test_model};
use crate::results::{
    category_text, http_category, kept_body, message_category, request_failure, result_view,
    RequestError,
};
use crate::routes::{
    check_plan, codex_route, hermes_route, opencode_route, structured_route, CheckPlan,
    CheckPlanView, Route, RouteView,
};
use crate::stream::{
    chunk_text, closed_outcome, fed, is_error_payload, line_verdict, line_verdict_with,
    ReaderView, ResponseReader, Verdict,
};
use crate::text::{without_leading, without_trailing};
use crate::types::{
    AnthropicProfile, AppError, AppErrorView, AppType, AuthInfo, AuthInfoView, AuthStrategy,
    CheckProtocol, ModelCheckResult, ModelCheckService, Outcome, OutcomeView, Provider,
};
use crate::urls::{claude_url, codex_urls, gemini_path};

verus! {

/// An absent text, or its characters.
pub open spec fn chars(text: Option<String>) -> Option<Seq<char>> {
    if text is Some {
        Some(text->0@)
    } else {
        None
    }
}

/// An absent text, or its characters.
pub open spec fn chars_in(text: Option<&str>) -> Option<Seq<char>> {
    if text is Some {
        Some(text->0@)
    } else {
        None
    }
}

/// An absent value, or its tree.
pub open spec fn tree_in(value: Option<&Json>) -> Option<JsonTree> {
    if value is Some {
        Some(value->0@)
    } else {
        None
    }
}

/// An absent credential, or what it stands for.
pub open spec fn credential(auth: Option<AuthInfo>) -> Option<AuthInfoView> {
    if auth is Some {
        Some(AuthInfoView { api_key: auth->0.api_key@, strategy: auth->0.strategy })
    } else {
        None
    }
}

/// Absent headers, or the trees of their members.
pub open spec fn members_in(headers: Option<&Vec<(String, Json)>>) -> Option<
    Seq<(Seq<char>, JsonTree)>,
> {
    if headers is Some {
        Some(entries_tree(headers->0@))
    } else {
        None
    }
}

/// An error in the words of its kind.
pub open spec fn worded(error: AppError) -> AppErrorView {
    match error {
        AppError::Message(text) => AppErrorView::Message(text@),
        AppError::Localized { key, zh, en } => AppErrorView::Localized {
            key: key@,
            zh: zh@,
            en: en@,
        },
        AppError::HttpStatus { status, body } => AppErrorView::HttpStatus { status, body: body@ },
    }
}

/// An outcome in the words of its kind.
pub open spec fn told(outcome: Outcome) -> OutcomeView {
    match outcome {
        Ok(answer) => Ok((answer.0, answer.1@)),
        Err(error) => Err(worded(error)),
    }
}

/// What a line was found to say.
pub open spec fn found(verdict: Option<Result<(), AppError>>) -> Verdict {
    match verdict {
        Some(Ok(_)) => Some(Ok(())),
        Some(Err(error)) => Some(Err(worded(error))),
        None => None,
    }
}

/// A route, field by field.
pub open spec fn routed(route: Result<Route, AppError>) -> Result<RouteView, AppErrorView> {
    match route {
        Ok(Route::Claude { base_url, auth, api_format, extra_headers, managed_account_id }) => Ok(
            RouteView::Claude {
                base_url: base_url@,
                auth: AuthInfoView { api_key: auth.api_key@, strategy: auth.strategy },
                api_format: chars(api_format),
                extra_headers: members_in(extra_headers),
                managed_account_id: chars(managed_account_id),
            },
        ),
        Ok(Route::Codex { base_url, auth, managed_account_id }) => Ok(
            RouteView::Codex {
                base_url: base_url@,
                auth: AuthInfoView { api_key: auth.api_key@, strategy: auth.strategy },
                managed_account_id: chars(managed_account_id),
            },
        ),
        Ok(Route::Gemini { base_url, auth, extra_headers }) => Ok(
            RouteView::Gemini {
                base_url: base_url@,
                auth: AuthInfoView { api_key: auth.api_key@, strategy: auth.strategy },
                extra_headers: members_in(extra_headers),
            },
        ),
        Err(error) => Err(worded(error)),
    }
}

/// A request, field by field.
pub open spec fn to_send(request: Result<HttpRequest, AppError>) -> Result<
    HttpRequestView,
    AppErrorView,
> {
    match request {
        Ok(sent) => Ok(
            HttpRequestView {
                url: sent.url@,
                headers: named(sent.headers@),
                body: sent.body@,
                protocol: sent.protocol,
                model: sent.model@,
            },
        ),
        Err(error) => Err(worded(error)),
    }
}

/// Headers, name by name.
pub open spec fn named(headers: Seq<(String, String)>) -> Seq<HeaderView> {
    headers.map_values(|header: (String, String)| (header.0@, header.1@))
}

/// The headers that an adapter made, or the text of its error.
pub open spec fn made_by(adapter: Result<Vec<(String, String)>, String>) -> Result<
    Seq<HeaderView>,
    Seq<char>,
> {
    match adapter {
        Ok(headers) => Ok(named(headers@)),
        Err(text) => Err(text@),
    }
}

/// A body that was made, or the text of the error in its place.
pub open spec fn body_in(body: Result<Json, String>) -> Result<JsonTree, Seq<char>> {
    match body {
        Ok(json) => Ok(json@),
        Err(text) => Err(text@),
    }
}

proof fn lemma_named(headers: Seq<(String, String)>)
    ensures
        named(headers) == pairs_of(headers),
{
    assert(named(headers) =~= pairs_of(headers));
}

/// The model of a check depends on all that is asked of it.
pub proof fn law_call_resolve_test_model(
    app_type: &AppType,
    provider: &Provider,
    requested: Option<&str>,
    profile: &AnthropicProfile,
    r: Option<String>,
)
    requires
        call_ensures(
            ModelCheckService::resolve_test_model,
            (app_type, provider, requested, profile),
            r,
        ),
    ensures
        chars(r) == test_model(*app_type, *provider, chars_in(requested), *profile),
{
}

/// The first model of a setting, and the split of a name.
pub proof fn law_call_models(
    value: Option<&Json>,
    first: Option<String>,
    name: &str,
    parts: (String, Option<String>),
)
    requires
        call_ensures(ModelCheckService::first_model, (value,), first),
        call_ensures(ModelCheckService::parse_model_with_effort, (name,), parts),
    ensures
        chars(first) == named_model(tree_in(value)),
        parts.0@ == effort_split(name@).0,
        chars(parts.1) == effort_split(name@).1,
{
}

/// The addresses of requests.
pub proof fn law_call_addresses(
    base_url: &str,
    strategy: AuthStrategy,
    format: &str,
    full: bool,
    gemini_url: &str,
    url: String,
    endpoint: &str,
    primary: &str,
    urls: Vec<String>,
    parts: (String, String),
    model: &str,
    path: String,
)
    requires
        call_ensures(
            ModelCheckService::resolve_claude_url,
            (base_url, strategy, format, full, gemini_url),
            url,
        ),
        call_ensures(
            ModelCheckService::resolve_codex_urls,
            (base_url, full, endpoint, primary),
            urls,
        ),
        call_ensures(ModelCheckService::codex_url_parts, (base_url, endpoint), parts),
        call_ensures(ModelCheckService::gemini_endpoint, (model,), path),
    ensures
        url@ == claude_url(base_url@, strategy, format@, full, gemini_url@),
        urls@.map_values(|text: String| text@) == codex_urls(
            base_url@,
            full,
            endpoint@,
            primary@,
        ),
        parts.0@ == without_trailing(base_url@, '/'),
        parts.1@ == without_leading(endpoint@, '/'),
        path@ == gemini_path(model@),
{
    assert(urls@.map_values(|text: String| text@) =~= codex_urls(
        base_url@,
        full,
        endpoint@,
        primary@,
    ));
}

/// The plan of a check.
pub proof fn law_call_check<'a>(
    app_type: &AppType,
    provider: &'a Provider,
    requested: Option<String>,
    auth: Option<AuthInfo>,
    base_url: Option<String>,
    format: Option<String>,
    account: Option<String>,
    profile: &AnthropicProfile,
    r: Result<CheckPlan<'a>, AppError>,
)
    requires
        call_ensures(
            ModelCheckService::check,
            (app_type, provider, requested, auth, base_url, format, account, profile),
            r,
        ),
    ensures
        (match r {
            Ok(plan) => Ok(CheckPlanView { model: plan.model@, route: routed(plan.route) }),
            Err(error) => Err(worded(error)),
        }) == check_plan(
            *app_type,
            *provider,
            chars(requested),
            credential(auth),
            chars(base_url),
            chars(format),
            chars(account),
            *profile,
        ),
{
}

/// The routes of the applications that configure themselves.
pub proof fn law_call_configured_routes<'a>(
    app_type: &AppType,
    provider: &'a Provider,
    opencode: Result<Route<'a>, AppError>,
    hermes: Result<Route<'a>, AppError>,
    structured: Result<Route<'a>, AppError>,
)
    requires
        call_ensures(ModelCheckService::check_opencode, (provider,), opencode),
        call_ensures(ModelCheckService::check_hermes, (provider,), hermes),
        call_ensures(ModelCheckService::check_structured_provider, (app_type, provider), structured),
        *app_type is OpenClaw || *app_type is Pi,
    ensures
        routed(opencode) == opencode_route(provider.settings_config@),
        routed(hermes) == hermes_route(provider.settings_config@),
        *app_type is OpenClaw ==> routed(structured) == structured_route(
            "OpenClaw"@,
            provider.settings_config@,
        ),
        *app_type is Pi ==> routed(structured) == structured_route(
            "Pi"@,
            provider.settings_config@,
        ),
{
}

/// The route of a provider for Codex.
pub proof fn law_call_check_codex<'a>(
    provider: &'a Provider,
    auth: Option<AuthInfo>,
    base_url: Option<String>,
    account: Option<String>,
    r: Result<Route<'a>, AppError>,
)
    requires
        call_ensures(ModelCheckService::check_codex, (provider, auth, base_url, account), r),
    ensures
        routed(r) == codex_route(*provider, credential(auth), chars(base_url), chars(account)),
{
}

/// A setting that has to be there.
pub proof fn law_call_required_string(
    value: Option<&Json>,
    field: &str,
    r: Result<String, AppError>,
)
    requires
        call_ensures(ModelCheckService::required_string, (value, field), r),
    ensures
        said(tree_in(value)) matches Some(text) ==> (r matches Ok(s) && s@ == text),
        said(tree_in(value)) is None ==> (r matches Err(error) && worded(error)
            == AppErrorView::Message("缺少 "@ + field@)),
{
}

/// The bodies of requests.
pub proof fn law_call_bodies(
    model: &str,
    uses_chat: bool,
    messages: Json,
    codex: Json,
    gemini: Json,
    body: Json,
    effort: Option<&str>,
    supported: bool,
    reasoning: Json,
)
    requires
        call_ensures(ModelCheckService::claude_request_body, (model,), messages),
        call_ensures(ModelCheckService::codex_request_body, (model, uses_chat), codex),
        call_ensures(ModelCheckService::gemini_request_body, (), gemini),
        call_ensures(
            ModelCheckService::codex_reasoning_body,
            (body, uses_chat, effort, supported),
            reasoning,
        ),
    ensures
        messages@ == claude_body(model@),
        codex@ == codex_body(model@, uses_chat),
        gemini@ == gemini_body(),
        reasoning@ == reasoning_body(body@, uses_chat, chars_in(effort), supported),
        messages@.well_formed() && codex@.well_formed() && gemini@.well_formed(),
        body@.well_formed() ==> reasoning@.well_formed(),
{
}

/// The draft of a messages request, and whether it needs the Gemini address.
pub proof fn law_call_check_messages(
    base_url: &str,
    auth: &AuthInfo,
    model: &str,
    provider: &Provider,
    format: Option<&str>,
    gemini_url: &str,
    needed: bool,
    r: Result<ClaudeDraft, AppError>,
)
    requires
        call_ensures(
            ModelCheckService::check_claude,
            (base_url, auth, model, provider, format, gemini_url),
            r,
        ),
        call_ensures(ModelCheckService::needs_gemini_url, (provider, format), needed),
    ensures
        (match r {
            Ok(draft) => Ok(drafted(draft)),
            Err(error) => Err(worded(error)),
        }) == claude_draft(
            base_url@,
            AuthInfoView { api_key: auth.api_key@, strategy: auth.strategy },
            model@,
            *provider,
            chars_in(format),
            gemini_url@,
        ),
        needed <==> (match format {
            Some(asked) => asked@,
            None => provider.routing.claude_api_format@,
        }) == "gemini_native"@,
{
}

/// A messages draft, field by field.
pub open spec fn drafted(draft: ClaudeDraft) -> ClaudeDraftView {
    ClaudeDraftView {
        api_format: draft.api_format@,
        url: draft.url@,
        body: draft.body@,
        transform: match draft.transform {
            BodyTransform::Responses { prompt_cache_key } => BodyTransformView::Responses {
                prompt_cache_key: prompt_cache_key@,
            },
            BodyTransform::Chat => BodyTransformView::Chat,
            BodyTransform::Gemini => BodyTransformView::Gemini,
            BodyTransform::Keep => BodyTransformView::Keep,
        },
        header_source: draft.header_source,
    }
}

/// The messages request of a draft, under an identifier that is given.
pub proof fn law_call_messages_request_with_id(
    draft: ClaudeDraft,
    auth: &AuthInfo,
    model: &str,
    provider: &Provider,
    transformed: Result<Json, String>,
    adapter: Result<Vec<(String, String)>, String>,
    profile: &AnthropicProfile,
    copilot: &CopilotIdentity,
    request_id: &str,
    extra: Option<&Vec<(String, Json)>>,
    account: Option<&str>,
    r: Result<HttpRequest, AppError>,
)
    requires
        call_ensures(
            ModelCheckService::claude_request_with_id,
            (
                draft,
                auth,
                model,
                provider,
                transformed,
                adapter,
                profile,
                copilot,
                request_id,
                extra,
                account,
            ),
            r,
        ),
    ensures
        to_send(r) == claude_http(
            drafted(draft),
            AuthInfoView { api_key: auth.api_key@, strategy: auth.strategy },
            model@,
            *provider,
            body_in(transformed),
            made_by(adapter),
            *profile,
            *copilot,
            request_id@,
            members_in(extra),
            chars_in(account),
        ),
{
    match r {
        Ok(sent) => lemma_named(sent.headers@),
        Err(_) => {},
    }
    match adapter {
        Ok(headers) => lemma_named(headers@),
        Err(_) => {},
    }
}

/// The messages request of a draft is the one under some identifier, which is a random
/// UUID where GitHub Copilot is asked.
pub proof fn law_call_messages_request(
    draft: ClaudeDraft,
    auth: &AuthInfo,
    model: &str,
    provider: &Provider,
    transformed: Result<Json, String>,
    adapter: Result<Vec<(String, String)>, String>,
    profile: &AnthropicProfile,
    copilot: &CopilotIdentity,
    extra: Option<&Vec<(String, Json)>>,
    account: Option<&str>,
    r: Result<HttpRequest, AppError>,
)
    requires
        call_ensures(
            ModelCheckService::claude_request,
            (
                draft,
                auth,
                model,
                provider,
                transformed,
                adapter,
                profile,
                copilot,
                extra,
                account,
            ),
            r,
        ),
    ensures
        exists|request_id: Seq<char>|
            (auth.strategy is GitHubCopilot ==> is_random_uuid(request_id)) && to_send(r)
                == #[trigger] claude_http(
                drafted(draft),
                AuthInfoView { api_key: auth.api_key@, strategy: auth.strategy },
                model@,
                *provider,
                body_in(transformed),
                made_by(adapter),
                *profile,
                *copilot,
                request_id,
                members_in(extra),
                chars_in(account),
            ),
{
    match r {
        Ok(sent) => lemma_named(sent.headers@),
        Err(_) => {},
    }
    match adapter {
        Ok(headers) => lemma_named(headers@),
        Err(_) => {},
    }
}

/// A random UUID has five groups of lower case hexadecimal digits, version 4 and the
/// variant of the standard.
pub proof fn law_random_uuid(id: Seq<char>, i: int)
    requires
        is_random_uuid(id),
        0 <= i < id.len(),
    ensures
        id.len() == 36,
        id[i] == '-' <==> i == 8 || i == 13 || i == 18 || i == 23,
        id[i] != '-' ==> 48 <= id[i] as int <= 57 || 97 <= id[i] as int <= 102,
        id[14] == '4',
        id[19] == '8' || id[19] == '9' || id[19] == 'a' || id[19] == 'b',
{
    assert(is_uuid_char(14, id[14]));
    assert(is_uuid_char(19, id[19]));
    assert(is_uuid_char(i, id[i]));
}

/// The draft of a Codex request, its endpoint, and its request to one address.
pub proof fn law_call_codex(
    provider: &Provider,
    base_url: &str,
    model: &str,
    primary: &str,
    draft: CodexDraft,
    endpoint: &'static str,
    url: &str,
    body: Json,
    auth: &AuthInfo,
    adapter: Result<Vec<(String, String)>, String>,
    account: Option<&str>,
    r: Result<HttpRequest, AppError>,
)
    requires
        call_ensures(ModelCheckService::codex_draft, (provider, base_url, model, primary), draft),
        call_ensures(ModelCheckService::codex_endpoint, (provider,), endpoint),
        call_ensures(
            ModelCheckService::codex_request,
            (url, body, model, provider, auth, adapter, account),
            r,
        ),
    ensures
        ({
            let expected = codex_draft_of(*provider, base_url@, model@, primary@);
            &&& draft.urls@.map_values(|text: String| text@) == expected.urls
            &&& draft.body@ == expected.body
            &&& draft.actual_model@ == expected.actual_model
            &&& chars(draft.reasoning_effort) == expected.reasoning_effort
        }),
        provider.routing.codex_uses_chat_completions ==> endpoint@ == "/chat/completions"@,
        !provider.routing.codex_uses_chat_completions ==> endpoint@ == "/responses"@,
        to_send(r) == codex_http(
            url@,
            body@,
            model@,
            *provider,
            auth.strategy,
            made_by(adapter),
            chars_in(account),
        ),
{
    let expected = codex_draft_of(*provider, base_url@, model@, primary@);
    assert(draft.urls@.map_values(|text: String| text@) =~= expected.urls);
    match r {
        Ok(sent) => lemma_named(sent.headers@),
        Err(_) => {},
    }
    match adapter {
        Ok(headers) => lemma_named(headers@),
        Err(_) => {},
    }
}

/// What follows an answer to a Codex request, and how it ends without an address.
pub proof fn law_call_codex_step(
    index: usize,
    url_count: usize,
    outcome: Outcome,
    step: CodexStep,
    exhausted: Outcome,
)
    requires
        call_ensures(ModelCheckService::codex_step, (index, url_count, outcome), step),
        call_ensures(ModelCheckService::codex_exhausted, (), exhausted),
    ensures
        step is TryNext <==> index == 0 && url_count > 1 && (outcome matches Err(
            AppError::HttpStatus { status, .. },
        ) && status == 404),
        step matches CodexStep::Done(end) ==> end == outcome,
        told(exhausted) == Err::<(u16, Seq<char>), _>(
            AppErrorView::Message("没有可用的 Codex 请求端点"@),
        ),
{
}

/// A native Gemini request.
pub proof fn law_call_check_gemini(
    url: &str,
    model: &str,
    provider: &Provider,
    adapter: Result<Vec<(String, String)>, String>,
    extra: Option<&Vec<(String, Json)>>,
    r: Result<HttpRequest, AppError>,
)
    requires
        call_ensures(ModelCheckService::check_gemini, (url, model, provider, adapter, extra), r),
    ensures
        to_send(r) == gemini_http(url@, model@, *provider, made_by(adapter), members_in(extra)),
{
    match r {
        Ok(sent) => lemma_named(sent.headers@),
        Err(_) => {},
    }
    match adapter {
        Ok(headers) => lemma_named(headers@),
        Err(_) => {},
    }
}

/// The headers of a configuration are appended; the user agent is that of the settings.
pub proof fn law_call_headers(
    headers: &mut Vec<(String, String)>,
    extra: &Vec<(String, Json)>,
    provider: &Provider,
    agent: Option<&str>,
)
    requires
        call_ensures(ModelCheckService::apply_extra_headers, (headers, extra), ()),
        call_ensures(ModelCheckService::custom_user_agent, (provider,), agent),
    ensures
        named(final(headers)@) == named(old(headers)@) + string_members(entries_tree(extra@)),
        chars_in(agent) == user_agent(*provider),
{
    lemma_named(old(headers)@);
    lemma_named(final(headers)@);
}

/// What a line says, with the value that its payload is or without it, and the payload.
pub proof fn law_call_lines(
    line: &str,
    protocol: CheckProtocol,
    parsed: Option<&Json>,
    payload: Option<&str>,
    verdict: Option<Result<(), AppError>>,
    verdict_with: Option<Result<(), AppError>>,
)
    requires
        call_ensures(ModelCheckService::line_payload, (line,), payload),
        call_ensures(ModelCheckService::validate_response_line, (line, protocol), verdict),
        call_ensures(
            ModelCheckService::validate_response_line_with,
            (line, parsed, protocol),
            verdict_with,
        ),
    ensures
        payload matches Some(text) ==> carries(line@, text@),
        payload is None ==> forall|text: Seq<char>| !carries(line@, text),
        found(verdict) == line_verdict(line@),
        found(verdict_with) == line_verdict_with(line@, tree_in(parsed)),
{
    assert forall|text: Seq<char>| payload is None implies !carries(line@, text) by {
        law_payload_of_a_line(line@, text);
    }
    if payload is Some {
        law_payload_of_a_line(line@, payload->0@);
    }
}

/// Whether a payload is an error.
pub proof fn law_call_error_payloads(
    text: &str,
    protocol: CheckProtocol,
    parsed: Option<&Json>,
    error: bool,
    error_with: bool,
)
    requires
        call_ensures(ModelCheckService::looks_like_error_payload, (text, protocol), error),
        call_ensures(
            ModelCheckService::looks_like_error_payload_with,
            (text, parsed, protocol),
            error_with,
        ),
    ensures
        error == is_error_payload(text@, json_text(text@)),
        error_with == is_error_payload(text@, tree_in(parsed)),
{
}

/// A reader starts with nothing pending; text and chunks are fed to it; its end is that of
/// what is pending.
pub proof fn law_call_reader(
    status: u16,
    model: &str,
    protocol: CheckProtocol,
    new: ResponseReader,
    reader: ResponseReader,
    outcome: Outcome,
    error: &str,
    broken: Outcome,
)
    requires
        call_ensures(ResponseReader::new, (status, model, protocol), new),
        call_ensures(ResponseReader::finish, (reader,), outcome),
        call_ensures(ResponseReader::broken, (error,), broken),
    ensures
        new@ == (ReaderView { status, model: model@, protocol, pending: seq![] }),
        told(outcome) == closed_outcome(reader@.pending, reader@.status, reader@.model),
        told(broken) == Err::<(u16, Seq<char>), _>(
            AppErrorView::Message("读取模型响应失败: "@ + error@),
        ),
{
}

/// Text that is read is fed to the reader.
pub proof fn law_call_read_text(reader: &mut ResponseReader, text: &str, r: Option<Outcome>)
    requires
        call_ensures(ResponseReader::read_text, (reader, text), r),
    ensures
        final(reader)@ == fed(old(reader)@, text@).1,
        r is None <==> fed(old(reader)@, text@).0 is None,
        r matches Some(outcome) ==> fed(old(reader)@, text@).0 == Some(told(outcome)),
{
}

/// A chunk that is read is fed to the reader as its text, unless it is empty.
pub proof fn law_call_read_chunk(reader: &mut ResponseReader, chunk: &[u8], r: Option<Outcome>)
    requires
        call_ensures(ResponseReader::read_chunk, (reader, chunk), r),
    ensures
        chunk@.len() == 0 ==> r is None && final(reader)@ == old(reader)@,
        chunk@.len() > 0 ==> {
            let (outcome, after) = fed(old(reader)@, chunk_text(chunk@));
            &&& final(reader)@ == after
            &&& r is None <==> outcome is None
            &&& r matches Some(end) ==> outcome == Some(told(end))
        },
{
}

/// The state of an exchange, part by part.
pub open spec fn state_of(state: Exchange) -> ExchangeView {
    match state {
        Exchange::Waiting { model, protocol } => ExchangeView::Waiting { model: model@, protocol },
        Exchange::Refused { status } => ExchangeView::Refused { status },
        Exchange::Reading(reader) => ExchangeView::Reading(reader@),
        Exchange::Ended(outcome) => ExchangeView::Ended(told(outcome)),
    }
}

/// An event of an exchange, part by part.
pub open spec fn event_of(event: ExchangeEvent) -> EventView {
    match event {
        ExchangeEvent::SendFailed(error) => EventView::SendFailed {
            timeout: error.timeout,
            connect: error.connect,
            text: error.text@,
        },
        ExchangeEvent::Status(status) => EventView::Status(status),
        ExchangeEvent::ErrorBody(body) => EventView::ErrorBody(chars(body)),
        ExchangeEvent::Chunk(bytes) => EventView::Chunk(bytes@),
        ExchangeEvent::ChunkFailed(text) => EventView::ChunkFailed(text@),
        ExchangeEvent::Closed => EventView::Closed,
    }
}

/// A step of an exchange.
pub proof fn law_call_exchange(state: Exchange, event: ExchangeEvent, r: Exchange)
    requires
        call_ensures(ModelCheckService::send_json_and_validate, (state, event), r),
    ensures
        state_of(r) == stepped(state_of(state), event_of(event)),
{
}

/// The result of a check, field by field. Only the time of the test is free where it is
/// not given.
pub proof fn law_call_results(
    outcome: Outcome,
    error_text: &str,
    elapsed: u64,
    fallback: &str,
    tested_at: i64,
    now: ModelCheckResult,
    then: ModelCheckResult,
)
    requires
        call_ensures(
            ModelCheckService::build_result,
            (outcome, error_text, elapsed, fallback),
            now,
        ),
        call_ensures(
            ModelCheckService::build_result_at,
            (outcome, error_text, elapsed, fallback, tested_at),
            then,
        ),
    ensures
        shows(now, told(outcome), error_text@, elapsed, fallback@, now.tested_at),
        shows(then, told(outcome), error_text@, elapsed, fallback@, tested_at),
{
}

/// A result shows an outcome in every field.
pub open spec fn shows(
    result: ModelCheckResult,
    outcome: OutcomeView,
    error_text: Seq<char>,
    elapsed: u64,
    fallback: Seq<char>,
    tested_at: i64,
) -> bool {
    let expected = result_view(outcome, error_text, elapsed, fallback, tested_at);
    &&& result.status == expected.status
    &&& result.success == expected.success
    &&& result.message@ == expected.message
    &&& result.response_time_ms == expected.response_time_ms
    &&& result.http_status == expected.http_status
    &&& result.model_used@ == expected.model_used
    &&& result.tested_at == expected.tested_at
    &&& chars(result.error_category) == expected.error_category
}

/// Categories and their texts.
pub proof fn law_call_categories(
    status: u16,
    body: &str,
    http: &'static str,
    text: &str,
    plain: &'static str,
    category: &str,
    shown: &'static str,
)
    requires
        call_ensures(ModelCheckService::classify_http_error, (status, body), http),
        call_ensures(ModelCheckService::classify_message, (text,), plain),
        call_ensures(ModelCheckService::category_message, (category,), shown),
    ensures
        http@ == http_category(status, body@),
        plain@ == message_category(text@),
        shown@ == category_text(category@),
{
}

/// The errors of requests, and the statuses of success.
pub proof fn law_call_errors(
    status: u16,
    body: String,
    refused: AppError,
    error: RequestError,
    failed: AppError,
    success: bool,
)
    requires
        call_ensures(ModelCheckService::http_status_error, (status, body), refused),
        call_ensures(ModelCheckService::map_request_error, (error,), failed),
        call_ensures(ModelCheckService::is_success, (status,), success),
    ensures
        worded(refused) == (AppErrorView::HttpStatus { status, body: kept_body(body@) }),
        worded(failed) == request_failure(error.timeout, error.connect, error.text@),
        success <==> 200 <= status <= 299,
{
}

/// The parts of a JSON value, a member that is put in, and what is read from a text or a
/// value.
pub proof fn law_call_json(
    json: Json,
    key: &str,
    value: Json,
    with: Json,
    text: &str,
    parsed: Option<Json>,
    outside: &serde_json::Value,
    inside: Json,
)
    requires
        json@ is Object,
        call_ensures(Json::with, (json, key, value), with),
        call_ensures(parse_json, (text,), parsed),
        call_ensures(Json::from_value, (outside,), inside),
    ensures
        with@.get(key@) == Some(value@),
        forall|other: Seq<char>| other != key@ ==> #[trigger] with@.get(other) == json@.get(other),
        parsed is Some <==> json_text(text@) is Some,
        parsed matches Some(read) ==> json_text(text@) == Some(read@) && read@.well_formed(),
        inside@ == value_tree(*outside),
        inside@.well_formed(),
{
    let entries = json@->Object_0;
    law_inserted_is_found(entries, key@, value@, seq![]);
    assert forall|other: Seq<char>| other != key@ implies #[trigger] with@.get(other) == json@.get(
        other,
    ) by {
        law_inserted_is_found(entries, key@, value@, other);
    }
}

/// Reading the parts of a JSON value.
pub proof fn law_call_json_parts(
    json: &Json,
    key: &str,
    member: Option<&Json>,
    text: Option<&str>,
    truth: Option<bool>,
    null: bool,
    members: Option<&Vec<(String, Json)>>,
)
    requires
        call_ensures(Json::get, (json, key), member),
        call_ensures(Json::as_str, (json,), text),
        call_ensures(Json::as_bool, (json,), truth),
        call_ensures(Json::is_null, (json,), null),
        call_ensures(Json::as_object, (json,), members),
    ensures
        tree_in(member) == json@.get(key@),
        text matches Some(s) ==> json@ == JsonTree::String(s@),
        text is None ==> !(json@ is String),
        truth matches Some(b) ==> json@ == JsonTree::Bool(b),
        truth is None ==> !(json@ is Bool),
        null <==> json@ is Null,
        members matches Some(entries) ==> json@ == JsonTree::Object(entries_tree(entries@)),
        members is None ==> !(json@ is Object),
{
}

} // verus!
