//! Codex requests, and the second address that follows a first one which is not
//! there.
use vstd::prelude::*;

use crate::bodies::codex_body;
use crate::http::{
    adapter_of, new_stream_headers, optional_header, pairs_of, push_header, push_headers,
    push_optional, request_of, stream_headers, user_agent, HeaderView, HttpRequest,
    HttpRequestView,
};
use crate::json::{Json, JsonTree};
use crate::models::effort_split;
use crate::types::{
    message, outcome_of, text_of, text_of_str, AppError, AppErrorView, AuthInfo, AuthStrategy,
    CheckProtocol, ModelCheckService, Outcome, OutcomeView, Provider,
};
use crate::urls::{codex_urls, texts_of};

verus! {

pub const CODEX_USER_AGENT: &'static str = "codex_cli_rs/0.80.0 (Windows 10; x86_64) Terminal";

pub const CODEX_OAUTH_ORIGINATOR: &'static str = "codex_cli_rs";

pub const CODEX_OAUTH_CLIENT_VERSION: &'static str = "0.144.1";

/// The endpoint of a Codex request.
pub open spec fn codex_path(uses_chat: bool) -> Seq<char> {
    if uses_chat {
        "/chat/completions"@
    } else {
        "/responses"@
    }
}

/// A Codex request whose body still lacks the upstream model and the effort.
#[derive(Debug)]
pub struct CodexDraft {
    /// The addresses to try, in this order.
    pub urls: Vec<String>,
    pub body: Json,
    /// The model without its marker of a reasoning effort.
    pub actual_model: String,
    pub reasoning_effort: Option<String>,
}

/// What a [`CodexDraft`] stands for.
pub struct CodexDraftView {
    pub urls: Seq<Seq<char>>,
    pub body: JsonTree,
    pub actual_model: Seq<char>,
    pub reasoning_effort: Option<Seq<char>>,
}

impl View for CodexDraft {
    type V = CodexDraftView;

    open spec fn view(&self) -> CodexDraftView {
        CodexDraftView {
            urls: texts_of(self.urls@),
            body: self.body@,
            actual_model: self.actual_model@,
            reasoning_effort: text_of(self.reasoning_effort),
        }
    }
}

/// The draft of a Codex request.
pub open spec fn codex_draft_of(
    provider: Provider,
    base_url: Seq<char>,
    model: Seq<char>,
    primary: Seq<char>,
) -> CodexDraftView {
    let uses_chat = provider.routing.codex_uses_chat_completions;
    let (actual_model, reasoning_effort) = effort_split(model);
    CodexDraftView {
        urls: codex_urls(base_url, provider.full_url(), codex_path(uses_chat), primary),
        body: codex_body(actual_model, uses_chat),
        actual_model,
        reasoning_effort,
    }
}

/// The headers of a Codex request, given those that the adapter makes.
pub open spec fn codex_headers(
    provider: Provider,
    strategy: AuthStrategy,
    adapter: Seq<HeaderView>,
    managed_account_id: Option<Seq<char>>,
) -> Seq<HeaderView> {
    let agent = match user_agent(provider) {
        Some(value) => value,
        None => CODEX_USER_AGENT@,
    };
    let managed = if strategy is CodexOAuth {
        seq![
            ("originator"@, CODEX_OAUTH_ORIGINATOR@),
            ("version"@, CODEX_OAUTH_CLIENT_VERSION@),
        ] + optional_header("chatgpt-account-id"@, managed_account_id)
    } else {
        seq![]
    };
    stream_headers() + seq![("user-agent"@, agent), ("originator"@, "codex_cli_rs"@)] + adapter
        + managed
}

/// A Codex request to one address, given what the adapter made of the credential.
pub open spec fn codex_http(
    url: Seq<char>,
    body: JsonTree,
    actual_model: Seq<char>,
    provider: Provider,
    strategy: AuthStrategy,
    adapter: Result<Seq<HeaderView>, Seq<char>>,
    managed_account_id: Option<Seq<char>>,
) -> Result<HttpRequestView, AppErrorView> {
    match adapter {
        Err(text) => message(text),
        Ok(made) => Ok(
            HttpRequestView {
                url,
                headers: codex_headers(provider, strategy, made, managed_account_id),
                body,
                protocol: CheckProtocol::OpenAi,
                model: actual_model,
            },
        ),
    }
}

/// What follows the answer of an address.
#[derive(Debug)]
pub enum CodexStep {
    /// The next address is tried.
    TryNext,
    /// The check ends with this.
    Done(Outcome),
}

/// The upstream does not know the address.
pub open spec fn is_not_found(outcome: OutcomeView) -> bool {
    outcome matches Err(AppErrorView::HttpStatus { status, .. }) && status == 404
}

/// The answer of the address at `index` sends the check to the next one.
pub open spec fn falls_back(index: int, url_count: int, outcome: OutcomeView) -> bool {
    is_not_found(outcome) && index == 0 && url_count > 1
}

/// The error of a request without an address.
pub open spec fn no_endpoint() -> OutcomeView {
    message("没有可用的 Codex 请求端点"@)
}

/// How a check ends whose addresses, from `index` on, answer with `outcomes`.
pub open spec fn codex_outcome(outcomes: Seq<OutcomeView>, index: int) -> OutcomeView
    decreases outcomes.len() - index,
{
    if index < 0 || index >= outcomes.len() {
        no_endpoint()
    } else if falls_back(index, outcomes.len() as int, outcomes[index]) {
        codex_outcome(outcomes, index + 1)
    } else {
        outcomes[index]
    }
}

impl ModelCheckService {
    /// The endpoint of a Codex request.
    pub fn codex_endpoint(provider: &Provider) -> (r: &'static str)
        ensures
            r@ == codex_path(provider.routing.codex_uses_chat_completions),
    {
        if provider.routing.codex_uses_chat_completions {
            "/chat/completions"
        } else {
            "/responses"
        }
    }

    /// The draft of a Codex request. `primary` is the address that the Codex adapter
    /// builds (see [`ModelCheckService::codex_url_parts`]).
    pub fn codex_draft(provider: &Provider, base_url: &str, model: &str, primary: &str) -> (r:
        CodexDraft)
        ensures
            r@ == codex_draft_of(*provider, base_url@, model@, primary@),
    {
        let uses_chat = provider.routing.codex_uses_chat_completions;
        let urls = Self::resolve_codex_urls(
            base_url,
            provider.is_full_url(),
            Self::codex_endpoint(provider),
            primary,
        );
        let (actual_model, reasoning_effort) = Self::parse_model_with_effort(model);
        let body = Self::codex_request_body(actual_model.as_str(), uses_chat);
        CodexDraft { urls, body, actual_model, reasoning_effort }
    }

    /// The Codex request to one address. `adapter` holds the headers that the Codex
    /// adapter makes of the credential, or the text of its error.
    pub fn codex_request(
        url: &str,
        body: Json,
        actual_model: &str,
        provider: &Provider,
        auth: &AuthInfo,
        adapter: Result<Vec<(String, String)>, String>,
        managed_account_id: Option<&str>,
    ) -> (r: Result<HttpRequest, AppError>)
        ensures
            request_of(r) == codex_http(
                url@,
                body@,
                actual_model@,
                *provider,
                auth.strategy,
                adapter_of(adapter),
                text_of_str(managed_account_id),
            ),
    {
        let made = match adapter {
            Ok(made) => made,
            Err(error) => {
                return Err(AppError::Message(error));
            },
        };
        let agent = match Self::custom_user_agent(provider) {
            Some(agent) => agent,
            None => CODEX_USER_AGENT,
        };
        let mut headers = new_stream_headers();
        push_header(&mut headers, "user-agent", agent);
        push_header(&mut headers, "originator", "codex_cli_rs");
        assert(pairs_of(headers@) =~= stream_headers() + seq![
            ("user-agent"@, agent@),
            ("originator"@, "codex_cli_rs"@),
        ]);
        push_headers(&mut headers, &made);
        let ghost sent = pairs_of(headers@);
        if auth.strategy == AuthStrategy::CodexOAuth {
            push_header(&mut headers, "originator", CODEX_OAUTH_ORIGINATOR);
            push_header(&mut headers, "version", CODEX_OAUTH_CLIENT_VERSION);
            push_optional(&mut headers, "chatgpt-account-id", managed_account_id);
            assert(pairs_of(headers@) =~= sent + (seq![
                ("originator"@, CODEX_OAUTH_ORIGINATOR@),
                ("version"@, CODEX_OAUTH_CLIENT_VERSION@),
            ] + optional_header("chatgpt-account-id"@, text_of_str(managed_account_id))));
        } else {
            assert(pairs_of(headers@) =~= sent + Seq::<HeaderView>::empty());
        }
        Ok(
            HttpRequest {
                url: url.to_string(),
                headers,
                body,
                protocol: CheckProtocol::OpenAi,
                model: actual_model.to_string(),
            },
        )
    }

    /// What follows the answer of the address at `index`: the next address, where
    /// the first of several is not there; the end of the check otherwise.
    pub fn codex_step(index: usize, url_count: usize, outcome: Outcome) -> (r: CodexStep)
        ensures
            match r {
                CodexStep::TryNext => falls_back(
                    index as int,
                    url_count as int,
                    outcome_of(outcome),
                ),
                CodexStep::Done(end) => end == outcome && !falls_back(
                    index as int,
                    url_count as int,
                    outcome_of(outcome),
                ),
            },
    {
        let not_found = match &outcome {
            Err(AppError::HttpStatus { status, .. }) => *status == 404,
            _ => false,
        };
        if not_found && index == 0 && url_count > 1 {
            CodexStep::TryNext
        } else {
            CodexStep::Done(outcome)
        }
    }

    /// How a check ends that has run out of addresses.
    pub fn codex_exhausted() -> (r: Outcome)
        ensures
            outcome_of(r) == no_endpoint(),
    {
        Err(AppError::message("没有可用的 Codex 请求端点"))
    }
}

} // verus!
