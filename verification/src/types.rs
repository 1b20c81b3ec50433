//! The vocabulary of the checks: applications, providers, credentials, errors
//! and results.
use vstd::prelude::*;

use crate::json::Json;

verus! {

/// The application that a provider is configured for.
#[derive(Clone, Copy, Debug, PartialEq, Eq, Structural)]
pub enum AppType {
    Claude,
    ClaudeDesktop,
    Codex,
    GrokBuild,
    Gemini,
    OpenCode,
    OpenClaw,
    Hermes,
    Pi,
}

/// How a credential is presented to the upstream.
#[derive(Clone, Copy, Debug, PartialEq, Eq, Structural)]
pub enum AuthStrategy {
    Bearer,
    ClaudeAuth,
    Google,
    GitHubCopilot,
    CodexOAuth,
    XaiOAuth,
    /// Any further strategy, under the number that the application knows it by. The checks
    /// treat them all alike.
    Other(u32),
}

/// The dialect in which an upstream answers.
#[derive(Clone, Copy, Debug, PartialEq, Eq, Structural)]
pub enum CheckProtocol {
    Anthropic,
    OpenAi,
    Gemini,
}

/// The state of health that a check reports.
#[derive(Clone, Copy, Debug, PartialEq, Eq, Structural)]
pub enum HealthStatus {
    Operational,
    Degraded,
    Failed,
}

/// A credential.
#[derive(Debug)]
pub struct AuthInfo {
    pub api_key: String,
    pub strategy: AuthStrategy,
}

/// What an [`AuthInfo`] stands for.
pub struct AuthInfoView {
    pub api_key: Seq<char>,
    pub strategy: AuthStrategy,
}

impl View for AuthInfo {
    type V = AuthInfoView;

    open spec fn view(&self) -> AuthInfoView {
        AuthInfoView { api_key: self.api_key@, strategy: self.strategy }
    }
}

impl AuthInfo {
    /// A credential made of a key and the way to present it.
    pub fn new(api_key: String, strategy: AuthStrategy) -> (r: AuthInfo)
        ensures
            r@ == (AuthInfoView { api_key: api_key@, strategy }),
    {
        AuthInfo { api_key, strategy }
    }
}

/// Why a check failed.
#[derive(Debug)]
pub enum AppError {
    /// A text for the user.
    Message(String),
    /// A text for the user in Chinese and in English, under a stable key.
    Localized { key: String, zh: String, en: String },
    /// The upstream answered with a status other than success.
    HttpStatus { status: u16, body: String },
}

/// What an [`AppError`] stands for.
pub enum AppErrorView {
    Message(Seq<char>),
    Localized { key: Seq<char>, zh: Seq<char>, en: Seq<char> },
    HttpStatus { status: u16, body: Seq<char> },
}

impl View for AppError {
    type V = AppErrorView;

    open spec fn view(&self) -> AppErrorView {
        match *self {
            AppError::Message(text) => AppErrorView::Message(text@),
            AppError::Localized { key, zh, en } => AppErrorView::Localized {
                key: key@,
                zh: zh@,
                en: en@,
            },
            AppError::HttpStatus { status, body } => AppErrorView::HttpStatus {
                status,
                body: body@,
            },
        }
    }
}

impl AppError {
    /// A text for the user.
    pub fn message(text: &str) -> (r: AppError)
        ensures
            r@ == AppErrorView::Message(text@),
    {
        AppError::Message(text.to_string())
    }

    /// A text for the user in two languages.
    pub fn localized(key: &str, zh: &str, en: &str) -> (r: AppError)
        ensures
            r@ == (AppErrorView::Localized { key: key@, zh: zh@, en: en@ }),
    {
        AppError::Localized { key: key.to_string(), zh: zh.to_string(), en: en.to_string() }
    }
}

/// A message as an error.
pub open spec fn message<T>(text: Seq<char>) -> Result<T, AppErrorView> {
    Err(AppErrorView::Message(text))
}

/// How a request ended: with the status and the model of a valid answer, or not.
pub type Outcome = Result<(u16, String), AppError>;

/// What an [`Outcome`] stands for.
pub type OutcomeView = Result<(u16, Seq<char>), AppErrorView>;

/// What an outcome stands for.
pub open spec fn outcome_of(outcome: Outcome) -> OutcomeView {
    match outcome {
        Ok((status, model)) => Ok((status, model@)),
        Err(error) => Err(error@),
    }
}

/// One of the models that the desktop application routes to a provider.
#[derive(Debug)]
pub struct ModelRoute {
    pub model: String,
}

/// Settings of a provider that are not part of the application's own file.
pub struct ProviderMeta {
    /// The model routes, in the order in which their map is walked.
    pub claude_desktop_model_routes: Vec<ModelRoute>,
    /// The base address is complete: no path is to be appended.
    pub is_full_url: Option<bool>,
    pub prompt_cache_key: Option<String>,
    /// The header value that the user agent setting makes, `Ok(None)` where there is
    /// no such setting, or why it makes none.
    pub custom_user_agent_header: Result<Option<String>, String>,
}

/// What the application's router reads off a provider.
pub struct ProviderRouting {
    /// The base address, where the adapter of the application finds one.
    pub base_url: Option<String>,
    /// The credential, where the adapter of the application finds one.
    pub auth: Option<AuthInfo>,
    /// The wire format of a provider that takes messages requests.
    pub claude_api_format: String,
    /// The upstream model of a provider for Codex.
    pub codex_upstream_model: Option<String>,
    /// A provider for Codex that speaks Chat Completions.
    pub codex_uses_chat_completions: bool,
    /// A provider for Codex whose upstream takes Anthropic messages.
    pub codex_converts_to_anthropic: bool,
}

/// A provider as it is saved.
pub struct Provider {
    pub id: String,
    pub name: String,
    pub settings_config: Json,
    pub website_url: Option<String>,
    pub meta: Option<ProviderMeta>,
    pub routing: ProviderRouting,
}

/// An absent text, or its characters.
pub open spec fn text_of(value: Option<String>) -> Option<Seq<char>> {
    match value {
        Some(s) => Some(s@),
        None => None,
    }
}

/// An absent text, or its characters.
pub open spec fn text_of_str(value: Option<&str>) -> Option<Seq<char>> {
    match value {
        Some(s) => Some(s@),
        None => None,
    }
}

/// An absent credential, or what it stands for.
pub open spec fn auth_of(value: Option<AuthInfo>) -> Option<AuthInfoView> {
    match value {
        Some(auth) => Some(auth@),
        None => None,
    }
}

/// The first of two that is there.
pub open spec fn either<T>(first: Option<T>, second: Option<T>) -> Option<T> {
    match first {
        Some(value) => Some(value),
        None => second,
    }
}

impl Provider {
    /// A provider without meta settings, of which the router has read nothing.
    pub fn with_id(
        id: String,
        name: String,
        settings_config: Json,
        website_url: Option<String>,
    ) -> (r: Provider)
        ensures
            r.id == id,
            r.name == name,
            r.settings_config == settings_config,
            r.website_url == website_url,
            r.meta is None,
            r.routing.base_url is None,
            r.routing.auth is None,
            r.routing.claude_api_format@ == "anthropic"@,
            r.routing.codex_upstream_model is None,
            !r.routing.codex_uses_chat_completions,
            !r.routing.codex_converts_to_anthropic,
    {
        Provider {
            id,
            name,
            settings_config,
            website_url,
            meta: None,
            routing: ProviderRouting {
                base_url: None,
                auth: None,
                claude_api_format: "anthropic".to_string(),
                codex_upstream_model: None,
                codex_uses_chat_completions: false,
                codex_converts_to_anthropic: false,
            },
        }
    }

    /// The base address is complete as it stands.
    pub open spec fn full_url(self) -> bool {
        match self.meta {
            Some(meta) => meta.is_full_url == Some(true),
            None => false,
        }
    }

    /// Whether the base address is complete as it stands.
    pub fn is_full_url(&self) -> (r: bool)
        ensures
            r == self.full_url(),
    {
        match &self.meta {
            Some(meta) => match meta.is_full_url {
                Some(full) => full,
                None => false,
            },
            None => false,
        }
    }
}

/// How the application acts towards Anthropic's interface.
pub struct AnthropicProfile {
    /// The model of a provider that names none.
    pub default_model: String,
    /// The beta features that a request asks for.
    pub beta_features: String,
    /// The user agent that a request claims.
    pub user_agent: String,
}

/// The outcome of a check, as it is shown.
#[derive(Clone, Debug)]
pub struct ModelCheckResult {
    pub status: HealthStatus,
    pub success: bool,
    pub message: String,
    pub response_time_ms: Option<u64>,
    pub http_status: Option<u16>,
    pub model_used: String,
    pub tested_at: i64,
    pub error_category: Option<String>,
}

/// What a [`ModelCheckResult`] stands for.
pub struct ModelCheckResultView {
    pub status: HealthStatus,
    pub success: bool,
    pub message: Seq<char>,
    pub response_time_ms: Option<u64>,
    pub http_status: Option<u16>,
    pub model_used: Seq<char>,
    pub tested_at: i64,
    pub error_category: Option<Seq<char>>,
}

impl View for ModelCheckResult {
    type V = ModelCheckResultView;

    open spec fn view(&self) -> ModelCheckResultView {
        ModelCheckResultView {
            status: self.status,
            success: self.success,
            message: self.message@,
            response_time_ms: self.response_time_ms,
            http_status: self.http_status,
            model_used: self.model_used@,
            tested_at: self.tested_at,
            error_category: text_of(self.error_category),
        }
    }
}

/// Whether the credentials, protocol and model that a provider is saved with
/// complete one minimal request.
pub struct ModelCheckService;

} // verus!
