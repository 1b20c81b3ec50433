//! What a check reports: its result, and the category of what went wrong.
use vstd::prelude::*;

use crate::text::{self, decimal, lowered, occurs, trimmed};
use crate::types::{
    message, outcome_of, AppError, AppErrorView, HealthStatus, ModelCheckResult,
    ModelCheckResultView, ModelCheckService, Outcome, OutcomeView,
};

verus! {

/// The time a check may take, in seconds.
pub const MODEL_CHECK_TIMEOUT_SECS: u64 = 45;

/// An answer that takes longer than this is a sign of degraded service.
pub const MODEL_CHECK_DEGRADED_THRESHOLD_MS: u64 = 6_000;

/// How much of an error's body is kept.
pub const ERROR_BODY_MAX_CHARS: usize = 600;

/// An error's body speaks of a quota or of billing.
pub open spec fn speaks_of_quota(lower: Seq<char>) -> bool {
    ||| occurs(lower, "quota_exceeded"@)
    ||| occurs(lower, "quota exceeded"@)
    ||| occurs(lower, "billing"@)
    ||| occurs(lower, "payment required"@)
    ||| occurs(lower, "coding_plan_hour_quota_exceeded"@)
    ||| occurs(lower, "coding_plan_week_quota_exceeded"@)
    ||| occurs(lower, "coding_plan_month_quota_exceeded"@)
}

/// An error's body says that the model is not there.
pub open spec fn speaks_of_missing_model(lower: Seq<char>) -> bool {
    &&& occurs(lower, "model"@)
    &&& {
        ||| occurs(lower, "model_not_found"@)
        ||| occurs(lower, "model not found"@)
        ||| occurs(lower, "does not exist"@)
        ||| occurs(lower, "invalid model"@)
        ||| occurs(lower, "unknown model"@)
        ||| occurs(lower, "not_found_error"@)
        ||| occurs(lower, "is not a valid model"@)
    }
}

/// The category of an HTTP error.
pub open spec fn http_category(status: u16, body: Seq<char>) -> Seq<char> {
    let lower = lowered(body);
    if speaks_of_quota(lower) || status == 402 {
        "quotaExceeded"@
    } else if status == 429 {
        "rateLimited"@
    } else if status == 401 || status == 403 || occurs(lower, "invalid api key"@) {
        "auth"@
    } else if (status == 400 || status == 404 || status == 422) && speaks_of_missing_model(lower) {
        "modelNotFound"@
    } else if status == 404 {
        "endpoint"@
    } else if status >= 500 {
        "upstream"@
    } else {
        "protocol"@
    }
}

/// The category of an error that is known by its text alone.
pub open spec fn message_category(text: Seq<char>) -> Seq<char> {
    let lower = lowered(text);
    if occurs(lower, "api key"@) || occurs(lower, "认证"@) || occurs(lower, "托管 oauth"@) || occurs(
        lower,
        "managed oauth"@,
    ) {
        "auth"@
    } else if occurs(lower, "timeout"@) || occurs(lower, "timed out"@) || occurs(
        lower,
        "connection"@,
    ) || occurs(lower, "dns"@) || occurs(lower, "tls"@) {
        "network"@
    } else if occurs(lower, "响应"@) || occurs(lower, "response"@) {
        "protocol"@
    } else {
        "configuration"@
    }
}

/// What the user is told of a category.
pub open spec fn category_text(category: Seq<char>) -> Seq<char> {
    if category == "auth"@ {
        "鉴权失败"@
    } else if category == "modelNotFound"@ {
        "模型不存在或无权访问"@
    } else if category == "endpoint"@ {
        "接口地址不存在"@
    } else if category == "quotaExceeded"@ {
        "额度或计费限制"@
    } else if category == "rateLimited"@ {
        "请求被限流"@
    } else if category == "upstream"@ {
        "上游服务错误"@
    } else if category == "network"@ {
        "网络请求失败"@
    } else if category == "configuration"@ {
        "Provider 配置不完整"@
    } else {
        "协议或请求格式错误"@
    }
}

/// An error's body as it is kept: without white space around it, and cut with an
/// ellipsis where it is too long.
pub open spec fn kept_body(body: Seq<char>) -> Seq<char> {
    let inner = trimmed(body);
    if inner.len() > ERROR_BODY_MAX_CHARS {
        inner.take(ERROR_BODY_MAX_CHARS as int) + "…"@
    } else {
        inner
    }
}

/// The result of a check that ended with `outcome`. `error_text` is how the
/// application words the error.
pub open spec fn result_view(
    outcome: OutcomeView,
    error_text: Seq<char>,
    response_time_ms: u64,
    fallback_model: Seq<char>,
    tested_at: i64,
) -> ModelCheckResultView {
    match outcome {
        Ok((status, model)) => ModelCheckResultView {
            status: if response_time_ms <= MODEL_CHECK_DEGRADED_THRESHOLD_MS {
                HealthStatus::Operational
            } else {
                HealthStatus::Degraded
            },
            success: true,
            message: "模型请求成功"@,
            response_time_ms: Some(response_time_ms),
            http_status: Some(status),
            model_used: model,
            tested_at,
            error_category: None,
        },
        Err(AppErrorView::HttpStatus { status, body }) => {
            let category = http_category(status, body);
            ModelCheckResultView {
                status: HealthStatus::Failed,
                success: false,
                message: category_text(category) + " (HTTP "@ + decimal(status as nat) + ")"@,
                response_time_ms: Some(response_time_ms),
                http_status: Some(status),
                model_used: fallback_model,
                tested_at,
                error_category: Some(category),
            }
        },
        Err(_) => ModelCheckResultView {
            status: HealthStatus::Failed,
            success: false,
            message: error_text,
            response_time_ms: Some(response_time_ms),
            http_status: None,
            model_used: fallback_model,
            tested_at,
            error_category: Some(message_category(error_text)),
        },
    }
}

/// Why a request got no answer.
pub struct RequestError {
    /// Time ran out.
    pub timeout: bool,
    /// No connection came about.
    pub connect: bool,
    /// How the error words itself.
    pub text: String,
}

/// The error that a failed request is reported as.
pub open spec fn request_failure(timeout: bool, connect: bool, text: Seq<char>) -> AppErrorView {
    if timeout {
        AppErrorView::Message("请求超时"@)
    } else if connect {
        AppErrorView::Message("连接失败: "@ + text)
    } else {
        AppErrorView::Message("请求失败: "@ + text)
    }
}

/// Calls `chrono::Utc::now` and its `timestamp`: the seconds since 1970 by the clock of
/// the machine. Nothing is promised of what the clock shows.
#[verifier::external_body]
fn unix_now() -> (r: i64) {
    chrono::Utc::now().timestamp()
}

impl ModelCheckService {
    /// Whether an HTTP status means success.
    pub fn is_success(status: u16) -> (r: bool)
        ensures
            r == (200 <= status < 300),
    {
        200 <= status && status < 300
    }

    /// The result of a check, tested at the current time (see
    /// [`ModelCheckService::build_result_at`]).
    pub fn build_result(
        result: Outcome,
        error_text: &str,
        response_time_ms: u64,
        fallback_model: &str,
    ) -> (r: ModelCheckResult)
        ensures
            r@ == result_view(
                outcome_of(result),
                error_text@,
                response_time_ms,
                fallback_model@,
                r.tested_at,
            ),
    {
        let tested_at: i64 = unix_now();
        Self::build_result_at(result, error_text, response_time_ms, fallback_model, tested_at)
    }

    /// The result of a check that took `response_time_ms` and was made at `tested_at`.
    /// `error_text` is how the application words the error of a failed check; it is
    /// shown, and tells the category, where there is no HTTP status.
    pub fn build_result_at(
        result: Outcome,
        error_text: &str,
        response_time_ms: u64,
        fallback_model: &str,
        tested_at: i64,
    ) -> (r: ModelCheckResult)
        ensures
            r@ == result_view(
                outcome_of(result),
                error_text@,
                response_time_ms,
                fallback_model@,
                tested_at,
            ),
    {
        match result {
            Ok((status, model)) => ModelCheckResult {
                status: if response_time_ms <= MODEL_CHECK_DEGRADED_THRESHOLD_MS {
                    HealthStatus::Operational
                } else {
                    HealthStatus::Degraded
                },
                success: true,
                message: "模型请求成功".to_string(),
                response_time_ms: Some(response_time_ms),
                http_status: Some(status),
                model_used: model,
                tested_at,
                error_category: None,
            },
            Err(error) => {
                let (http_status, message, category) = match &error {
                    AppError::HttpStatus { status, body } => {
                        let category = Self::classify_http_error(*status, body.as_str());
                        let digits = text::decimal_text(*status);
                        let mut message = text::join3(
                            Self::category_message(category),
                            " (HTTP ",
                            digits.as_str(),
                        );
                        message.append(")");
                        (Some(*status), message, category)
                    },
                    _ => (None, error_text.to_string(), Self::classify_message(error_text)),
                };
                ModelCheckResult {
                    status: HealthStatus::Failed,
                    success: false,
                    message,
                    response_time_ms: Some(response_time_ms),
                    http_status,
                    model_used: fallback_model.to_string(),
                    tested_at,
                    error_category: Some(category.to_string()),
                }
            },
        }
    }

    /// The category of an HTTP error.
    pub fn classify_http_error(status: u16, body: &str) -> (r: &'static str)
        ensures
            r@ == http_category(status, body@),
    {
        let lower = text::to_ascii_lowercase(body);
        if text::contains(&lower, "quota_exceeded") || text::contains(&lower, "quota exceeded")
            || text::contains(&lower, "billing") || text::contains(&lower, "payment required")
            || text::contains(&lower, "coding_plan_hour_quota_exceeded") || text::contains(
            &lower,
            "coding_plan_week_quota_exceeded",
        ) || text::contains(&lower, "coding_plan_month_quota_exceeded") || status == 402 {
            return "quotaExceeded";
        }
        if status == 429 {
            return "rateLimited";
        }
        if status == 401 || status == 403 || text::contains(&lower, "invalid api key") {
            return "auth";
        }
        if (status == 400 || status == 404 || status == 422) && text::contains(&lower, "model") && (
        text::contains(&lower, "model_not_found") || text::contains(&lower, "model not found")
            || text::contains(&lower, "does not exist") || text::contains(&lower, "invalid model")
            || text::contains(&lower, "unknown model") || text::contains(&lower, "not_found_error")
            || text::contains(&lower, "is not a valid model")) {
            return "modelNotFound";
        }
        if status == 404 {
            return "endpoint";
        }
        if status >= 500 {
            return "upstream";
        }
        "protocol"
    }

    /// The category of an error that is known by its text alone.
    pub fn classify_message(message: &str) -> (r: &'static str)
        ensures
            r@ == message_category(message@),
    {
        let lower = text::to_ascii_lowercase(message);
        if text::contains(&lower, "api key") || text::contains(&lower, "认证") || text::contains(
            &lower,
            "托管 oauth",
        ) || text::contains(&lower, "managed oauth") {
            "auth"
        } else if text::contains(&lower, "timeout") || text::contains(&lower, "timed out")
            || text::contains(&lower, "connection") || text::contains(&lower, "dns")
            || text::contains(&lower, "tls") {
            "network"
        } else if text::contains(&lower, "响应") || text::contains(&lower, "response") {
            "protocol"
        } else {
            "configuration"
        }
    }

    /// What the user is told of a category.
    pub fn category_message(category: &str) -> (r: &'static str)
        ensures
            r@ == category_text(category@),
    {
        if text::same(category, "auth") {
            "鉴权失败"
        } else if text::same(category, "modelNotFound") {
            "模型不存在或无权访问"
        } else if text::same(category, "endpoint") {
            "接口地址不存在"
        } else if text::same(category, "quotaExceeded") {
            "额度或计费限制"
        } else if text::same(category, "rateLimited") {
            "请求被限流"
        } else if text::same(category, "upstream") {
            "上游服务错误"
        } else if text::same(category, "network") {
            "网络请求失败"
        } else if text::same(category, "configuration") {
            "Provider 配置不完整"
        } else {
            "协议或请求格式错误"
        }
    }

    /// The error of an answer whose status is not one of success.
    pub fn http_status_error(status: u16, body: String) -> (r: AppError)
        ensures
            r@ == (AppErrorView::HttpStatus { status, body: kept_body(body@) }),
    {
        let inner = text::trim(body.as_str());
        let kept = if inner.unicode_len() > ERROR_BODY_MAX_CHARS {
            assert(inner@.subrange(0, ERROR_BODY_MAX_CHARS as int) == inner@.take(
                ERROR_BODY_MAX_CHARS as int,
            ));
            text::join2(inner.substring_char(0, ERROR_BODY_MAX_CHARS), "…")
        } else {
            inner.to_string()
        };
        AppError::HttpStatus { status, body: kept }
    }

    /// The error that a failed request is reported as.
    pub fn map_request_error(error: RequestError) -> (r: AppError)
        ensures
            r@ == request_failure(error.timeout, error.connect, error.text@),
    {
        if error.timeout {
            AppError::message("请求超时")
        } else if error.connect {
            AppError::Message(text::join2("连接失败: ", error.text.as_str()))
        } else {
            AppError::Message(text::join2("请求失败: ", error.text.as_str()))
        }
    }
}

} // verus!
