//! Laws of results and of the categories of errors.
use vstd::prelude::*;

use crate::laws::text::law_trimmed;
use crate::results::{
    category_text, http_category, kept_body, message_category, request_failure, result_view,
    speaks_of_quota, ERROR_BODY_MAX_CHARS, MODEL_CHECK_DEGRADED_THRESHOLD_MS,
    MODEL_CHECK_TIMEOUT_SECS,
};
use crate::text::{
    decimal, is_white_space, lowered, occurs, occurs_at, trimmed, trimmed_end, trimmed_start,
};
use crate::types::{AppErrorView, OutcomeView};

verus! {

/// A result is consistent: success, a status other than failed and the absence of a
/// category go together, and with an outcome that is no error; the time is always there.
pub proof fn law_result_is_consistent(
    outcome: OutcomeView,
    error_text: Seq<char>,
    response_time_ms: u64,
    fallback_model: Seq<char>,
    tested_at: i64,
)
    ensures
        ({
            let result = result_view(
                outcome,
                error_text,
                response_time_ms,
                fallback_model,
                tested_at,
            );
            &&& result.success <==> outcome is Ok
            &&& result.success <==> !(result.status is Failed)
            &&& result.success <==> result.error_category is None
            &&& result.status is Degraded <==> outcome is Ok && response_time_ms
                > MODEL_CHECK_DEGRADED_THRESHOLD_MS
            &&& result.response_time_ms == Some(response_time_ms)
            &&& result.tested_at == tested_at
            &&& outcome is Err ==> result.model_used == fallback_model
            &&& result.http_status is None <==> (outcome matches Err(error) && !(error
                is HttpStatus))
        }),
{
}

/// The case of ASCII letters makes no difference to the category of an error: two texts
/// that differ in nothing else have the same one.
pub proof fn law_category_ignores_case(status: u16, text: Seq<char>, other: Seq<char>)
    requires
        lowered(text) == lowered(other),
    ensures
        http_category(status, text) == http_category(status, other),
        message_category(text) == message_category(other),
{
}

/// The text holds a phrase, in whatever case.
pub open spec fn holds(text: Seq<char>, phrase: Seq<char>) -> bool {
    occurs(lowered(text), phrase)
}

/// The text holds one of the phrases for a quota that is used up.
pub open spec fn holds_quota_phrase(text: Seq<char>) -> bool {
    ||| holds(text, "quota_exceeded"@)
    ||| holds(text, "quota exceeded"@)
    ||| holds(text, "billing"@)
    ||| holds(text, "payment required"@)
}

/// The text names the model in one of the phrases for one that is not there.
pub open spec fn holds_model_phrase(text: Seq<char>) -> bool {
    &&& holds(text, "model"@)
    &&& {
        ||| holds(text, "model_not_found"@)
        ||| holds(text, "model not found"@)
        ||| holds(text, "does not exist"@)
        ||| holds(text, "invalid model"@)
        ||| holds(text, "unknown model"@)
        ||| holds(text, "not_found_error"@)
        ||| holds(text, "is not a valid model"@)
    }
}

/// The quotas of a coding plan are phrases for a quota already.
proof fn lemma_plan_quota(text: Seq<char>, phrase: Seq<char>)
    requires
        occurs(text, phrase),
        "quota_exceeded"@.is_suffix_of(phrase),
    ensures
        occurs(text, "quota_exceeded"@),
{
    let i = choose|i: int| occurs_at(text, phrase, i);
    let at = i + phrase.len() - "quota_exceeded"@.len();
    let part = text.subrange(i, i + phrase.len());
    assert forall|k: int| 0 <= k < "quota_exceeded"@.len() implies text[at + k]
        == #[trigger] "quota_exceeded"@[k] by {
        assert(text[at + k] == part[phrase.len() - "quota_exceeded"@.len() + k]);
    }
    assert(text.subrange(at, at + "quota_exceeded"@.len()) =~= "quota_exceeded"@);
    assert(occurs_at(text, "quota_exceeded"@, at));
}

proof fn lemma_speaks_of_quota(body: Seq<char>)
    ensures
        speaks_of_quota(lowered(body)) == holds_quota_phrase(body),
{
    reveal_strlit("quota_exceeded");
    reveal_strlit("coding_plan_hour_quota_exceeded");
    reveal_strlit("coding_plan_week_quota_exceeded");
    reveal_strlit("coding_plan_month_quota_exceeded");
    let lower = lowered(body);
    if occurs(lower, "coding_plan_hour_quota_exceeded"@) {
        lemma_plan_quota(lower, "coding_plan_hour_quota_exceeded"@);
    }
    if occurs(lower, "coding_plan_week_quota_exceeded"@) {
        lemma_plan_quota(lower, "coding_plan_week_quota_exceeded"@);
    }
    if occurs(lower, "coding_plan_month_quota_exceeded"@) {
        lemma_plan_quota(lower, "coding_plan_month_quota_exceeded"@);
    }
}

/// An error that speaks of a quota is one of quota, whatever its status; so is any with
/// the status 402; and no other error is.
pub proof fn law_quota_comes_first(status: u16, body: Seq<char>)
    ensures
        http_category(status, body) == "quotaExceeded"@ <==> holds_quota_phrase(body) || status
            == 402,
{
    lemma_speaks_of_quota(body);
    lemma_categories_differ();
}

/// Without a phrase for a quota, a status of 429 is a rate limit whatever the body says,
/// and no other status is one.
pub proof fn law_rate_limit(status: u16, body: Seq<char>)
    requires
        !holds_quota_phrase(body),
    ensures
        http_category(status, body) == "rateLimited"@ <==> status == 429,
{
    lemma_speaks_of_quota(body);
    lemma_categories_differ();
}

/// Without a phrase for a quota, a status of 401 or of 403 is a failed authentication
/// whatever the body says; so is an invalid key under any status but those of a quota
/// and of a rate limit; and nothing else is.
pub proof fn law_authentication(status: u16, body: Seq<char>)
    requires
        !holds_quota_phrase(body),
    ensures
        http_category(status, body) == "auth"@ <==> {
            ||| status == 401
            ||| status == 403
            ||| holds(body, "invalid api key"@) && status != 402 && status != 429
        },
{
    lemma_speaks_of_quota(body);
    lemma_categories_differ();
}

/// Where neither a quota nor a key is the matter: a missing model is reported by the
/// statuses 400, 404 and 422 with a phrase for it; any other 404 is a missing endpoint;
/// statuses from 500 on are failures of the upstream; the rest is a matter of protocol.
pub proof fn law_other_errors(status: u16, body: Seq<char>)
    requires
        !holds_quota_phrase(body),
        !holds(body, "invalid api key"@),
        status != 401 && status != 402 && status != 403 && status != 429,
    ensures
        http_category(status, body) == "modelNotFound"@ <==> (status == 400 || status == 404
            || status == 422) && holds_model_phrase(body),
        http_category(status, body) == "endpoint"@ <==> status == 404 && !holds_model_phrase(body),
        http_category(status, body) == "upstream"@ <==> status >= 500,
        http_category(status, body) == "protocol"@ <==> status < 500 && status != 404 && !((status
            == 400 || status == 422) && holds_model_phrase(body)),
{
    lemma_speaks_of_quota(body);
    lemma_categories_differ();
}

/// An error that is known by its text alone: keys, authentication and managed accounts
/// come first, then the network, then the answer; the rest is a matter of configuration.
pub proof fn law_message_categories(text: Seq<char>)
    ensures
        ({
            let auth = holds(text, "api key"@) || holds(text, "认证"@) || holds(
                text,
                "托管 oauth"@,
            ) || holds(text, "managed oauth"@);
            let network = holds(text, "timeout"@) || holds(text, "timed out"@) || holds(
                text,
                "connection"@,
            ) || holds(text, "dns"@) || holds(text, "tls"@);
            let answer = holds(text, "响应"@) || holds(text, "response"@);
            &&& message_category(text) == "auth"@ <==> auth
            &&& message_category(text) == "network"@ <==> !auth && network
            &&& message_category(text) == "protocol"@ <==> !auth && !network && answer
            &&& message_category(text) == "configuration"@ <==> !auth && !network && !answer
        }),
{
    lemma_categories_differ();
}

/// Each category has its text; a category that is not known has that of the protocol.
pub proof fn law_category_texts(category: Seq<char>)
    ensures
        category_text("auth"@) == "鉴权失败"@,
        category_text("modelNotFound"@) == "模型不存在或无权访问"@,
        category_text("endpoint"@) == "接口地址不存在"@,
        category_text("quotaExceeded"@) == "额度或计费限制"@,
        category_text("rateLimited"@) == "请求被限流"@,
        category_text("upstream"@) == "上游服务错误"@,
        category_text("network"@) == "网络请求失败"@,
        category_text("configuration"@) == "Provider 配置不完整"@,
        category_text("protocol"@) == "协议或请求格式错误"@,
        !categories().contains(category) ==> category_text(category) == "协议或请求格式错误"@,
{
    lemma_categories_differ();
    let all = categories();
    assert(all[0] == "auth"@ && all[1] == "modelNotFound"@ && all[2] == "endpoint"@);
    assert(all[3] == "quotaExceeded"@ && all[4] == "rateLimited"@ && all[5] == "upstream"@);
    assert(all[6] == "network"@ && all[7] == "configuration"@);
}

proof fn lemma_categories_differ()
    ensures
        forall|i: int, j: int|
            0 <= i < j < categories().len() ==> #[trigger] categories()[i]
                != #[trigger] categories()[j],
        categories()[0] == "auth"@,
        categories()[1] == "modelNotFound"@,
        categories()[2] == "endpoint"@,
        categories()[3] == "quotaExceeded"@,
        categories()[4] == "rateLimited"@,
        categories()[5] == "upstream"@,
        categories()[6] == "network"@,
        categories()[7] == "configuration"@,
        categories()[8] == "protocol"@,
{
    assert forall|i: int, j: int| 0 <= i < j < categories().len() implies #[trigger] categories()[i]
        != #[trigger] categories()[j] by {
        law_category_texts_differ(i, j);
    }
}

/// A successful check reports the status and the model of the answer, without a category.
/// It is degraded only where it took more than six seconds.
pub proof fn law_result_of_a_success(
    status: u16,
    model: Seq<char>,
    error_text: Seq<char>,
    response_time_ms: u64,
    fallback_model: Seq<char>,
    tested_at: i64,
)
    ensures
        ({
            let result = result_view(
                Ok((status, model)),
                error_text,
                response_time_ms,
                fallback_model,
                tested_at,
            );
            &&& result.success
            &&& result.status is Operational <==> response_time_ms <= 6000
            &&& result.status is Degraded <==> response_time_ms > 6000
            &&& result.message == "模型请求成功"@
            &&& result.response_time_ms == Some(response_time_ms)
            &&& result.http_status == Some(status)
            &&& result.model_used == model
            &&& result.tested_at == tested_at
            &&& result.error_category is None
        }),
{
}

/// A refused request reports its status, the category of the error and its text. It
/// reports the model that was asked for, whatever the wording of the error.
pub proof fn law_result_of_a_refusal(
    status: u16,
    body: Seq<char>,
    error_text: Seq<char>,
    response_time_ms: u64,
    fallback_model: Seq<char>,
    tested_at: i64,
)
    ensures
        ({
            let result = result_view(
                Err(AppErrorView::HttpStatus { status, body }),
                error_text,
                response_time_ms,
                fallback_model,
                tested_at,
            );
            &&& !result.success
            &&& result.status is Failed
            &&& result.http_status == Some(status)
            &&& result.error_category == Some(http_category(status, body))
            &&& result.message == category_text(http_category(status, body)) + " (HTTP "@
                + decimal(status as nat) + ")"@
            &&& result.response_time_ms == Some(response_time_ms)
            &&& result.model_used == fallback_model
            &&& result.tested_at == tested_at
        }),
{
}

/// Any other failure reports the wording of the error and its category, without a status.
pub proof fn law_result_of_a_failure(
    error: AppErrorView,
    error_text: Seq<char>,
    response_time_ms: u64,
    fallback_model: Seq<char>,
    tested_at: i64,
)
    requires
        !(error is HttpStatus),
    ensures
        ({
            let result = result_view(
                Err(error),
                error_text,
                response_time_ms,
                fallback_model,
                tested_at,
            );
            &&& !result.success
            &&& result.status is Failed
            &&& result.http_status is None
            &&& result.error_category == Some(message_category(error_text))
            &&& result.message == error_text
            &&& result.response_time_ms == Some(response_time_ms)
            &&& result.model_used == fallback_model
            &&& result.tested_at == tested_at
        }),
{
}

/// A request without an answer is reported as one that timed out, else as one that found
/// no connection, else as one that failed, with the wording of the error where there is
/// more than the time to say.
pub proof fn law_request_failures(connect: bool, text: Seq<char>)
    ensures
        request_failure(true, connect, text) == AppErrorView::Message("请求超时"@),
        request_failure(false, true, text) == AppErrorView::Message("连接失败: "@ + text),
        request_failure(false, false, text) == AppErrorView::Message("请求失败: "@ + text),
{
}

/// Up to 600 characters of a trimmed body are kept as they are; of a longer one the first
/// 600 and an ellipsis.
pub proof fn law_body_is_cut_at_600(body: Seq<char>)
    ensures
        trimmed(body).len() <= 600 ==> kept_body(body) == trimmed(body),
        trimmed(body).len() > 600 ==> kept_body(body) == trimmed(body).take(600).push('…'),
{
    law_kept_body(body);
}

/// A check may take 45 seconds, and is slow long before.
pub proof fn law_time_limits()
    ensures
        MODEL_CHECK_TIMEOUT_SECS == 45,
        MODEL_CHECK_DEGRADED_THRESHOLD_MS < 1000 * MODEL_CHECK_TIMEOUT_SECS,
{
}

/// The categories of errors.
pub open spec fn categories() -> Seq<Seq<char>> {
    seq![
        "auth"@,
        "modelNotFound"@,
        "endpoint"@,
        "quotaExceeded"@,
        "rateLimited"@,
        "upstream"@,
        "network"@,
        "configuration"@,
        "protocol"@,
    ]
}

/// Every error has one of the known categories.
pub proof fn law_categories_are_known(status: u16, text: Seq<char>)
    ensures
        categories().contains(http_category(status, text)),
        categories().contains(message_category(text)),
{
    let all = categories();
    assert(all[0] == "auth"@);
    assert(all[1] == "modelNotFound"@);
    assert(all[2] == "endpoint"@);
    assert(all[3] == "quotaExceeded"@);
    assert(all[4] == "rateLimited"@);
    assert(all[5] == "upstream"@);
    assert(all[6] == "network"@);
    assert(all[7] == "configuration"@);
    assert(all[8] == "protocol"@);
}

/// No two categories are the same, and the user can tell them apart: each has a text of
/// its own.
pub proof fn law_category_texts_differ(i: int, j: int)
    requires
        0 <= i < j < categories().len(),
    ensures
        categories()[i] != categories()[j],
        category_text(categories()[i]) != category_text(categories()[j]),
{
    reveal_strlit("auth");
    reveal_strlit("modelNotFound");
    reveal_strlit("endpoint");
    reveal_strlit("quotaExceeded");
    reveal_strlit("rateLimited");
    reveal_strlit("upstream");
    reveal_strlit("network");
    reveal_strlit("configuration");
    reveal_strlit("protocol");
    reveal_strlit("鉴权失败");
    reveal_strlit("模型不存在或无权访问");
    reveal_strlit("接口地址不存在");
    reveal_strlit("额度或计费限制");
    reveal_strlit("请求被限流");
    reveal_strlit("上游服务错误");
    reveal_strlit("网络请求失败");
    reveal_strlit("Provider 配置不完整");
    reveal_strlit("协议或请求格式错误");
    let all = categories();
    assert(all[0][0] == 'a' && all[1][0] == 'm' && all[2][0] == 'e' && all[3][0] == 'q');
    assert(all[4][0] == 'r' && all[5][0] == 'u' && all[6][0] == 'n' && all[7][0] == 'c');
    assert(all[8][0] == 'p');
    assert("鉴权失败"@[0] == '鉴' && "模型不存在或无权访问"@[0] == '模');
    assert("接口地址不存在"@[0] == '接' && "额度或计费限制"@[0] == '额');
    assert("请求被限流"@[0] == '请' && "上游服务错误"@[0] == '上');
    assert("网络请求失败"@[0] == '网' && "Provider 配置不完整"@[0] == 'P');
    assert("协议或请求格式错误"@[0] == '协');
}

/// What is kept of an error's body is at most one character longer than the limit, is the
/// start of the trimmed body and perhaps an ellipsis, and is kept as it is when it is cut
/// again.
pub proof fn law_kept_body(body: Seq<char>)
    ensures
        kept_body(body).len() <= ERROR_BODY_MAX_CHARS + 1,
        trimmed(body).len() <= ERROR_BODY_MAX_CHARS ==> kept_body(body) == trimmed(body),
        trimmed(body).len() > ERROR_BODY_MAX_CHARS ==> kept_body(body) == trimmed(body).take(
            ERROR_BODY_MAX_CHARS as int,
        ).push('…'),
        kept_body(kept_body(body)) == kept_body(body),
{
    reveal_strlit("…");
    law_trimmed(body);
    let inner = trimmed(body);
    let kept = kept_body(body);
    if inner.len() > ERROR_BODY_MAX_CHARS {
        assert("…"@ =~= seq!['…']);
        assert(kept =~= inner.take(ERROR_BODY_MAX_CHARS as int).push('…'));
        assert(kept.first() == inner.first());
        assert(kept.last() == '…');
        assert(!is_white_space('…'));
        assert(trimmed_start(kept) == kept);
        assert(trimmed_end(kept) == kept);
        assert(kept.take(ERROR_BODY_MAX_CHARS as int) =~= inner.take(ERROR_BODY_MAX_CHARS as int));
    }
}

} // verus!
