use model_check::results::RequestError;
use model_check::types::{AppError, HealthStatus, ModelCheckService};

#[test]
fn classifies_model_and_auth_errors() {
    assert_eq!(
        ModelCheckService::classify_http_error(
            404,
            r#"{"error":{"code":"model_not_found","message":"model missing"}}"#
        ),
        "modelNotFound"
    );
    assert_eq!(
        ModelCheckService::classify_http_error(401, "invalid api key"),
        "auth"
    );
    assert_eq!(
        ModelCheckService::classify_http_error(429, "slow down"),
        "rateLimited"
    );
    assert_eq!(
        ModelCheckService::classify_http_error(404, "Not Found"),
        "endpoint"
    );
}

#[test]
fn quota_comes_before_every_status() {
    for status in [400, 401, 402, 404, 429, 500] {
        assert_eq!(
            ModelCheckService::classify_http_error(status, "QUOTA Exceeded for this key"),
            "quotaExceeded"
        );
    }
    assert_eq!(ModelCheckService::classify_http_error(402, ""), "quotaExceeded");
    for body in ["Billing", "payment required", "coding_plan_week_quota_exceeded"] {
        assert_eq!(ModelCheckService::classify_http_error(500, body), "quotaExceeded");
    }
}

#[test]
fn remaining_http_categories() {
    let classify = ModelCheckService::classify_http_error;
    assert_eq!(classify(403, ""), "auth");
    assert_eq!(classify(500, "Invalid API Key"), "auth");
    assert_eq!(classify(400, "Unknown MODEL x"), "modelNotFound");
    assert_eq!(classify(422, "the model does not exist"), "modelNotFound");
    assert_eq!(classify(404, "it does not exist"), "endpoint");
    assert_eq!(classify(500, "unknown model"), "upstream");
    assert_eq!(classify(503, ""), "upstream");
    assert_eq!(classify(418, ""), "protocol");
    assert_eq!(classify(302, ""), "protocol");
}

#[test]
fn case_does_not_change_a_category() {
    for (status, body) in [(404, "Model_Not_Found"), (500, "Invalid Api Key"), (503, "Billing")] {
        let upper = body.to_ascii_uppercase();
        assert_eq!(
            ModelCheckService::classify_http_error(status, &upper),
            ModelCheckService::classify_http_error(status, body)
        );
    }
    assert_eq!(ModelCheckService::classify_http_error(404, "MODEL_NOT_FOUND"), "modelNotFound");
    assert_eq!(ModelCheckService::classify_message("TIMED OUT"), "network");
    assert_eq!(ModelCheckService::classify_message("Timed Out"), "network");
}

#[test]
fn classifies_messages() {
    let classify = ModelCheckService::classify_message;
    assert_eq!(classify("API Key 或托管认证未配置"), "auth");
    assert_eq!(classify("请先在认证中心完成登录"), "auth");
    assert_eq!(classify("使用托管 OAuth"), "auth");
    assert_eq!(classify("uses Managed OAuth"), "auth");
    assert_eq!(classify("operation timed out"), "network");
    assert_eq!(classify("DNS failure"), "network");
    assert_eq!(classify("TLS handshake"), "network");
    assert_eq!(classify("connection refused"), "network");
    assert_eq!(classify("上游返回了错误响应体"), "protocol");
    assert_eq!(classify("bad Response"), "protocol");
    assert_eq!(classify("base_url 未配置"), "configuration");
}

#[test]
fn every_category_has_a_text() {
    let texts: Vec<&str> = [
        "auth",
        "modelNotFound",
        "endpoint",
        "quotaExceeded",
        "rateLimited",
        "upstream",
        "network",
        "configuration",
        "protocol",
    ]
    .iter()
    .map(|category| ModelCheckService::category_message(category))
    .collect();
    assert_eq!(
        texts,
        vec![
            "鉴权失败",
            "模型不存在或无权访问",
            "接口地址不存在",
            "额度或计费限制",
            "请求被限流",
            "上游服务错误",
            "网络请求失败",
            "Provider 配置不完整",
            "协议或请求格式错误",
        ]
    );
    assert_eq!(ModelCheckService::category_message("other"), "协议或请求格式错误");
}

#[test]
fn builds_the_result_of_a_success() {
    let at = |ms: u64| {
        ModelCheckService::build_result_at(Ok((200, "used".to_string())), "", ms, "fallback", 7)
    };
    let quick = at(6_000);
    assert_eq!(quick.status, HealthStatus::Operational);
    assert!(quick.success);
    assert_eq!(quick.message, "模型请求成功");
    assert_eq!(quick.response_time_ms, Some(6_000));
    assert_eq!(quick.http_status, Some(200));
    assert_eq!(quick.model_used, "used");
    assert_eq!(quick.tested_at, 7);
    assert_eq!(quick.error_category, None);
    assert_eq!(at(6_001).status, HealthStatus::Degraded);
}

#[test]
fn builds_the_result_of_an_http_error() {
    let result = ModelCheckService::build_result_at(
        Err(AppError::HttpStatus {
            status: 404,
            body: "Not Found".to_string(),
        }),
        "unused",
        12,
        "fallback",
        7,
    );
    assert_eq!(result.status, HealthStatus::Failed);
    assert!(!result.success);
    assert_eq!(result.message, "接口地址不存在 (HTTP 404)");
    assert_eq!(result.http_status, Some(404));
    assert_eq!(result.model_used, "fallback");
    assert_eq!(result.error_category, Some("endpoint".to_string()));
}

#[test]
fn builds_the_result_of_another_error() {
    let result = ModelCheckService::build_result_at(
        Err(AppError::Message("请求超时".to_string())),
        "operation timed out",
        12,
        "fallback",
        7,
    );
    assert_eq!(result.message, "operation timed out");
    assert_eq!(result.http_status, None);
    assert_eq!(result.error_category, Some("network".to_string()));
}

#[test]
fn a_result_is_tested_now() {
    let before = chrono::Utc::now().timestamp();
    let result = ModelCheckService::build_result(Ok((200, "m".to_string())), "", 1, "m");
    let after = chrono::Utc::now().timestamp();
    assert!(before <= result.tested_at && result.tested_at <= after);
    assert!(result.success);
}

fn kept(body: &str) -> String {
    match ModelCheckService::http_status_error(500, body.to_string()) {
        AppError::HttpStatus { status: 500, body } => body,
        other => panic!("unexpected error: {:?}", other),
    }
}

#[test]
fn error_bodies_are_trimmed_and_cut() {
    assert_eq!(kept("  down \n"), "down");
    let exact = "字".repeat(600);
    assert_eq!(kept(&exact), exact);
    let long = format!(" {}x ", exact);
    let cut = format!("{}…", exact);
    assert_eq!(kept(&long), cut);
    assert_eq!(kept(&cut), cut);
}

fn failure(timeout: bool, connect: bool) -> String {
    match ModelCheckService::map_request_error(RequestError {
        timeout,
        connect,
        text: "why".to_string(),
    }) {
        AppError::Message(text) => text,
        other => panic!("unexpected error: {:?}", other),
    }
}

#[test]
fn request_errors_are_worded() {
    assert_eq!(failure(true, true), "请求超时");
    assert_eq!(failure(true, false), "请求超时");
    assert_eq!(failure(false, true), "连接失败: why");
    assert_eq!(failure(false, false), "请求失败: why");
}

#[test]
fn success_statuses() {
    assert!(!ModelCheckService::is_success(199));
    assert!(ModelCheckService::is_success(200));
    assert!(ModelCheckService::is_success(299));
    assert!(!ModelCheckService::is_success(300));
}
