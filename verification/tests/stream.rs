use model_check::exchange::{Exchange, ExchangeEvent};
use model_check::json::{parse_json, Json};
use model_check::results::RequestError;
use model_check::stream::ResponseReader;
use model_check::types::{AppError, CheckProtocol, ModelCheckService};

#[test]
fn validates_sse_control_lines_before_accepting_model_data() {
    assert!(
        ModelCheckService::validate_response_line(": keep-alive", CheckProtocol::OpenAi).is_none()
    );
    assert!(
        ModelCheckService::validate_response_line("event: ping", CheckProtocol::OpenAi).is_none()
    );
    assert!(ModelCheckService::validate_response_line("id: 1", CheckProtocol::OpenAi).is_none());
    assert!(
        ModelCheckService::validate_response_line("data: [DONE]", CheckProtocol::OpenAi).is_none()
    );
    assert!(ModelCheckService::validate_response_line(
        r#"data: {"type":"ping"}"#,
        CheckProtocol::OpenAi
    )
    .is_none());
    assert!(ModelCheckService::validate_response_line(
        r#"data: {"type":"message_start"}"#,
        CheckProtocol::Anthropic
    )
    .expect("message event")
    .is_ok());
    assert!(ModelCheckService::validate_response_line(
        r#"data: {"error":{"message":"invalid model"}}"#,
        CheckProtocol::OpenAi
    )
    .expect("error event")
    .is_err());
}

/// `None` for silence, else the error's text or nothing.
fn verdict(line: &str) -> Option<Option<String>> {
    ModelCheckService::validate_response_line(line, CheckProtocol::Gemini).map(|verdict| {
        match verdict {
            Ok(()) => None,
            Err(AppError::Message(text)) => Some(text),
            Err(other) => panic!("unexpected error: {:?}", other),
        }
    })
}

#[test]
fn event_lines_only_report_errors() {
    assert_eq!(verdict("event: message_start"), None);
    assert_eq!(verdict("event: ERROR"), Some(Some("上游返回了错误事件".to_string())));
    assert_eq!(
        verdict(" event:Response.Failed \r"),
        Some(Some("上游返回了错误事件".to_string()))
    );
}

#[test]
fn blank_and_closing_lines_are_silent() {
    for line in ["", "  \r", "data:", "data:  ", "retry: 10", "data: [done]", "[DONE]"] {
        assert_eq!(verdict(line), None);
    }
}

#[test]
fn payloads_without_a_prefix_count() {
    assert_eq!(verdict("OK"), Some(None));
    assert_eq!(verdict(r#"{"choices":[]}"#), Some(None));
    assert_eq!(verdict(r#"{"error":null,"choices":[]}"#), Some(None));
}

#[test]
fn error_payloads_are_found_in_json_and_in_text() {
    let error = Some(Some("上游返回了错误响应体".to_string()));
    assert_eq!(verdict(r#"data: {"type":"error"}"#), error);
    assert_eq!(verdict(r#"data: {"type":"response.failed"}"#), error);
    assert_eq!(verdict(r#"data: {"error":"x","candidates":[]}"#), error);
    assert_eq!(verdict(r#"data: {"inner":{"ERROR":1}}"#), error);
    assert_eq!(verdict(r#"data: not json "error""#), error);
    assert_eq!(verdict(r#"data: not json "error" candidates"#), Some(None));
    assert_eq!(verdict(r#"data: not json "error" message_start"#), Some(None));
    assert_eq!(verdict(r#"data: not json "error":null"#), Some(None));
}

#[test]
fn a_given_reading_of_the_payload_decides() {
    let ping = Json::Object(vec![("type".to_string(), Json::String("ping".to_string()))]);
    let with = ModelCheckService::validate_response_line_with;
    assert!(with("data: x", Some(&ping), CheckProtocol::OpenAi).is_none());
    assert!(with("data: x", None, CheckProtocol::OpenAi).expect("data").is_ok());
    assert!(!ModelCheckService::looks_like_error_payload("x", CheckProtocol::OpenAi));
    assert!(ModelCheckService::looks_like_error_payload(
        r#"{"error":1}"#,
        CheckProtocol::OpenAi
    ));
    assert_eq!(ModelCheckService::line_payload(" data: x "), Some("x"));
    assert_eq!(ModelCheckService::line_payload("event: x"), None);
}

#[test]
fn json_text_is_read() {
    assert_eq!(
        parse_json(r#" {"b":[null,true,1.5,"x"],"a":{}} "#),
        Some(Json::Object(vec![
            ("a".to_string(), Json::Object(vec![])),
            (
                "b".to_string(),
                Json::Array(vec![
                    Json::Null,
                    Json::Bool(true),
                    Json::Number("1.5".to_string()),
                    Json::String("x".to_string()),
                ])
            ),
        ]))
    );
    assert_eq!(
        parse_json(r#"{"a":1,"a":2}"#),
        Some(Json::Object(vec![("a".to_string(), Json::Number("2".to_string()))]))
    );
    assert_eq!(parse_json("{"), None);
    assert_eq!(parse_json(""), None);
    let value: serde_json::Value = serde_json::from_str("[false]").expect("json");
    assert_eq!(Json::from_value(&value), Json::Array(vec![Json::Bool(false)]));
}

fn read(chunks: &[&[u8]]) -> Result<(u16, String), String> {
    let mut reader = ResponseReader::new(200, "m", CheckProtocol::OpenAi);
    let mut outcome = None;
    for chunk in chunks {
        outcome = reader.read_chunk(chunk);
        if outcome.is_some() {
            break;
        }
    }
    match outcome.unwrap_or_else(|| reader.finish()) {
        Ok(answer) => Ok(answer),
        Err(AppError::Message(text)) => Err(text),
        Err(other) => panic!("unexpected error: {:?}", other),
    }
}

#[test]
fn the_first_deciding_line_ends_the_stream() {
    let answer = Ok((200, "m".to_string()));
    assert_eq!(read(&[b": hi\n\nevent: ping\ndata: {\"x\":1}\nevent: error\n"]), answer);
    assert_eq!(
        read(&[b"event: error\ndata: {\"x\":1}\n"]),
        Err("上游返回了错误事件".to_string())
    );
    assert_eq!(read(&[b"data: {\"x\":1}"]), answer);
    assert_eq!(read(&[b": hi\n"]), Err("模型响应为空，未收到有效数据".to_string()));
    assert_eq!(read(&[]), Err("模型响应为空，未收到有效数据".to_string()));
}

#[test]
fn cutting_the_stream_elsewhere_changes_nothing() {
    let stream: &[u8] = b": hi\r\nevent: message\ndata: {\"error\":\"no\"}\n\ndata: late\n";
    let whole = read(&[stream]);
    assert_eq!(whole, Err("上游返回了错误响应体".to_string()));
    for cut in 0..=stream.len() {
        assert_eq!(read(&[&stream[..cut], b"", &stream[cut..]]), whole);
    }
    let bytes: Vec<&[u8]> = stream.chunks(1).collect();
    assert_eq!(read(&bytes), whole);
}

#[test]
fn bytes_that_are_no_text_are_replaced() {
    assert_eq!(read(&[b"data: \xff\n"]), Ok((200, "m".to_string())));
    assert_eq!(read(&[b"\xe6\xa8\n"]), Ok((200, "m".to_string())));
    assert_eq!(read(&["data: {\"type\":\"ping\"}\ndata: 模\n".as_bytes()]), Ok((200, "m".to_string())));
}

fn step(state: Exchange, event: ExchangeEvent) -> Exchange {
    ModelCheckService::send_json_and_validate(state, event)
}

fn waiting() -> Exchange {
    Exchange::Waiting {
        model: "m".to_string(),
        protocol: CheckProtocol::OpenAi,
    }
}

fn ended(state: Exchange) -> Result<(u16, String), AppError> {
    match state {
        Exchange::Ended(outcome) => outcome,
        _ => panic!("the exchange goes on"),
    }
}

#[test]
fn an_exchange_that_is_not_answered() {
    let state = step(
        waiting(),
        ExchangeEvent::SendFailed(RequestError {
            timeout: true,
            connect: false,
            text: "why".to_string(),
        }),
    );
    assert!(matches!(ended(state), Err(AppError::Message(text)) if text == "请求超时"));
}

#[test]
fn an_exchange_that_is_refused() {
    let state = step(waiting(), ExchangeEvent::Status(404));
    assert!(matches!(state, Exchange::Refused { status: 404 }));
    let state = step(state, ExchangeEvent::ErrorBody(Some(" gone ".to_string())));
    assert!(matches!(
        ended(state),
        Err(AppError::HttpStatus { status: 404, body }) if body == "gone"
    ));
    let state = step(
        step(waiting(), ExchangeEvent::Status(500)),
        ExchangeEvent::ErrorBody(None),
    );
    assert!(matches!(
        ended(state),
        Err(AppError::HttpStatus { status: 500, body }) if body.is_empty()
    ));
}

#[test]
fn an_exchange_that_is_answered() {
    let state = step(waiting(), ExchangeEvent::Status(201));
    let state = step(state, ExchangeEvent::Chunk(b": hi\nda"));
    let state = step(state, ExchangeEvent::Chunk(b""));
    let state = step(state, ExchangeEvent::Chunk(b"ta: OK\n"));
    let state = step(state, ExchangeEvent::Closed);
    assert!(matches!(ended(state), Ok((201, model)) if model == "m"));
}

#[test]
fn an_exchange_that_breaks_off() {
    let state = step(waiting(), ExchangeEvent::Status(200));
    let state = step(state, ExchangeEvent::ChunkFailed("reset".to_string()));
    assert!(
        matches!(ended(state), Err(AppError::Message(text)) if text == "读取模型响应失败: reset")
    );
}

#[test]
fn an_exchange_passes_over_events_out_of_place() {
    assert!(matches!(
        step(waiting(), ExchangeEvent::Chunk(b"data: OK\n")),
        Exchange::Waiting { .. }
    ));
    assert!(matches!(
        step(step(waiting(), ExchangeEvent::Status(500)), ExchangeEvent::Closed),
        Exchange::Refused { status: 500 }
    ));
}
