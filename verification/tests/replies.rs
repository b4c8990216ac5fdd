use io_gmail::coroutine::GmailCoroutine;
use io_gmail::coroutine::GmailCoroutineState;
use io_gmail::coroutine::GmailYield;
use io_gmail::error::parse_api_error;
use io_gmail::error::UNKNOWN_API_ERROR;
use io_gmail::v1::http::GmailHttpStep;
use io_gmail::v1::rest::labels::delete::GmailDeleteLabel;
use io_gmail::v1::rest::users::get_profile::GmailProfileGet;
use io_gmail::v1::rest::users::stop::GmailStop;
use io_gmail::v1::send::GmailSend;
use io_gmail::v1::send::GmailSendError;
use io_gmail::v1::send::GmailSendOutput;
use io_gmail::v1::http::GmailBearer;

fn profile_exchange(reply: &[u8]) -> Result<GmailSendOutput<Vec<u8>>, GmailSendError> {
    let mut c = GmailProfileGet::new(&GmailBearer::new("t"), "me").unwrap();
    assert!(matches!(c.resume(None), GmailCoroutineState::Yielded(GmailYield::WantsWrite(_))));
    assert!(matches!(c.resume(None), GmailCoroutineState::Yielded(GmailYield::WantsRead)));
    match c.resume(Some(reply)) {
        GmailCoroutineState::Complete(r) => r,
        GmailCoroutineState::Yielded(_) => panic!("the whole reply was given"),
    }
}

#[test]
fn success_reply_hands_over_the_json_body() {
    let out = profile_exchange(b"HTTP/1.1 200 OK\r\nContent-Length: 30\r\n\r\n{\"emailAddress\":\"a@b.c\",\"x\":1}").unwrap();
    assert_eq!(out.response, b"{\"emailAddress\":\"a@b.c\",\"x\":1}".to_vec());
    assert!(out.keep_alive);
}

#[test]
fn empty_success_reply_reads_as_null() {
    let out = profile_exchange(b"HTTP/1.1 204 No Content\r\n\r\n").unwrap();
    assert_eq!(out.response, b"null".to_vec());
}

#[test]
fn error_reply_reads_the_gmail_envelope() {
    let body = br#"{"error":{"code":404,"message":"Requested entity was not found.","status":"NOT_FOUND"}}"#;
    let reply = [format!("HTTP/1.1 404 Not Found\r\nContent-Length: {}\r\n\r\n", body.len()).as_bytes(), body].concat();
    match profile_exchange(&reply) {
        Err(GmailSendError::ApiError { status, message }) => {
            assert_eq!(status, 404);
            assert_eq!(message, "Requested entity was not found.");
        }
        _ => panic!("a 404 must be an API error"),
    }
}

#[test]
fn redirect_reply_is_refused() {
    let r = profile_exchange(b"HTTP/1.1 301 Moved Permanently\r\nLocation: /elsewhere\r\nContent-Length: 0\r\n\r\n");
    assert!(matches!(r, Err(GmailSendError::UnexpectedRedirect)));
}

#[test]
fn closed_connection_is_not_kept_alive() {
    let out = profile_exchange(b"HTTP/1.1 200 OK\r\nConnection: close\r\nContent-Length: 2\r\n\r\n{}").unwrap();
    assert!(!out.keep_alive);
}

#[test]
fn finish_passes_io_requests_on() {
    assert!(matches!(
        GmailSend::finish(GmailHttpStep::WantsRead),
        GmailCoroutineState::Yielded(GmailYield::WantsRead)
    ));
    match GmailSend::finish(GmailHttpStep::WantsWrite(b"abc".to_vec())) {
        GmailCoroutineState::Yielded(GmailYield::WantsWrite(bytes)) => assert_eq!(bytes, b"abc".to_vec()),
        _ => panic!("a write must be passed on"),
    }
}

#[test]
fn finish_reads_non_2xx_as_api_error() {
    let step = GmailHttpStep::Response { status: 502, body: b"  Bad Gateway\n".to_vec(), keep_alive: false };
    match GmailSend::finish(step) {
        GmailCoroutineState::Complete(Err(GmailSendError::ApiError { status, message })) => {
            assert_eq!(status, 502);
            assert_eq!(message, "Bad Gateway");
        }
        _ => panic!("a 502 must be an API error"),
    }
}

#[test]
fn finish_keeps_2xx_bodies() {
    let step = GmailHttpStep::Response { status: 299, body: b"[1]".to_vec(), keep_alive: true };
    match GmailSend::finish(step) {
        GmailCoroutineState::Complete(Ok(out)) => {
            assert_eq!(out.response, b"[1]".to_vec());
            assert!(out.keep_alive);
        }
        _ => panic!("a 2xx must succeed"),
    }
    let step = GmailHttpStep::Response { status: 300, body: Vec::new(), keep_alive: true };
    match GmailSend::finish(step) {
        GmailCoroutineState::Complete(Err(GmailSendError::ApiError { status, message })) => {
            assert_eq!(status, 300);
            assert_eq!(message, UNKNOWN_API_ERROR);
        }
        _ => panic!("a 300 without redirect must be an API error"),
    }
}

#[test]
fn no_response_endpoint_accepts_an_empty_body() {
    let mut c = GmailDeleteLabel::new(&GmailBearer::new("t"), "me", "Label_1").unwrap();
    c.resume(None);
    c.resume(None);
    match c.resume(Some(b"HTTP/1.1 204 No Content\r\n\r\n")) {
        GmailCoroutineState::Complete(Ok(out)) => assert!(out.keep_alive),
        _ => panic!("an empty reply must be accepted"),
    }
}

#[test]
fn no_response_endpoint_refuses_a_body_that_is_not_json() {
    let mut c = GmailStop::new(&GmailBearer::new("t"), "me").unwrap();
    c.resume(None);
    c.resume(None);
    match c.resume(Some(b"HTTP/1.1 200 OK\r\nContent-Length: 5\r\n\r\nhello")) {
        GmailCoroutineState::Complete(Err(GmailSendError::ParseResponse(_))) => {}
        _ => panic!("a body that is not JSON must be refused"),
    }
}

#[test]
fn api_error_envelope_code_overrides_status() {
    assert_eq!(
        parse_api_error(400, br#"{"error":{"code":429,"message":"Rate Limit Exceeded"}}"#),
        (429, "Rate Limit Exceeded".to_string())
    );
}

#[test]
fn api_error_envelope_without_code_keeps_status() {
    assert_eq!(parse_api_error(503, br#"{"error":{"message":"Backend Error"}}"#), (503, "Backend Error".to_string()));
}

#[test]
fn api_error_blank_message_is_unknown() {
    assert_eq!(
        parse_api_error(500, br#"{"error":{"code":500,"message":"   "}}"#),
        (500, "unknown Gmail API error".to_string())
    );
    assert_eq!(parse_api_error(500, br#"{"error":{}}"#), (500, "unknown Gmail API error".to_string()));
}

#[test]
fn api_error_plain_text_is_trimmed() {
    assert_eq!(parse_api_error(502, b"\r\n Bad Gateway \n"), (502, "Bad Gateway".to_string()));
}

#[test]
fn api_error_empty_body_is_unknown() {
    assert_eq!(parse_api_error(500, b""), (500, "unknown Gmail API error".to_string()));
    assert_eq!(parse_api_error(500, b" \n\t"), (500, "unknown Gmail API error".to_string()));
}

#[test]
fn api_error_invalid_utf8_is_replaced() {
    assert_eq!(parse_api_error(500, b"oops \xff"), (500, "oops \u{fffd}".to_string()));
}

#[test]
fn api_error_other_json_is_read_as_text() {
    assert_eq!(parse_api_error(500, br#"{"message":"x"}"#), (500, r#"{"message":"x"}"#.to_string()));
    assert_eq!(parse_api_error(500, br#"{"error":"boom"}"#), (500, r#"{"error":"boom"}"#.to_string()));
}

#[test]
fn status_and_retry_of_errors() {
    let e = GmailSendError::ApiError { status: 429, message: String::new() };
    assert_eq!(e.status(), Some(429));
    assert!(e.is_retryable());
    for s in [500u16, 502, 503, 504] {
        assert!(GmailSendError::ApiError { status: s, message: String::new() }.is_retryable());
    }
    for s in [400u16, 401, 403, 404, 501] {
        assert!(!GmailSendError::ApiError { status: s, message: String::new() }.is_retryable());
    }
    let e = GmailSendError::UnexpectedRedirect;
    assert_eq!(e.status(), None);
    assert!(!e.is_retryable());
    assert!(!GmailSendError::InvalidRequest("x".to_string()).is_retryable());
}

#[test]
fn api_error_envelope_in_sequence_form() {
    assert_eq!(parse_api_error(400, br#"[{"code":429,"message":"Slow down"}]"#), (429, "Slow down".to_string()));
    assert_eq!(parse_api_error(400, br#"{"error":[404,"gone"]}"#), (404, "gone".to_string()));
    assert_eq!(parse_api_error(400, br#"{"error":[null,null]}"#), (400, "unknown Gmail API error".to_string()));
    assert_eq!(parse_api_error(400, br#"[]"#), (400, "[]".to_string()));
    assert_eq!(parse_api_error(400, br#"{"error":[404]}"#), (400, r#"{"error":[404]}"#.to_string()));
}

#[test]
fn oversized_chunk_size_is_refused() {
    let r = profile_exchange(b"HTTP/1.1 200 OK\r\nTransfer-Encoding: chunked\r\n\r\nffffffffffffffff\r\nx");
    assert!(matches!(r, Err(GmailSendError::ChunkSizeOverflow)));
    let r = profile_exchange(b"HTTP/1.1 200 OK\r\nTransfer-Encoding: chunked\r\n\r\n0FFFFFFFFFFFFFFFE ; ext\r\nx");
    assert!(matches!(r, Err(GmailSendError::ChunkSizeOverflow)));
}

#[test]
fn chunked_reply_is_read() {
    let out = profile_exchange(b"HTTP/1.1 200 OK\r\nTransfer-Encoding: chunked\r\n\r\n2\r\n{}\r\n0\r\n\r\n").unwrap();
    assert_eq!(out.response, b"{}".to_vec());
}

#[test]
fn api_error_repeated_field_is_read_as_text() {
    let body = br#"{"error":{"code":404,"message":"a"},"error":{"code":500,"message":"b"}}"#;
    assert_eq!(parse_api_error(400, body), (400, String::from_utf8(body.to_vec()).unwrap()));
    let body = br#"{"error":{"code":404,"code":500,"message":"a"}}"#;
    assert_eq!(parse_api_error(400, body), (400, String::from_utf8(body.to_vec()).unwrap()));
    let body = br#"{"error":{"message":"a","message":"b"}}"#;
    assert_eq!(parse_api_error(400, body), (400, String::from_utf8(body.to_vec()).unwrap()));
    assert_eq!(
        parse_api_error(400, br#"{"error":{"code":404,"message":"a","x":1,"x":2},"y":{"error":1}}"#),
        (404, "a".to_string())
    );
}
