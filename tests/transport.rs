use rpc_proxy::client::{classify_body, classify_reply, classify_trimmed, status_error, CallResult, RpcProxyError};
use rpc_proxy::config::EndpointConfig;
use rpc_proxy::endpoint::{AttemptStep, Endpoint, EndpointResult};
use rpc_proxy::message::RpcResponse;
use serde_json::Value;

fn response(result: Option<Value>) -> RpcResponse {
    RpcResponse { jsonrpc: "2.0".to_string(), result, error: None, id: Value::from(1) }
}

fn endpoint(retries: usize) -> Endpoint {
    Endpoint::new(EndpointConfig { address: "http://node".to_string(), retries, timeout_secs: 2 })
}

#[test]
fn server_status_is_server_error() {
    let r = classify_reply(503, "503 Service Unavailable".to_string(), Ok("{}".to_string()), Ok(response(Some(Value::from(1)))));
    match r {
        Err(e) => {
            assert!(matches!(&e, RpcProxyError::HttpServerError(s) if s == "Server error: 503 Service Unavailable"));
            assert!(e.is_retryable());
            assert_eq!(e.message(), "HTTP server error: Server error: 503 Service Unavailable");
        }
        Ok(_) => panic!("expected an error"),
    }
    assert!(matches!(classify_reply(599, "599".to_string(), Ok(String::new()), Err(String::new())), Err(RpcProxyError::HttpServerError(_))));
    assert!(matches!(classify_reply(500, "500".to_string(), Ok(String::new()), Err(String::new())), Err(RpcProxyError::HttpServerError(_))));
}

#[test]
fn client_status_is_client_error() {
    let r = classify_reply(404, "404 Not Found".to_string(), Ok(String::new()), Err(String::new()));
    match r {
        Err(e) => {
            assert!(matches!(&e, RpcProxyError::HttpClientError(s) if s == "Client error: 404 Not Found"));
            assert!(!e.is_retryable());
            assert_eq!(e.message(), "HTTP client error: Client error: 404 Not Found");
        }
        Ok(_) => panic!("expected an error"),
    }
    assert!(matches!(classify_reply(400, "400".to_string(), Ok(String::new()), Err(String::new())), Err(RpcProxyError::HttpClientError(_))));
    assert!(matches!(classify_reply(499, "499".to_string(), Ok(String::new()), Err(String::new())), Err(RpcProxyError::HttpClientError(_))));
}

#[test]
fn blank_body_is_empty() {
    for body in ["", "   ", "\n\t \r\n"] {
        let r = classify_reply(200, "200 OK".to_string(), Ok(body.to_string()), Err("EOF while parsing".to_string()));
        assert!(matches!(r, Ok(CallResult::EmptyBody)));
    }
}

#[test]
fn unreadable_body_is_parse_error() {
    let r = classify_reply(200, "200 OK".to_string(), Err("connection reset".to_string()), Err(String::new()));
    match r {
        Err(e) => {
            assert!(matches!(&e, RpcProxyError::ParseError(s) if s == "Failed to read body: connection reset"));
            assert_eq!(e.message(), "Parse error: Failed to read body: connection reset");
        }
        Ok(_) => panic!("expected an error"),
    }
}

#[test]
fn malformed_body_is_parse_error() {
    let r = classify_reply(200, "200 OK".to_string(), Ok(" nope ".to_string()), Err("expected value at line 1 column 2".to_string()));
    assert!(matches!(r, Err(RpcProxyError::ParseError(ref s)) if s == "JSON parse error: expected value at line 1 column 2"));
}

#[test]
fn null_and_present_results() {
    let r = classify_reply(200, "200 OK".to_string(), Ok("{...}".to_string()), Ok(response(None)));
    assert!(matches!(r, Ok(CallResult::NullResult(ref x)) if x.result.is_none()));
    let r = classify_reply(200, "200 OK".to_string(), Ok("{...}".to_string()), Ok(response(Some(Value::from("0x1")))));
    assert!(matches!(r, Ok(CallResult::Success(ref x)) if x.result == Some(Value::from("0x1"))));
    let r = classify_reply(299, "299".to_string(), Ok("{...}".to_string()), Ok(response(Some(Value::from(2)))));
    assert!(matches!(r, Ok(CallResult::Success(_))));
}

#[test]
fn error_texts() {
    assert_eq!(RpcProxyError::Timeout.message(), "Request timed out");
    assert_eq!(RpcProxyError::HttpRequestFailed("dns".to_string()).message(), "HTTP request failed: dns");
    assert!(RpcProxyError::Timeout.is_retryable());
    assert!(!RpcProxyError::HttpRequestFailed("x".to_string()).is_retryable());
    assert!(!RpcProxyError::ParseError("x".to_string()).is_retryable());
}

#[test]
fn endpoint_attempts() {
    let e = endpoint(3);
    assert_eq!(e.config().retries, 3);
    assert!(matches!(e.send_request(Err(RpcProxyError::Timeout), 1), AttemptStep::Retry));
    assert!(matches!(e.send_request(Err(RpcProxyError::Timeout), 2), AttemptStep::Retry));
    assert!(matches!(e.send_request(Err(RpcProxyError::Timeout), 3), AttemptStep::Done(EndpointResult::Error(RpcProxyError::Timeout))));
    assert!(matches!(
        e.send_request(Err(RpcProxyError::HttpClientError("c".to_string())), 1),
        AttemptStep::Done(EndpointResult::SkipToNext(None))
    ));
    assert!(matches!(e.send_request(Ok(CallResult::EmptyBody), 2), AttemptStep::Done(EndpointResult::SkipToNext(None))));
    assert!(matches!(
        e.send_request(Ok(CallResult::NullResult(response(None))), 1),
        AttemptStep::Done(EndpointResult::SkipToNext(Some(_)))
    ));
    assert!(matches!(
        e.send_request(Ok(CallResult::Success(response(Some(Value::from(1))))), 1),
        AttemptStep::Done(EndpointResult::Response(_))
    ));
    let single = endpoint(1);
    assert!(matches!(
        single.send_request(Err(RpcProxyError::HttpServerError("s".to_string())), 1),
        AttemptStep::Done(EndpointResult::Error(_))
    ));
}

#[test]
fn statuses_outside_2xx_never_succeed() {
    for (status, text) in [(302u16, "302 Found"), (101, "101 Switching Protocols"), (199, "199"), (300, "300"), (600, "600")] {
        let r = classify_reply(status, text.to_string(), Ok("{...}".to_string()), Ok(response(Some(Value::from(2)))));
        match r {
            Err(e) => {
                assert!(matches!(&e, RpcProxyError::HttpRequestFailed(s) if *s == format!("Unexpected status: {}", text)));
                assert!(!e.is_retryable());
            }
            Ok(_) => panic!("status {} must not succeed", status),
        }
    }
    assert!(status_error(200, "200 OK".to_string()).is_none());
    assert!(status_error(204, "204 No Content".to_string()).is_none());
    assert!(matches!(status_error(302, "302 Found".to_string()), Some(RpcProxyError::HttpRequestFailed(ref s)) if s == "Unexpected status: 302 Found"));
    assert!(matches!(status_error(502, "502 Bad Gateway".to_string()), Some(RpcProxyError::HttpServerError(ref s)) if s == "Server error: 502 Bad Gateway"));
    assert!(matches!(status_error(429, "429".to_string()), Some(RpcProxyError::HttpClientError(_))));
}

#[test]
fn trimmed_body_classification() {
    assert!(matches!(classify_trimmed(Ok(""), Err("x".to_string())), Ok(CallResult::EmptyBody)));
    assert!(matches!(classify_trimmed(Ok("x"), Err("bad".to_string())), Err(RpcProxyError::ParseError(ref s)) if s == "JSON parse error: bad"));
    assert!(matches!(classify_trimmed(Err("gone".to_string()), Err(String::new())), Err(RpcProxyError::ParseError(ref s)) if s == "Failed to read body: gone"));
    assert!(matches!(classify_trimmed(Ok("{}"), Ok(response(None))), Ok(CallResult::NullResult(_))));
}

#[test]
fn unicode_whitespace_is_blank() {
    let r = classify_body(Ok("\u{3000}\u{85}\u{a0} \u{2028}".to_string()), Err("EOF".to_string()));
    assert!(matches!(r, Ok(CallResult::EmptyBody)));
    // A zero-width space is no whitespace.
    let r = classify_body(Ok(" \u{200b} ".to_string()), Err("expected value".to_string()));
    assert!(matches!(r, Err(RpcProxyError::ParseError(_))));
    let r = classify_body(Ok("  {\"result\":1}  ".to_string()), Ok(response(Some(Value::from(1)))));
    assert!(matches!(r, Ok(CallResult::Success(_))));
}
