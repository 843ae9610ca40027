use near_jsonrpc_client::client::{new_client, HttpClient, JsonRpcClient, CONNECT_TIMEOUT_SECS, KEEPALIVE_SECS};
use near_jsonrpc_client::codec::{decode, encode, no_params, request_envelope, CodecError, ErrorCode, ParsedEnvelope};
use near_jsonrpc_client::json::Json;
use near_jsonrpc_client::pipeline::{
    complete_call, decode_result, is_correlated, transport_error, typed_outcome, RpcError, TransportError,
};

fn num(n: i64) -> Json {
    Json::Number(serde_json::Number::from(n))
}

fn text(s: &str) -> Json {
    Json::Str(s.to_string())
}

fn object(fields: Vec<(&str, Json)>) -> Json {
    Json::Object(fields.into_iter().map(|(k, v)| (k.to_string(), v)).collect())
}

fn sent_params(bytes: &[u8]) -> serde_json::Value {
    let v: serde_json::Value = serde_json::from_slice(bytes).unwrap();
    v.get("params").cloned().unwrap()
}

#[test]
fn status_result_has_height() {
    let out = complete_call("1", Ok(br#"{"result": {"height": 100}}"#.to_vec()));
    assert_eq!(out, Ok(object(vec![("height", num(100))])));
    let typed = match &out {
        Ok(Json::Object(f)) => f.iter().find(|(k, _)| k == "height").map(|(_, v)| v == &num(100)),
        _ => None,
    };
    assert_eq!(typed_outcome(out, typed), Ok(true));
}

#[test]
fn server_error_is_application_error() {
    let body = br#"{"error": {"code": -32601, "message": "method not found"}}"#.to_vec();
    match complete_call("7", Ok(body)) {
        Err(RpcError::Application(e)) => {
            assert_eq!(e.message, "method not found");
            assert_eq!(e.code, ErrorCode::Numeric(serde_json::Number::from(-32601)));
            assert_eq!(e.data, None);
        }
        other => panic!("unexpected {:?}", other),
    }
}

#[test]
fn server_error_keeps_data() {
    let body = br#"{"jsonrpc":"2.0","id":"3","error":{"code":-32000,"message":"unknown block","data":"no such height"}}"#;
    match decode(body) {
        Ok(ParsedEnvelope::Failure { id, error }) => {
            assert_eq!(id, Some(text("3")));
            assert_eq!(error.message, "unknown block");
            assert_eq!(error.code, ErrorCode::Numeric(serde_json::Number::from(-32000)));
            assert_eq!(error.data, Some(text("no such height")));
        }
        other => panic!("unexpected {:?}", other),
    }
}

#[test]
fn connect_timeout_is_transport_timeout() {
    let t = transport_error(true, true, "connect timed out".to_string());
    assert_eq!(t, TransportError::Timeout("connect timed out".to_string()));
    let out = complete_call("1", Err(t));
    assert!(matches!(out, Err(RpcError::Internal(TransportError::Timeout(_)))));
    assert!(!matches!(out, Err(RpcError::ParseError(_)) | Err(RpcError::Application(_))));
}

#[test]
fn transport_error_kinds() {
    assert_eq!(transport_error(false, true, "refused".to_string()), TransportError::ConnectFailed("refused".to_string()));
    assert_eq!(transport_error(false, false, "reset".to_string()), TransportError::IoError("reset".to_string()));
}

#[test]
fn no_arguments_send_empty_array() {
    let bytes = encode("1", "status", no_params());
    assert_eq!(sent_params(&bytes), serde_json::Value::Array(vec![]));
}

#[test]
fn request_envelope_members() {
    let req = request_envelope("9", "block", Json::Array(vec![num(5)]));
    assert_eq!(
        req,
        object(vec![("jsonrpc", text("2.0")), ("id", text("9")), ("method", text("block")), ("params", Json::Array(vec![num(5)]))])
    );
    let bytes = encode("9", "block", Json::Array(vec![num(5)]));
    let v: serde_json::Value = serde_json::from_slice(&bytes).unwrap();
    assert_eq!(v.get("method").and_then(|m| m.as_str()), Some("block"));
    assert_eq!(v.get("id").and_then(|m| m.as_str()), Some("9"));
    assert_eq!(v.get("jsonrpc").and_then(|m| m.as_str()), Some("2.0"));
}

#[test]
fn params_round_trip_through_echo() {
    let params = object(vec![("finality", text("final")), ("shards", Json::Array(vec![num(0), num(1), Json::Null, Json::Bool(true)]))]);
    let bytes = encode("1", "block", params);
    // A server that echoes the request sends these bytes back as its result.
    let mut echo = b"{\"result\":".to_vec();
    echo.extend_from_slice(&bytes);
    echo.push(b'}');
    let echoed = match complete_call("1", Ok(echo)) {
        Ok(Json::Object(f)) => f.into_iter().find(|(k, _)| k == "params").map(|(_, v)| v),
        other => panic!("unexpected {:?}", other),
    };
    let expected = object(vec![("finality", text("final")), ("shards", Json::Array(vec![num(0), num(1), Json::Null, Json::Bool(true)]))]);
    assert_eq!(echoed, Some(expected));
}

#[test]
fn result_without_error_is_success() {
    let out = decode(br#"{"jsonrpc":"2.0","id":"1","result":[1,2]}"#);
    assert_eq!(out, Ok(ParsedEnvelope::Success { id: Some(text("1")), result: Json::Array(vec![num(1), num(2)]) }));
    let null_result = decode(br#"{"result":null}"#);
    assert_eq!(null_result, Ok(ParsedEnvelope::Success { id: None, result: Json::Null }));
}

#[test]
fn malformed_bodies() {
    assert_eq!(decode(br#"{"jsonrpc":"2.0","id":"1"}"#), Err(CodecError::Malformed));
    assert_eq!(decode(b"{not json"), Err(CodecError::Malformed));
    assert_eq!(decode(b""), Err(CodecError::Malformed));
    assert_eq!(decode(b"[1,2]"), Err(CodecError::Malformed));
    assert_eq!(decode(br#"{"result":1,"error":{"code":1,"message":"x"}}"#), Err(CodecError::Malformed));
    assert_eq!(decode(br#"{"error":{"message":"no code"}}"#), Err(CodecError::Malformed));
    assert_eq!(complete_call("1", Ok(b"{}".to_vec())), Err(RpcError::ParseError(CodecError::Malformed)));
}

#[test]
fn missing_field_is_shape_mismatch() {
    let raw = complete_call("1", Ok(br#"{"result":{"hash":"abc"}}"#.to_vec()));
    // The caller expects an object with a `height` field.
    let shaped: Option<u64> = match &raw {
        Ok(Json::Object(f)) => f.iter().find(|(k, _)| k == "height").and_then(|(_, v)| match v {
            Json::Number(n) => n.as_u64(),
            _ => None,
        }),
        _ => None,
    };
    assert_eq!(typed_outcome(raw, shaped), Err(RpcError::ParseError(CodecError::ShapeMismatch)));
    assert_eq!(decode_result(None::<u64>), Err(CodecError::ShapeMismatch));
    assert_eq!(decode_result(Some(4u64)), Ok(4));
}

#[test]
fn responses_stay_with_their_call() {
    let body = br#"{"jsonrpc":"2.0","id":"2","result":"second"}"#.to_vec();
    assert_eq!(complete_call("2", Ok(body.clone())), Ok(text("second")));
    assert_eq!(complete_call("1", Ok(body)), Err(RpcError::ParseError(CodecError::Malformed)));
    let numeric = br#"{"id":2,"result":"x"}"#.to_vec();
    assert_eq!(complete_call("2", Ok(numeric)), Err(RpcError::ParseError(CodecError::Malformed)));
}

#[test]
fn correlation_of_identifiers() {
    assert!(is_correlated(&None, "5"));
    assert!(is_correlated(&Some(Json::Null), "5"));
    assert!(is_correlated(&Some(text("5")), "5"));
    assert!(!is_correlated(&Some(text("6")), "5"));
    assert!(!is_correlated(&Some(num(5)), "5"));
}

#[test]
fn transport_failure_is_internal() {
    let out = complete_call("1", Err(TransportError::IoError("closed".to_string())));
    assert_eq!(out, Err(RpcError::Internal(TransportError::IoError("closed".to_string()))));
    assert_eq!(typed_outcome::<u64>(out, None), Err(RpcError::Internal(TransportError::IoError("closed".to_string()))));
}

#[test]
fn new_client_keeps_address() {
    assert_eq!(CONNECT_TIMEOUT_SECS, 30);
    assert_eq!(KEEPALIVE_SECS, 30);
    let c = new_client("http://127.0.0.1:3030").unwrap();
    assert_eq!(c.server_addr, "http://127.0.0.1:3030");
    assert_eq!(c.connect_timeout_secs, 30);
    assert_eq!(c.keepalive_secs, 30);
    let shared = c.clone();
    assert_eq!(shared.server_addr, c.server_addr);
    let http = HttpClient { client: c.client, connect_timeout_secs: 5, keepalive_secs: 7 };
    let d = JsonRpcClient::new("http://localhost:1", http);
    assert_eq!(d.server_addr, "http://localhost:1");
    assert_eq!(d.connect_timeout_secs, 5);
    assert_eq!(d.keepalive_secs, 7);
}

#[test]
fn symbolic_error_code() {
    let body = br#"{"id":"4","error":{"code":"UNKNOWN_BLOCK","message":"block not found"}}"#.to_vec();
    match complete_call("4", Ok(body)) {
        Err(RpcError::Application(e)) => {
            assert_eq!(e.code, ErrorCode::Symbolic("UNKNOWN_BLOCK".to_string()));
            assert_eq!(e.message, "block not found");
        }
        other => panic!("unexpected {:?}", other),
    }
    assert_eq!(decode(br#"{"error":{"code":true,"message":"x"}}"#), Err(CodecError::Malformed));
}
