use beyond::codec::{decode_request, decode_response, encode_request, encode_response};
use beyond::Error;
use serde_json::Value;

fn object(field: &str, text: &str) -> Value {
    let mut map = serde_json::Map::new();
    map.insert(field.to_string(), Value::String(text.to_string()));
    Value::Object(map)
}

#[test]
fn serde_request_test() {
    let request = object("name", "Bob");

    let encoded_request = encode_request(&serde_json::to_string(&request).unwrap()).unwrap();
    let decoded_request: Value =
        serde_json::from_str(&decode_request(&encoded_request).unwrap()).unwrap();

    assert_eq!(request, decoded_request);
}

#[test]
fn serde_response_test() {
    let response = object("message", "Hello, Bob!");

    let encoded_response = encode_response(&serde_json::to_string(&response).unwrap()).unwrap();
    let decoded_response: Value =
        serde_json::from_str(&decode_response(&encoded_response).unwrap()).unwrap();

    assert_eq!(response, decoded_response);
}

#[test]
fn encode_request_gives_standard_base64() {
    assert_eq!(encode_request("{\"name\":\"Bob\"}").unwrap(), "eyJuYW1lIjoiQm9iIn0=");
}

#[test]
fn encode_response_gives_standard_base64() {
    assert_eq!(
        encode_response("{\"message\":\"Hello, Bob!\"}").unwrap(),
        "eyJtZXNzYWdlIjoiSGVsbG8sIEJvYiEifQ=="
    );
}

#[test]
fn decode_request_reads_known_token() {
    assert_eq!(decode_request("eyJuYW1lIjoiQm9iIn0=").unwrap(), "{\"name\":\"Bob\"}");
}

#[test]
fn empty_text_round_trips_as_empty_token() {
    assert_eq!(encode_request("").unwrap(), "");
    assert_eq!(decode_request("").unwrap(), "");
    assert_eq!(decode_response("").unwrap(), "");
}

#[test]
fn round_trip_keeps_non_ascii_text() {
    let text = "{\"name\":\"Zo\u{eb} \u{1f600}\"}";
    let token = encode_request(text).unwrap();
    assert!(token.chars().all(|c| c.is_ascii_alphanumeric() || c == '+' || c == '/' || c == '='));
    assert_eq!(decode_request(&token).unwrap(), text);
    let token = encode_response(text).unwrap();
    assert_eq!(decode_response(&token).unwrap(), text);
}

#[test]
fn malformed_request_token_is_an_alphabet_error() {
    let r = decode_request("not-base64!!");
    assert!(matches!(r, Err(Error::AlphabetDecodeRequest { .. })));
}

#[test]
fn malformed_response_token_is_an_alphabet_error() {
    let r = decode_response("not-base64!!");
    assert!(matches!(r, Err(Error::AlphabetDecodeResponse { .. })));
}

#[test]
fn non_canonical_padding_is_refused() {
    assert!(matches!(decode_request("eyJuYW1lIjoiQm9iIn0"), Err(Error::AlphabetDecodeRequest { .. })));
}

#[test]
fn invalid_utf8_is_read_lossily() {
    // 0xff 0xfe in base64
    assert_eq!(decode_request("//4=").unwrap(), "\u{fffd}\u{fffd}");
}

#[test]
fn error_messages() {
    let e = Error::InvalidRoute { route_name: "missing".to_string() };
    assert_eq!(e.message(), "'missing' is not a valid route");
    let e = Error::RemoteExecution { diagnostic: "permission denied".to_string() };
    assert_eq!(e.message(), "the remote command failed: permission denied");
    let e = Error::AlphabetDecodeRequest { detail: "Invalid padding".to_string() };
    assert_eq!(e.message(), "failed to decode the request from base 64: Invalid padding");
    let e = Error::EncodeRequest { detail: "x".to_string() };
    assert_eq!(e.message(), "failed to serialize the request: x");
    let e = Error::EncodeResponse { detail: "x".to_string() };
    assert_eq!(e.message(), "failed to serialize the response: x");
    let e = Error::DecodeRequest { detail: "x".to_string() };
    assert_eq!(e.message(), "failed to deserialize the request: x");
    let e = Error::DecodeResponse { detail: "x".to_string() };
    assert_eq!(e.message(), "failed to deserialize the response: x");
    let e = Error::AlphabetDecodeResponse { detail: "x".to_string() };
    assert_eq!(e.message(), "failed to decode the response from base 64: x");
    let e = Error::TransportLaunch { detail: "x".to_string() };
    assert_eq!(e.message(), "failed to launch the ssh process: x");
    assert_eq!(
        Error::RemoteBinaryMissing.message(),
        "the server component is not installed on the server"
    );
}
